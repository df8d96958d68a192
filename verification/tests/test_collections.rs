use geojson_rstar::bbox::Bbox;
use geojson_rstar::error::GeoJsonConversionError;
use geojson_rstar::geometry_collection::{convert_bounding_rect, GeometryCollectionFeature};
use geojson_rstar::multilinestring_feature::MultiLineStringFeature;
use geojson_rstar::multipoint_feature::MultiPointFeature;
use geojson_rstar::multipolygon_feature::MultiPolygonFeature;
use geojson_rstar::raw::RawValue;
use geojson_rstar::record::FeatureRecord;
use geojson_rstar::Feature;

fn pos(x: f64, y: f64) -> Vec<u64> {
    vec![x.to_bits(), y.to_bits()]
}

fn record(geometry: Option<RawValue>) -> FeatureRecord {
    FeatureRecord { bbox: None, geometry, id: None, properties: None, foreign_members: None }
}

fn bits_box(min_x: f64, min_y: f64, max_x: f64, max_y: f64) -> Bbox {
    Bbox {
        min_x: min_x.to_bits(),
        min_y: min_y.to_bits(),
        max_x: max_x.to_bits(),
        max_y: max_y.to_bits(),
    }
}

#[test]
fn multi_point_bbox_and_validation() {
    let f = MultiPointFeature::try_from(record(Some(RawValue::MultiPoint(vec![
        pos(1.0, 8.0),
        pos(-2.0, 3.0),
        pos(5.0, 4.0),
    ]))))
        .expect("conversion succeeds");
    assert_eq!(f.bbox(), bits_box(-2.0, 3.0, 5.0, 8.0));

    let empty = MultiPointFeature::try_from(record(Some(RawValue::MultiPoint(vec![]))));
    assert!(matches!(
        empty.unwrap_err(),
        GeoJsonConversionError::MalformedGeometry(_)
    ));

    let wide = MultiPointFeature::try_from(record(Some(RawValue::MultiPoint(vec![vec![
        1.0f64.to_bits(),
    ]]))));
    assert!(matches!(
        wide.unwrap_err(),
        GeoJsonConversionError::MalformedGeometry(_)
    ));
}

#[test]
fn multi_point_builder_rejects_other_kinds() {
    let err = MultiPointFeature::try_from(record(Some(RawValue::Point(pos(0.0, 0.0)))))
        .unwrap_err();
    match err {
        GeoJsonConversionError::IncorrectGeometryValue(msg) => {
            assert_eq!(msg, "Error: did not find a MultiPoint feature");
        },
        other => panic!("expected IncorrectGeometryValue, got {:?}", other),
    }
}

#[test]
fn multi_line_string_bbox_and_validation() {
    let f = MultiLineStringFeature::try_from(record(Some(RawValue::MultiLineString(vec![
        vec![pos(0.0, 0.0), pos(2.0, 2.0)],
        vec![pos(-1.0, 5.0), pos(1.0, 6.0)],
    ]))))
        .expect("conversion succeeds");
    assert_eq!(f.bbox(), bits_box(-1.0, 0.0, 2.0, 6.0));

    let empty_list = MultiLineStringFeature::try_from(record(Some(
        RawValue::MultiLineString(vec![]),
    )));
    assert!(matches!(
        empty_list.unwrap_err(),
        GeoJsonConversionError::MalformedGeometry(_)
    ));

    let empty_line = MultiLineStringFeature::try_from(record(Some(RawValue::MultiLineString(
        vec![vec![pos(0.0, 0.0), pos(1.0, 1.0)], vec![]],
    ))));
    assert!(matches!(
        empty_line.unwrap_err(),
        GeoJsonConversionError::MalformedGeometry(_)
    ));
}

#[test]
fn multi_line_string_builder_rejects_other_kinds() {
    let err = MultiLineStringFeature::try_from(record(Some(RawValue::Point(pos(0.0, 0.0)))))
        .unwrap_err();
    match err {
        GeoJsonConversionError::IncorrectGeometryValue(msg) => {
            assert_eq!(msg, "Error: did not find a MultiLinestring Feature");
        },
        other => panic!("expected IncorrectGeometryValue, got {:?}", other),
    }
}

#[test]
fn multi_polygon_bbox_and_validation() {
    let f = MultiPolygonFeature::try_from(record(Some(RawValue::MultiPolygon(vec![
        vec![vec![pos(0.0, 0.0), pos(1.0, 0.0), pos(1.0, 1.0)]],
        vec![vec![pos(10.0, 10.0), pos(12.0, 10.0), pos(12.0, 13.0)]],
    ]))))
        .expect("conversion succeeds");
    assert_eq!(f.bbox(), bits_box(0.0, 0.0, 12.0, 13.0));

    let empty_polygon = MultiPolygonFeature::try_from(record(Some(RawValue::MultiPolygon(
        vec![vec![]],
    ))));
    assert!(matches!(
        empty_polygon.unwrap_err(),
        GeoJsonConversionError::MalformedGeometry(_)
    ));

    let empty_ring = MultiPolygonFeature::try_from(record(Some(RawValue::MultiPolygon(vec![
        vec![vec![pos(0.0, 0.0)], vec![]],
    ]))));
    assert!(matches!(
        empty_ring.unwrap_err(),
        GeoJsonConversionError::MalformedGeometry(_)
    ));

    let empty_list = MultiPolygonFeature::try_from(record(Some(RawValue::MultiPolygon(vec![]))));
    assert!(matches!(
        empty_list.unwrap_err(),
        GeoJsonConversionError::MalformedGeometry(_)
    ));
}

#[test]
fn multi_polygon_builder_rejects_other_kinds() {
    let err = MultiPolygonFeature::try_from(record(Some(RawValue::Point(pos(0.0, 0.0)))))
        .unwrap_err();
    match err {
        GeoJsonConversionError::IncorrectGeometryValue(msg) => {
            assert_eq!(msg, "Error: did not find a MultiPolygon feature");
        },
        other => panic!("expected IncorrectGeometryValue, got {:?}", other),
    }
}

#[test]
fn collection_bbox_is_union_of_member_bboxes() {
    let members = vec![
        RawValue::Point(pos(5.0, 5.0)),
        RawValue::LineString(vec![pos(-3.0, 1.0), pos(2.0, 8.0)]),
        RawValue::GeometryCollection(vec![RawValue::Point(pos(0.0, -4.0))]),
    ];
    let f = GeometryCollectionFeature::try_from(record(Some(RawValue::GeometryCollection(
        members,
    ))))
        .expect("conversion succeeds");
    assert_eq!(f.bbox(), bits_box(-3.0, -4.0, 5.0, 8.0));
}

#[test]
fn collection_leaf_boxes_flatten_nested_members() {
    let members = vec![
        RawValue::Point(pos(5.0, 5.0)),
        RawValue::GeometryCollection(vec![
            RawValue::Point(pos(0.0, -4.0)),
            RawValue::LineString(vec![pos(-3.0, 1.0), pos(2.0, 8.0)]),
        ]),
    ];
    let leaf_boxes = convert_bounding_rect(&members);
    assert_eq!(leaf_boxes.len(), 3);
    assert_eq!(leaf_boxes[0], bits_box(5.0, 5.0, 5.0, 5.0));
    assert_eq!(leaf_boxes[1], bits_box(0.0, -4.0, 0.0, -4.0));
    assert_eq!(leaf_boxes[2], bits_box(-3.0, 1.0, 2.0, 8.0));
    let union = leaf_boxes[0].union(leaf_boxes[1]).union(leaf_boxes[2]);

    let f = GeometryCollectionFeature::try_from(record(Some(RawValue::GeometryCollection(
        vec![
            RawValue::Point(pos(5.0, 5.0)),
            RawValue::GeometryCollection(vec![
                RawValue::Point(pos(0.0, -4.0)),
                RawValue::LineString(vec![pos(-3.0, 1.0), pos(2.0, 8.0)]),
            ]),
        ],
    ))))
        .expect("conversion succeeds");
    assert_eq!(f.bbox(), union);
}

#[test]
fn empty_collection_is_malformed() {
    let err = GeometryCollectionFeature::try_from(record(Some(RawValue::GeometryCollection(
        vec![],
    ))))
        .unwrap_err();
    assert!(matches!(err, GeoJsonConversionError::MalformedGeometry(_)));
}

#[test]
fn collection_with_a_bad_member_is_malformed() {
    let err = GeometryCollectionFeature::try_from(record(Some(RawValue::GeometryCollection(
        vec![
            RawValue::Point(pos(1.0, 1.0)),
            RawValue::Point(vec![1.0f64.to_bits()]),
        ],
    ))))
        .unwrap_err();
    assert!(matches!(err, GeoJsonConversionError::MalformedGeometry(_)));
}

#[test]
fn collection_builder_rejects_other_kinds() {
    let err = GeometryCollectionFeature::try_from(record(Some(RawValue::Point(pos(0.0, 0.0)))))
        .unwrap_err();
    match err {
        GeoJsonConversionError::IncorrectGeometryValue(msg) => {
            assert_eq!(msg, "Error: did not find GeometryCollection feature");
        },
        other => panic!("expected IncorrectGeometryValue, got {:?}", other),
    }
}

#[test]
fn feature_dispatch_builds_the_matching_kind() {
    let point = Feature::try_from(record(Some(RawValue::Point(pos(1.0, 2.0)))))
        .expect("point conversion succeeds");
    assert!(matches!(point, Feature::Point(_)));
    assert_eq!(point.envelope(), bits_box(1.0, 2.0, 1.0, 2.0));

    let line = Feature::try_from(record(Some(RawValue::LineString(vec![
        pos(0.0, 0.0),
        pos(1.0, 1.0),
    ]))))
        .expect("line conversion succeeds");
    assert!(matches!(line, Feature::LineString(_)));

    let polygon = Feature::try_from(record(Some(RawValue::Polygon(vec![vec![
        pos(0.0, 0.0),
        pos(1.0, 0.0),
        pos(1.0, 1.0),
    ]]))))
        .expect("polygon conversion succeeds");
    assert!(matches!(polygon, Feature::Polygon(_)));

    let missing = Feature::try_from(record(None)).unwrap_err();
    assert!(matches!(missing, GeoJsonConversionError::MissingGeometry(None)));
}

#[test]
fn feature_dispatch_builds_collections() {
    let built = Feature::try_from(record(Some(RawValue::GeometryCollection(vec![
        RawValue::Point(pos(1.0, 2.0)),
        RawValue::Point(pos(3.0, 4.0)),
    ]))))
        .expect("collection conversion succeeds");
    assert!(matches!(built, Feature::GeometryCollection(_)));
    assert_eq!(built.envelope(), bits_box(1.0, 2.0, 3.0, 4.0));

    let empty = Feature::try_from(record(Some(RawValue::GeometryCollection(vec![]))));
    assert!(matches!(
        empty.unwrap_err(),
        GeoJsonConversionError::MalformedGeometry(_)
    ));
}

#[test]
fn collection_with_short_line_member_is_malformed() {
    let err = GeometryCollectionFeature::try_from(record(Some(RawValue::GeometryCollection(
        vec![RawValue::LineString(vec![pos(0.0, 0.0), vec![1.0f64.to_bits()]])],
    ))))
        .unwrap_err();
    assert!(matches!(err, GeoJsonConversionError::MalformedGeometry(_)));
}

#[test]
fn feature_into_record_preserves_payload_and_bbox() {
    let f = Feature::try_from(record(Some(RawValue::MultiPoint(vec![
        pos(1.0, 1.0),
        pos(2.0, 2.0),
    ]))))
        .expect("conversion succeeds");
    let envelope = f.envelope();
    let back = f.into_record();
    assert_eq!(back.bbox, Some(envelope));
    assert_eq!(
        back.geometry,
        Some(RawValue::MultiPoint(vec![pos(1.0, 1.0), pos(2.0, 2.0)]))
    );
}
