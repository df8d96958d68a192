use geojson_rstar::bbox::Bbox;
use geojson_rstar::error::GeoJsonConversionError;
use geojson_rstar::point_feature::PointFeature;
use geojson_rstar::raw::RawValue;
use geojson_rstar::record::FeatureRecord;

fn pos(x: f64, y: f64) -> Vec<u64> {
    vec![x.to_bits(), y.to_bits()]
}

fn record(geometry: Option<RawValue>) -> FeatureRecord {
    FeatureRecord { bbox: None, geometry, id: None, properties: None, foreign_members: None }
}

#[test]
fn test_try_into_point_feature_success() {
    let mut properties = serde_json::Map::new();
    properties.insert("IPEDSID".to_string(), serde_json::Value::String("172918".to_string()));
    properties.insert(
        "NAME".to_string(),
        serde_json::Value::String("ALEXANDRIA TECHNICAL & COMMUNITY COLLEGE".to_string()),
    );
    properties.insert(
        "ADDRESS".to_string(),
        serde_json::Value::String("1601 JEFFERSON STREEET".to_string()),
    );
    properties.insert("CITY".to_string(), serde_json::Value::String("ALEXANDRIA".to_string()));
    properties.insert("STATE".to_string(), serde_json::Value::String("MN".to_string()));
    properties.insert("ZIP".to_string(), serde_json::Value::String("56308".to_string()));
    let feature = FeatureRecord {
        bbox: None,
        geometry: Some(RawValue::Point(pos(-95.372464158999946, 45.87291786000003))),
        id: None,
        properties: Some(properties),
        foreign_members: None,
    };

    let point_feature = PointFeature::try_from(feature);
    assert!(
        point_feature.is_ok(),
        "The point record with a geometry, but missing a bounding box, can be converted to a PointFeature"
    );
}

#[test]
fn point_feature_computes_bbox_from_coordinates() {
    let feature = record(Some(RawValue::Point(pos(-95.372464, 45.872918))));
    let point_feature = PointFeature::try_from(feature).expect("conversion succeeds");
    let expected = Bbox {
        min_x: (-95.372464f64).to_bits(),
        min_y: 45.872918f64.to_bits(),
        max_x: (-95.372464f64).to_bits(),
        max_y: 45.872918f64.to_bits(),
    };
    assert_eq!(point_feature.bbox(), expected);
    assert_eq!(point_feature.envelope(), expected);
}

#[test]
fn point_feature_keeps_supplied_bbox() {
    let supplied = Bbox {
        min_x: (-100.0f64).to_bits(),
        min_y: 40.0f64.to_bits(),
        max_x: (-90.0f64).to_bits(),
        max_y: 50.0f64.to_bits(),
    };
    let feature = FeatureRecord {
        bbox: Some(supplied),
        geometry: Some(RawValue::Point(pos(-95.0, 45.0))),
        id: None,
        properties: None,
        foreign_members: None,
    };
    let point_feature = PointFeature::try_from(feature).expect("conversion succeeds");
    assert_eq!(point_feature.bbox(), supplied);
}

#[test]
fn point_with_three_components_is_malformed() {
    let feature = record(Some(RawValue::Point(vec![
        1.0f64.to_bits(),
        2.0f64.to_bits(),
        3.0f64.to_bits(),
    ])));
    let err = PointFeature::try_from(feature).unwrap_err();
    assert!(matches!(err, GeoJsonConversionError::MalformedGeometry(_)));
}

#[test]
fn record_without_geometry_is_missing_geometry() {
    let id = geojson::feature::Id::String("missing-one".to_string());
    let feature = FeatureRecord {
        bbox: None,
        geometry: None,
        id: Some(id.clone()),
        properties: None,
        foreign_members: None,
    };
    let err = PointFeature::try_from(feature).unwrap_err();
    match err {
        GeoJsonConversionError::MissingGeometry(got) => assert_eq!(got, Some(id)),
        other => panic!("expected MissingGeometry, got {:?}", other),
    }
}

#[test]
fn point_builder_rejects_other_kinds() {
    let feature = record(Some(RawValue::LineString(vec![pos(0.0, 0.0), pos(1.0, 1.0)])));
    let err = PointFeature::try_from(feature).unwrap_err();
    match err {
        GeoJsonConversionError::IncorrectGeometryValue(msg) => {
            assert_eq!(msg, "Error: did not find Point feature");
        },
        other => panic!("expected IncorrectGeometryValue, got {:?}", other),
    }
}

#[test]
fn point_feature_round_trips_into_record() {
    let feature = record(Some(RawValue::Point(pos(3.5, -7.25))));
    let point_feature = PointFeature::try_from(feature).expect("conversion succeeds");
    let bbox = point_feature.bbox();
    let back = point_feature.into_record();
    assert_eq!(back.bbox, Some(bbox));
    assert_eq!(back.geometry, Some(RawValue::Point(pos(3.5, -7.25))));
    assert!(back.id.is_none());
}

#[test]
fn point_feature_carries_metadata_unchanged() {
    let mut properties = serde_json::Map::new();
    properties.insert("name".to_string(), serde_json::Value::String("somewhere".to_string()));
    let mut foreign = serde_json::Map::new();
    foreign.insert("extra".to_string(), serde_json::Value::Bool(true));
    let feature = FeatureRecord {
        bbox: None,
        geometry: Some(RawValue::Point(pos(10.0, 20.0))),
        id: Some(geojson::feature::Id::String("p-1".to_string())),
        properties: Some(properties.clone()),
        foreign_members: Some(foreign.clone()),
    };
    let point_feature = PointFeature::try_from(feature).expect("conversion succeeds");
    assert_eq!(point_feature.id, Some(geojson::feature::Id::String("p-1".to_string())));
    assert_eq!(point_feature.properties, Some(properties));
    assert_eq!(point_feature.foreign_members, Some(foreign));
}
