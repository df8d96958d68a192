use geojson_rstar::bbox::Bbox;
use geojson_rstar::error::GeoJsonConversionError;
use geojson_rstar::linestring_feature::LineStringFeature;
use geojson_rstar::raw::RawValue;
use geojson_rstar::record::FeatureRecord;

fn pos(x: f64, y: f64) -> Vec<u64> {
    vec![x.to_bits(), y.to_bits()]
}

fn record(geometry: Option<RawValue>) -> FeatureRecord {
    FeatureRecord { bbox: None, geometry, id: None, properties: None, foreign_members: None }
}

#[test]
fn test_try_into_linestring_feature_success() {
    let mut properties = serde_json::Map::new();
    properties.insert(
        "STREETALL".to_string(),
        serde_json::Value::String("GLEASON LAKE DR".to_string()),
    );
    properties.insert("ALT_NAM1".to_string(), serde_json::Value::String(" ".to_string()));
    properties.insert("ALT_NAM2".to_string(), serde_json::Value::String(" ".to_string()));
    properties.insert("TLGID".to_string(), serde_json::Value::from(43062u64));
    properties.insert("FUN_CLAS".to_string(), serde_json::Value::from(310u64));
    properties.insert(
        "FC_NAME".to_string(),
        serde_json::Value::String("Major Collector".to_string()),
    );
    let feature = FeatureRecord {
        bbox: None,
        geometry: Some(RawValue::LineString(vec![
            pos(462822.7187, 4980845.5),
            pos(462866.6875, 4980852.0),
            pos(463035.5312, 4980905.5),
        ])),
        id: None,
        properties: Some(properties),
        foreign_members: None,
    };

    let linestring_feature = LineStringFeature::try_from(feature);
    assert!(
        linestring_feature.is_ok(),
        "Can convert into LineStringFeature from LineString"
    );
}

#[test]
fn collinear_line_succeeds_and_degenerate_line_fails() {
    let good = record(Some(RawValue::LineString(vec![
        pos(0.0, 0.0),
        pos(1.0, 1.0),
        pos(2.0, 2.000001),
    ])));
    assert!(LineStringFeature::try_from(good).is_ok());

    let degenerate = record(Some(RawValue::LineString(vec![
        pos(5.0, 5.0),
        pos(5.0, 5.0),
    ])));
    let err = LineStringFeature::try_from(degenerate).unwrap_err();
    assert!(matches!(err, GeoJsonConversionError::MalformedGeometry(_)));
}

#[test]
fn all_coincident_points_are_malformed() {
    let feature = record(Some(RawValue::LineString(vec![
        pos(1.5, -2.5),
        pos(1.5, -2.5),
        pos(1.5, -2.5),
    ])));
    let err = LineStringFeature::try_from(feature).unwrap_err();
    assert!(matches!(err, GeoJsonConversionError::MalformedGeometry(_)));
}

#[test]
fn single_point_line_is_malformed() {
    let feature = record(Some(RawValue::LineString(vec![pos(1.0, 2.0)])));
    let err = LineStringFeature::try_from(feature).unwrap_err();
    assert!(matches!(err, GeoJsonConversionError::MalformedGeometry(_)));
}

#[test]
fn line_with_short_position_is_malformed() {
    let id = geojson::feature::Id::String("short-line".to_string());
    let feature = FeatureRecord {
        bbox: None,
        geometry: Some(RawValue::LineString(vec![pos(0.0, 0.0), vec![1.0f64.to_bits()]])),
        id: Some(id.clone()),
        properties: None,
        foreign_members: None,
    };
    let err = LineStringFeature::try_from(feature).unwrap_err();
    match err {
        GeoJsonConversionError::MalformedGeometry(got) => assert_eq!(got, Some(id)),
        other => panic!("expected MalformedGeometry, got {:?}", other),
    }
}

#[test]
fn line_with_wide_position_is_malformed() {
    let feature = record(Some(RawValue::LineString(vec![
        pos(0.0, 0.0),
        vec![1.0f64.to_bits(), 1.0f64.to_bits(), 9.0f64.to_bits()],
    ])));
    let err = LineStringFeature::try_from(feature).unwrap_err();
    assert!(matches!(err, GeoJsonConversionError::MalformedGeometry(_)));
}

#[test]
fn negative_and_positive_zero_coincide() {
    let feature = record(Some(RawValue::LineString(vec![
        vec![0.0f64.to_bits(), 0.0f64.to_bits()],
        vec![(-0.0f64).to_bits(), (-0.0f64).to_bits()],
    ])));
    let err = LineStringFeature::try_from(feature).unwrap_err();
    assert!(matches!(err, GeoJsonConversionError::MalformedGeometry(_)));
}

#[test]
fn linestring_bbox_spans_all_points() {
    let feature = record(Some(RawValue::LineString(vec![
        pos(462822.7187, 4980845.5),
        pos(462866.6875, 4980852.0),
        pos(463035.5312, 4980905.5),
    ])));
    let f = LineStringFeature::try_from(feature).expect("conversion succeeds");
    let expected = Bbox {
        min_x: 462822.7187f64.to_bits(),
        min_y: 4980845.5f64.to_bits(),
        max_x: 463035.5312f64.to_bits(),
        max_y: 4980905.5f64.to_bits(),
    };
    assert_eq!(f.bbox(), expected);
}

#[test]
fn linestring_builder_rejects_other_kinds() {
    let feature = record(Some(RawValue::Point(pos(0.0, 0.0))));
    let err = LineStringFeature::try_from(feature).unwrap_err();
    match err {
        GeoJsonConversionError::IncorrectGeometryValue(msg) => {
            assert_eq!(msg, "Error: did not find Linestring feature");
        },
        other => panic!("expected IncorrectGeometryValue, got {:?}", other),
    }
}

#[test]
fn linestring_round_trips_into_record() {
    let line = vec![pos(0.0, 0.0), pos(3.0, 4.0)];
    let feature = record(Some(RawValue::LineString(line.clone())));
    let f = LineStringFeature::try_from(feature).expect("conversion succeeds");
    let back = f.into_record();
    assert_eq!(back.geometry, Some(RawValue::LineString(line)));
}
