use geojson_rstar::bbox::Bbox;
use geojson_rstar::error::GeoJsonConversionError;
use geojson_rstar::polygon_feature::PolygonFeature;
use geojson_rstar::raw::RawValue;
use geojson_rstar::record::FeatureRecord;

fn pos(x: f64, y: f64) -> Vec<u64> {
    vec![x.to_bits(), y.to_bits()]
}

fn record(geometry: Option<RawValue>) -> FeatureRecord {
    FeatureRecord { bbox: None, geometry, id: None, properties: None, foreign_members: None }
}

fn clare_county_ring() -> Vec<Vec<u64>> {
    vec![
        pos(-85.087602, 44.07366),
        pos(-84.608104, 44.160482),
        pos(-84.606037, 43.815365),
        pos(-85.088811, 43.813676),
        pos(-85.087602, 44.07366),
    ]
}

#[test]
fn test_try_from_polygon_success() {
    let mut properties = serde_json::Map::new();
    properties.insert("STATEFP".to_string(), serde_json::Value::String("26".to_string()));
    properties.insert("COUNTYFP".to_string(), serde_json::Value::String("035".to_string()));
    properties.insert("NAME".to_string(), serde_json::Value::String("Clare".to_string()));
    let feature = FeatureRecord {
        bbox: None,
        geometry: Some(RawValue::Polygon(vec![clare_county_ring()])),
        id: None,
        properties: Some(properties),
        foreign_members: None,
    };

    let polygon_feature = PolygonFeature::try_from(feature);
    assert!(
        polygon_feature.is_ok(),
        "The polygon feature can be correctly converted from a polygon record"
    );
}

#[test]
fn polygon_bbox_covers_every_ring() {
    let exterior = vec![pos(0.0, 0.0), pos(10.0, 0.0), pos(10.0, 10.0), pos(0.0, 10.0)];
    let hole = vec![pos(2.0, 2.0), pos(4.0, 2.0), pos(4.0, 4.0), pos(2.0, 4.0)];
    let feature = record(Some(RawValue::Polygon(vec![exterior, hole])));
    let f = PolygonFeature::try_from(feature).expect("conversion succeeds");
    let expected = Bbox {
        min_x: 0.0f64.to_bits(),
        min_y: 0.0f64.to_bits(),
        max_x: 10.0f64.to_bits(),
        max_y: 10.0f64.to_bits(),
    };
    assert_eq!(f.bbox(), expected);
}

#[test]
fn empty_ring_list_is_malformed() {
    let feature = record(Some(RawValue::Polygon(vec![])));
    let err = PolygonFeature::try_from(feature).unwrap_err();
    assert!(matches!(err, GeoJsonConversionError::MalformedGeometry(_)));
}

#[test]
fn empty_ring_is_malformed() {
    let feature = record(Some(RawValue::Polygon(vec![clare_county_ring(), vec![]])));
    let err = PolygonFeature::try_from(feature).unwrap_err();
    assert!(matches!(err, GeoJsonConversionError::MalformedGeometry(_)));
}

#[test]
fn ring_position_with_one_component_is_malformed() {
    let feature = record(Some(RawValue::Polygon(vec![vec![
        pos(0.0, 0.0),
        vec![1.0f64.to_bits()],
    ]])));
    let err = PolygonFeature::try_from(feature).unwrap_err();
    assert!(matches!(err, GeoJsonConversionError::MalformedGeometry(_)));
}

#[test]
fn polygon_builder_rejects_other_kinds() {
    let feature = record(Some(RawValue::Point(pos(0.0, 0.0))));
    let err = PolygonFeature::try_from(feature).unwrap_err();
    match err {
        GeoJsonConversionError::IncorrectGeometryValue(msg) => {
            assert_eq!(msg, "Error: did not find Polygon feature");
        },
        other => panic!("expected IncorrectGeometryValue, got {:?}", other),
    }
}

#[test]
fn polygon_round_trips_into_record() {
    let rings = vec![clare_county_ring()];
    let feature = record(Some(RawValue::Polygon(rings.clone())));
    let f = PolygonFeature::try_from(feature).expect("conversion succeeds");
    let back = f.into_record();
    assert_eq!(back.geometry, Some(RawValue::Polygon(rings)));
    assert!(back.bbox.is_some());
}
