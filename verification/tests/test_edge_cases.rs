use geojson_rstar::bbox::Bbox;
use geojson_rstar::geometry_collection::GeometryCollectionFeature;
use geojson_rstar::linestring_feature::LineStringFeature;
use geojson_rstar::multilinestring_feature::MultiLineStringFeature;
use geojson_rstar::point_feature::PointFeature;
use geojson_rstar::raw::RawValue;
use geojson_rstar::record::FeatureRecord;

fn pos(x: f64, y: f64) -> Vec<u64> {
    vec![x.to_bits(), y.to_bits()]
}

fn bits_box(min_x: f64, min_y: f64, max_x: f64, max_y: f64) -> Bbox {
    Bbox {
        min_x: min_x.to_bits(),
        min_y: min_y.to_bits(),
        max_x: max_x.to_bits(),
        max_y: max_y.to_bits(),
    }
}

#[test]
fn supplied_bbox_is_trusted_even_when_wrong() {
    let supplied = bits_box(1000.0, 1000.0, 1001.0, 1001.0);
    let feature = FeatureRecord {
        bbox: Some(supplied),
        geometry: Some(RawValue::LineString(vec![pos(0.0, 0.0), pos(1.0, 1.0)])),
        id: None,
        properties: None,
        foreign_members: None,
    };
    let f = LineStringFeature::try_from(feature).expect("conversion succeeds");
    assert_eq!(f.bbox(), supplied);
}

#[test]
fn supplied_bbox_spares_decoding_short_positions() {
    let supplied = bits_box(0.0, 0.0, 1.0, 1.0);
    let feature = FeatureRecord {
        bbox: Some(supplied),
        geometry: Some(RawValue::MultiLineString(vec![vec![vec![5.0f64.to_bits()]]])),
        id: None,
        properties: None,
        foreign_members: None,
    };
    let f = MultiLineStringFeature::try_from(feature).expect("conversion succeeds");
    assert_eq!(f.bbox(), supplied);
    assert_eq!(f.lines()[0][0].len(), 1);
}

#[test]
fn nan_coordinates_never_coincide() {
    let feature = FeatureRecord {
        bbox: None,
        geometry: Some(RawValue::LineString(vec![
            vec![f64::NAN.to_bits(), f64::NAN.to_bits()],
            vec![f64::NAN.to_bits(), f64::NAN.to_bits()],
        ])),
        id: None,
        properties: None,
        foreign_members: None,
    };
    assert!(LineStringFeature::try_from(feature).is_ok());
}

#[test]
fn collection_keeps_supplied_bbox() {
    let supplied = bits_box(-1.0, -1.0, 1.0, 1.0);
    let feature = FeatureRecord {
        bbox: Some(supplied),
        geometry: Some(RawValue::GeometryCollection(vec![RawValue::Point(pos(
            50.0, 50.0,
        ))])),
        id: None,
        properties: None,
        foreign_members: None,
    };
    let f = GeometryCollectionFeature::try_from(feature).expect("conversion succeeds");
    assert_eq!(f.bbox(), supplied);
    assert_eq!(f.geometries().len(), 1);
}

#[test]
fn numeric_identifier_is_carried_over() {
    let id = geojson::feature::Id::Number(serde_json::Number::from(7u64));
    let feature = FeatureRecord {
        bbox: None,
        geometry: Some(RawValue::Point(pos(2.0, 3.0))),
        id: Some(id.clone()),
        properties: None,
        foreign_members: None,
    };
    let f = PointFeature::try_from(feature).expect("conversion succeeds");
    assert_eq!(f.id, Some(id));
}
