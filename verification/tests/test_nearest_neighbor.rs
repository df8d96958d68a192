use geojson_rstar::linestring_feature::LineStringFeature;
use geojson_rstar::point_feature::PointFeature;
use geojson_rstar::polygon_feature::PolygonFeature;
use geojson_rstar::raw::RawValue;
use geojson_rstar::record::FeatureRecord;

use geo::algorithm::closest_point::ClosestPoint;
use geo::algorithm::euclidean_distance::EuclideanDistance;
use geo::algorithm::haversine_distance::HaversineDistance;
use geo::Closest;
use rstar::{PointDistance, RTreeObject, RTree, AABB};

fn pos(x: f64, y: f64) -> Vec<u64> {
    vec![x.to_bits(), y.to_bits()]
}

fn record(geometry: RawValue, key: &str, value: &str) -> FeatureRecord {
    let mut properties = serde_json::Map::new();
    properties.insert(key.to_string(), serde_json::Value::String(value.to_string()));
    FeatureRecord {
        bbox: None,
        geometry: Some(geometry),
        id: None,
        properties: Some(properties),
        foreign_members: None,
    }
}

fn aabb_of(b: geojson_rstar::bbox::Bbox) -> AABB<[f64; 2]> {
    AABB::from_corners(
        [f64::from_bits(b.min_x), f64::from_bits(b.min_y)],
        [f64::from_bits(b.max_x), f64::from_bits(b.max_y)],
    )
}

fn geo_line_of(l: &[Vec<u64>]) -> geo::LineString<f64> {
    geo::LineString(
        l.iter()
            .map(|p| geo::Coordinate { x: f64::from_bits(p[0]), y: f64::from_bits(p[1]) })
            .collect(),
    )
}

struct IndexedPoint(PointFeature);

impl RTreeObject for IndexedPoint {
    type Envelope = AABB<[f64; 2]>;

    fn envelope(&self) -> Self::Envelope {
        aabb_of(self.0.envelope())
    }
}

impl PointDistance for IndexedPoint {
    fn distance_2(&self, point: &[f64; 2]) -> f64 {
        let p = self.0.point();
        let dx = f64::from_bits(p[0]) - point[0];
        let dy = f64::from_bits(p[1]) - point[1];
        dx * dx + dy * dy
    }
}

struct IndexedLine(LineStringFeature);

impl RTreeObject for IndexedLine {
    type Envelope = AABB<[f64; 2]>;

    fn envelope(&self) -> Self::Envelope {
        aabb_of(self.0.envelope())
    }
}

impl PointDistance for IndexedLine {
    fn distance_2(&self, point: &[f64; 2]) -> f64 {
        let line = geo_line_of(self.0.line());
        let query = geo::Point::new(point[0], point[1]);
        match line.closest_point(&query) {
            Closest::Intersection(_) => 0.0,
            Closest::SinglePoint(p) => query.haversine_distance(&p),
            Closest::Indeterminate => panic!("unexpected indeterminate closest point"),
        }
    }
}

struct IndexedPolygon(PolygonFeature);

impl RTreeObject for IndexedPolygon {
    type Envelope = AABB<[f64; 2]>;

    fn envelope(&self) -> Self::Envelope {
        aabb_of(self.0.envelope())
    }
}

impl PointDistance for IndexedPolygon {
    fn distance_2(&self, point: &[f64; 2]) -> f64 {
        let rings = self.0.polygon();
        let exterior = geo_line_of(&rings[0]);
        let interiors: Vec<geo::LineString<f64>> =
            rings.iter().skip(1).map(|r| geo_line_of(r)).collect();
        let polygon = geo::Polygon::new(exterior, interiors);
        let query = geo::Point::new(point[0], point[1]);
        polygon.euclidean_distance(&query).powi(2)
    }
}

#[test]
fn test_point_feature_test_nearest_neighbor() {
    let a = record(
        RawValue::Point(pos(-96.096365834999972, 46.287388581000073)),
        "IPEDSID",
        "173559",
    );
    let b = record(
        RawValue::Point(pos(-95.561709067999971, 44.807550251000066)),
        "IPEDSID",
        "173638",
    );
    let features: Vec<IndexedPoint> = [a, b]
        .into_iter()
        .map(|r| IndexedPoint(PointFeature::try_from(r).expect("conversion succeeds")))
        .collect();
    let tree = RTree::bulk_load(features);

    let search_point = [-96.47266062208995, 48.465130924829914];
    let nearest = tree
        .nearest_neighbor(&search_point)
        .expect("There is a nearest point in the RTree");
    assert_eq!(
        nearest.0.properties.as_ref().unwrap().get("IPEDSID"),
        Some(serde_json::Value::String("173559".to_string())).as_ref()
    );
}

#[test]
fn test_linestring_feature_test_nearest_neighbor() {
    let a = record(
        RawValue::LineString(vec![
            pos(452561.818099999800324, 4932439.987099999562),
            pos(452352.024799999780953, 4932443.138499999419),
            pos(451913.179999999701977, 4932449.5327),
        ]),
        "STREETALL",
        "280TH ST W",
    );
    let b = record(
        RawValue::LineString(vec![
            pos(451135.8903, 4964392.923699999228),
            pos(451127.961400000378489, 4964405.121899999678),
            pos(451122.472199999727309, 4964415.185399999842),
            pos(451105.307500000111759, 4964448.53559999913),
            pos(451088.340300000272691, 4964473.8761),
            pos(451056.694199999794364, 4964519.031199999154),
            pos(451029.605399999767542, 4964551.5645),
            pos(450988.458999999798834, 4964590.5532),
            pos(450911.251899999566376, 4964658.255),
            pos(450869.971699999645352, 4964689.215099999681),
            pos(450830.067599999718368, 4964707.103199999779),
        ]),
        "STREETALL",
        "BAVARIA RD",
    );
    let features: Vec<IndexedLine> = [a, b]
        .into_iter()
        .map(|r| IndexedLine(LineStringFeature::try_from(r).expect("conversion succeeds")))
        .collect();
    let tree = RTree::bulk_load(features);

    let search_point = [452561.8180999798, 4932439.98709969];
    let nearest = tree
        .nearest_neighbor(&search_point)
        .expect("There is a nearest neighbor");
    assert_eq!(
        nearest.0.properties.as_ref().unwrap().get("STREETALL"),
        Some(&serde_json::Value::String("280TH ST W".to_string())),
        "The closest linestring is correctly found"
    );
}

#[test]
fn test_polygon_feature_test_nearest_neighbor() {
    let a = record(
        RawValue::Polygon(vec![vec![
            pos(-123.436394, 46.238197),
            pos(-123.728316, 46.264541),
            pos(-123.726557, 46.384872),
            pos(-123.21795, 46.385617),
            pos(-123.436394, 46.238197),
        ]]),
        "STATEFP",
        "53",
    );
    let b = record(
        RawValue::Polygon(vec![vec![
            pos(-85.087602, 44.07366),
            pos(-84.608104, 44.160482),
            pos(-84.606037, 43.815365),
            pos(-85.088811, 43.813676),
            pos(-85.087602, 44.07366),
        ]]),
        "STATEFP",
        "26",
    );
    let features: Vec<IndexedPolygon> = [a, b]
        .into_iter()
        .map(|r| IndexedPolygon(PolygonFeature::try_from(r).expect("conversion succeeds")))
        .collect();
    let tree = RTree::bulk_load(features);

    let search_point = [-118.0, 34.0];
    let nearest = tree
        .nearest_neighbor(&search_point)
        .expect("There is a nearest polygon");
    assert_eq!(
        nearest.0.properties.as_ref().unwrap().get("STATEFP"),
        Some(&serde_json::Value::String("53".to_string()))
    );
}
