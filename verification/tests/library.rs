use eproj::{Error, Projector, SpatialReferenceIdentifier};
use geodesy::coord::Coor4D;

const EPS_RAD: f64 = 1e-9;
const EPS_M: f64 = 1e-6;

#[test]
fn srs_strings() {
    assert_eq!(SpatialReferenceIdentifier::Epsg4326.as_str(), "EPSG:4326");
    assert_eq!(SpatialReferenceIdentifier::Epsg4978.as_str(), "EPSG:4978");
    assert_eq!(SpatialReferenceIdentifier::Epsg4979.as_str(), "EPSG:4979");
    assert_eq!(SpatialReferenceIdentifier::Epsg25832.as_str(), "EPSG:25832");
}

#[test]
fn srs_epsg_codes() {
    assert_eq!(SpatialReferenceIdentifier::Epsg4326.epsg_code(), 4326);
    assert_eq!(SpatialReferenceIdentifier::Epsg4978.epsg_code(), 4978);
    assert_eq!(SpatialReferenceIdentifier::Epsg4979.epsg_code(), 4979);
    assert_eq!(SpatialReferenceIdentifier::Epsg25832.epsg_code(), 25832);
}

#[test]
fn from_epsg_code_supported() {
    assert_eq!(
        SpatialReferenceIdentifier::from_epsg_code(4326).unwrap(),
        SpatialReferenceIdentifier::Epsg4326
    );
    assert_eq!(
        SpatialReferenceIdentifier::from_epsg_code(4978).unwrap(),
        SpatialReferenceIdentifier::Epsg4978
    );
    assert_eq!(
        SpatialReferenceIdentifier::from_epsg_code(4979).unwrap(),
        SpatialReferenceIdentifier::Epsg4979
    );
    assert_eq!(
        SpatialReferenceIdentifier::from_epsg_code(25832).unwrap(),
        SpatialReferenceIdentifier::Epsg25832
    );
}

#[test]
fn from_epsg_code_unknown() {
    assert!(matches!(
        SpatialReferenceIdentifier::from_epsg_code(9999),
        Err(Error::UnknownEpsgCodeError)
    ));
    assert!(matches!(
        SpatialReferenceIdentifier::from_epsg_code(0),
        Err(Error::UnknownEpsgCodeError)
    ));
}

#[test]
fn transform_definitions() {
    let utm = SpatialReferenceIdentifier::Epsg25832;
    let geographic2d = SpatialReferenceIdentifier::Epsg4326;
    let geocentric = SpatialReferenceIdentifier::Epsg4978;
    let geographic3d = SpatialReferenceIdentifier::Epsg4979;
    assert_eq!(Projector::transform_definition(utm, geographic3d), "inv utm zone=32");
    assert_eq!(Projector::transform_definition(geographic3d, utm), "utm zone=32");
    assert_eq!(Projector::transform_definition(utm, geocentric), "inv utm zone=32 | cart");
    assert_eq!(Projector::transform_definition(geocentric, geographic3d), "inv cart");
    assert_eq!(Projector::transform_definition(geographic3d, geographic3d), "noop");
    assert_eq!(Projector::transform_definition(geographic2d, geographic3d), "noop");
}

#[test]
fn projector_binds_pair() {
    let projector = Projector::new(
        SpatialReferenceIdentifier::Epsg25832,
        SpatialReferenceIdentifier::Epsg4979,
    )
    .unwrap();
    assert_eq!(projector.source(), SpatialReferenceIdentifier::Epsg25832);
    assert_eq!(projector.target(), SpatialReferenceIdentifier::Epsg4979);
}

#[test]
fn it_works() {
    let projection = Projector::new(
        SpatialReferenceIdentifier::Epsg25832,
        SpatialReferenceIdentifier::Epsg4978,
    )
    .unwrap();

    let _result = projection
        .convert_coord(Coor4D::raw(691045.828, 5336014.506, 534.671, 0.0))
        .unwrap();
}

#[test]
fn test_projection_point() {
    let projection = Projector::new(
        SpatialReferenceIdentifier::Epsg4978,
        SpatialReferenceIdentifier::Epsg4979,
    )
    .unwrap();

    let result = projection
        .convert_coord(Coor4D::raw(
            4177139.6424619956,
            855008.837066541,
            4728267.313036945,
            0.0,
        ))
        .unwrap();
    assert!(result.0[0].is_finite() && result.0[1].is_finite() && result.0[2].is_finite());
}

#[test]
fn test_projection_points() {
    let projection = Projector::new(
        SpatialReferenceIdentifier::Epsg4978,
        SpatialReferenceIdentifier::Epsg4979,
    )
    .unwrap();

    let points = vec![
        Coor4D::raw(4177139.6424619956, 855008.837066541, 4728267.313036945, 0.0),
        Coor4D::raw(4177139.6424619956, 855008.837066541, 4728267.313036945, 0.0),
    ];

    let result = projection.convert_coords(points).unwrap();
    assert_eq!(result.len(), 2);
    // Equal inputs within one batch map to equal outputs.
    assert_eq!(result[0].0, result[1].0);
}

#[test]
fn scenario_utm_to_geographic_bounds() {
    let projection = Projector::new(
        SpatialReferenceIdentifier::Epsg25832,
        SpatialReferenceIdentifier::Epsg4979,
    )
    .unwrap();

    let result = projection
        .convert_coord(Coor4D::raw(691045.828, 5336014.506, 534.671, 0.0))
        .unwrap();

    let lon_deg = result.0[0].to_degrees();
    let lat_deg = result.0[1].to_degrees();
    let height = result.0[2];

    assert!((-180.0..=180.0).contains(&lon_deg));
    assert!((-90.0..=90.0).contains(&lat_deg));
    // The input is a point near Munich: longitude about 11.6 E, latitude
    // about 48.1 N, and a height of the same order as the input.
    assert!((11.0..12.0).contains(&lon_deg));
    assert!((47.8..48.5).contains(&lat_deg));
    assert!((100.0..1000.0).contains(&height));
    assert!((height - 534.671).abs() < 1e-6);
}

#[test]
fn same_srs_returns_input_unchanged() {
    let projection = Projector::new(
        SpatialReferenceIdentifier::Epsg4979,
        SpatialReferenceIdentifier::Epsg4979,
    )
    .unwrap();

    let input = Coor4D::raw(0.2007, 0.8405, 534.671, 0.0);
    let result = projection.convert_coord(input).unwrap();
    assert_eq!(result.0[0], input.0[0]);
    assert_eq!(result.0[1], input.0[1]);
    assert_eq!(result.0[2], input.0[2]);
}

#[test]
fn round_trip_within_epsilon() {
    let forward = Projector::new(
        SpatialReferenceIdentifier::Epsg25832,
        SpatialReferenceIdentifier::Epsg4979,
    )
    .unwrap();
    let back = Projector::new(
        SpatialReferenceIdentifier::Epsg4979,
        SpatialReferenceIdentifier::Epsg25832,
    )
    .unwrap();

    let input = Coor4D::raw(691045.828, 5336014.506, 534.671, 0.0);
    let there = forward.convert_coord(input).unwrap();
    let back_again = back.convert_coord(there).unwrap();

    assert!((back_again.0[0] - input.0[0]).abs() < EPS_M);
    assert!((back_again.0[1] - input.0[1]).abs() < EPS_M);
    assert!((back_again.0[2] - input.0[2]).abs() < EPS_M);
}

#[test]
fn batch_equals_scalar_elementwise() {
    let projection = Projector::new(
        SpatialReferenceIdentifier::Epsg4979,
        SpatialReferenceIdentifier::Epsg25832,
    )
    .unwrap();

    let p1 = Coor4D::raw(0.2007, 0.8405, 534.671, 0.0);
    let p2 = Coor4D::raw(0.1745, 0.8290, 100.0, 0.0);

    let batch = projection.convert_coords(vec![p1, p2]).unwrap();
    let s1 = projection.convert_coord(p1).unwrap();
    let s2 = projection.convert_coord(p2).unwrap();

    assert_eq!(batch.len(), 2);
    for k in 0..3 {
        assert!((batch[0].0[k] - s1.0[k]).abs() < EPS_RAD);
        assert!((batch[1].0[k] - s2.0[k]).abs() < EPS_RAD);
    }
    // The two inputs differ, so order preservation is observable.
    assert!((batch[0].0[0] - batch[1].0[0]).abs() > 1.0);
}

#[test]
fn empty_batch_succeeds() {
    let projection = Projector::new(
        SpatialReferenceIdentifier::Epsg4979,
        SpatialReferenceIdentifier::Epsg4978,
    )
    .unwrap();

    let result = projection.convert_coords(Vec::new()).unwrap();
    assert!(result.is_empty());
}

#[test]
fn conversion_failure_is_reported() {
    let projection = Projector::new(
        SpatialReferenceIdentifier::Epsg4979,
        SpatialReferenceIdentifier::Epsg4978,
    )
    .unwrap();

    let result = projection.convert_coord(Coor4D::nan());
    assert!(matches!(result, Err(Error::ConversionError)));
}

#[test]
fn batch_fails_atomically() {
    let projection = Projector::new(
        SpatialReferenceIdentifier::Epsg4979,
        SpatialReferenceIdentifier::Epsg4978,
    )
    .unwrap();

    let good = Coor4D::raw(0.2007, 0.8405, 534.671, 0.0);
    let result = projection.convert_coords(vec![good, Coor4D::nan()]);
    assert!(matches!(result, Err(Error::ConversionError)));
}
