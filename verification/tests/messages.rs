use std::num::ParseFloatError;

use geo_uri::{
    Binary64, CoordRefSystem, Error, GeoUri, GeoUriBuilder, GeoUriBuilderError,
};

fn num(value: f64) -> Binary64 {
    Binary64::from_bits(value.to_bits())
}

fn float(number: Binary64) -> f64 {
    f64::from_bits(number.to_bits())
}

fn failure(text: &str) -> ParseFloatError {
    text.parse::<f64>().expect_err("no number")
}

#[test]
fn every_error_has_its_message() {
    assert_eq!(
        Error::InvalidCoord(failure("x")).message(),
        "Invalid coordinate in geo URI: invalid float literal"
    );
    assert_eq!(
        Error::InvalidCoord(failure("")).message(),
        "Invalid coordinate in geo URI: cannot parse float from empty string"
    );
    assert_eq!(
        Error::InvalidCoordRefSystem.message(),
        "Invalid coordinate reference system"
    );
    assert_eq!(
        Error::InvalidUncertainty(failure("x")).message(),
        "Invalid distance in geo URI: invalid float literal"
    );
    assert_eq!(
        Error::InvalidUncertainty(failure("")).message(),
        "Invalid distance in geo URI: cannot parse float from empty string"
    );
    assert_eq!(Error::MissingCoords.message(), "Missing coordinates in geo URI");
    assert_eq!(
        Error::MissingLatitude.message(),
        "Missing latitude coordinate in geo URI"
    );
    assert_eq!(
        Error::MissingLongitude.message(),
        "Missing longitude coordinate in geo URI"
    );
    assert_eq!(Error::MissingScheme.message(), "Missing geo URI scheme");
    assert_eq!(
        Error::OutOfRangeLatitude.message(),
        "Latitude coordinate is out of range"
    );
    assert_eq!(
        Error::OutOfRangeLongitude.message(),
        "Longitude coordinate is out of range"
    );
    assert_eq!(
        Error::OutOfRangeUncertainty.message(),
        "Uncertainty distance not positive"
    );
}

#[test]
fn the_message_carries_the_words_of_the_failure() {
    for text in ["", "x", "1,2", "--1", "1e"] {
        let words = failure(text).to_string();
        assert_eq!(
            Error::InvalidCoord(failure(text)).message(),
            format!("Invalid coordinate in geo URI: {words}")
        );
        assert_eq!(
            Error::InvalidUncertainty(failure(text)).message(),
            format!("Invalid distance in geo URI: {words}")
        );
    }
}

#[test]
fn errors_are_equal_when_they_say_the_same() {
    assert_eq!(Error::InvalidCoord(failure("x")), Error::InvalidCoord(failure("y")));
    assert_ne!(Error::InvalidCoord(failure("x")), Error::InvalidCoord(failure("")));
    assert_ne!(
        Error::InvalidCoord(failure("x")),
        Error::InvalidUncertainty(failure("x"))
    );
    assert_ne!(Error::OutOfRangeLatitude, Error::OutOfRangeLongitude);
}

#[test]
fn a_builder_without_latitude_builds_nothing() {
    let result = GeoUri::builder().longitude(num(5.134)).build();
    match result {
        Err(GeoUriBuilderError::UninitializedField(name)) => assert_eq!(name, "latitude"),
        other => panic!("built {other:?}"),
    }
    let error = GeoUri::builder().longitude(num(5.134)).build().unwrap_err();
    assert_eq!(error.message(), "`latitude` must be initialized");
}

#[test]
fn a_builder_names_the_first_field_it_misses() {
    let error = GeoUri::builder().build().unwrap_err();
    assert!(matches!(error, GeoUriBuilderError::UninitializedField("latitude")));
    assert_eq!(error.message(), "`latitude` must be initialized");

    let error = GeoUri::builder().latitude(num(1.0)).build().unwrap_err();
    assert!(matches!(error, GeoUriBuilderError::UninitializedField("longitude")));
    assert_eq!(error.message(), "`longitude` must be initialized");

    let error = GeoUri::builder()
        .crs(CoordRefSystem::Wgs84)
        .altitude(num(1.0))
        .uncertainty(num(1.0))
        .build()
        .unwrap_err();
    assert!(matches!(error, GeoUriBuilderError::UninitializedField("latitude")));
}

#[test]
fn a_builder_looks_for_its_fields_before_it_validates() {
    let mut builder = GeoUri::builder();
    builder.latitude(num(100.0));
    assert_eq!(
        builder.validate(),
        Err(String::from("Latitude coordinate is out of range"))
    );
    assert!(matches!(
        builder.build(),
        Err(GeoUriBuilderError::UninitializedField("longitude"))
    ));

    let mut builder = GeoUri::builder();
    builder.longitude(num(200.0)).uncertainty(num(-1.0));
    assert_eq!(
        builder.validate(),
        Err(String::from("Longitude coordinate is out of range"))
    );
    assert!(matches!(
        builder.build(),
        Err(GeoUriBuilderError::UninitializedField("latitude"))
    ));
}

#[test]
fn a_builder_reports_the_first_rule_that_is_broken() {
    let mut builder = GeoUri::builder();
    builder
        .latitude(num(100.0))
        .longitude(num(200.0))
        .uncertainty(num(-1.0));
    let error = builder.build().unwrap_err();
    assert!(matches!(error, GeoUriBuilderError::ValidationError(_)));
    assert_eq!(error.message(), "Latitude coordinate is out of range");

    builder.latitude(num(-90.0));
    let error = builder.build().unwrap_err();
    assert_eq!(error.message(), "Longitude coordinate is out of range");
    assert_eq!(
        builder.validate(),
        Err(String::from("Longitude coordinate is out of range"))
    );

    builder.longitude(num(180.0));
    let error = builder.build().unwrap_err();
    assert_eq!(error.message(), "Uncertainty distance not positive");

    builder.uncertainty(num(0.0));
    assert_eq!(builder.validate(), Ok(()));
    let geo_uri = builder.build().expect("valid fields");
    assert_eq!(float(geo_uri.latitude()), -90.0);
    assert_eq!(float(geo_uri.longitude()), 180.0);
    assert_eq!(geo_uri.uncertainty().map(float), Some(0.0));
}

#[test]
fn a_builder_validates_what_is_not_set_as_zero() {
    assert_eq!(GeoUri::builder().validate(), Ok(()));
    assert_eq!(GeoUri::builder().latitude(num(90.0)).validate(), Ok(()));
    assert_eq!(GeoUri::builder().longitude(num(-180.0)).validate(), Ok(()));
    assert_eq!(
        GeoUri::builder().uncertainty(num(-1.0)).validate(),
        Err(String::from("Uncertainty distance not positive"))
    );
    assert_eq!(
        GeoUri::builder().latitude(num(f64::NAN)).validate(),
        Err(String::from("Latitude coordinate is out of range"))
    );
}

#[test]
fn a_builder_builds_what_was_set() {
    let geo_uri = GeoUri::builder()
        .crs(CoordRefSystem::Wgs84)
        .latitude(num(52.107))
        .longitude(num(5.134))
        .altitude(num(3.6))
        .uncertainty(num(1000.0))
        .build()
        .expect("valid fields");
    assert_eq!(geo_uri.crs(), CoordRefSystem::Wgs84);
    assert_eq!(float(geo_uri.latitude()), 52.107);
    assert_eq!(float(geo_uri.longitude()), 5.134);
    assert_eq!(geo_uri.altitude().map(float), Some(3.6));
    assert_eq!(geo_uri.uncertainty().map(float), Some(1000.0));

    let geo_uri = GeoUri::builder()
        .latitude(num(1.0))
        .longitude(num(2.0))
        .latitude(num(3.0))
        .build()
        .expect("valid fields");
    assert_eq!(float(geo_uri.latitude()), 3.0);
    assert_eq!(float(geo_uri.longitude()), 2.0);
    assert_eq!(geo_uri.altitude(), None);
    assert_eq!(geo_uri.uncertainty(), None);
}

#[test]
fn a_new_builder_has_nothing_set() {
    let builder = GeoUri::builder();
    assert_eq!(builder.crs, None);
    assert_eq!(builder.latitude, None);
    assert_eq!(builder.longitude, None);
    assert_eq!(builder.altitude, None);
    assert_eq!(builder.uncertainty, None);
    let default = GeoUriBuilder::default();
    assert_eq!(default.latitude, None);
    assert_eq!(default.uncertainty, None);

    let mut builder = GeoUri::builder();
    builder.altitude(num(1.0));
    assert_eq!(builder.altitude, Some(num(1.0)));
    assert_eq!(builder.latitude, None);
    let copy = builder;
    builder.latitude(num(2.0));
    assert_eq!(copy.latitude, None);
    assert_eq!(builder.latitude, Some(num(2.0)));
}

#[test]
fn the_default_is_the_origin() {
    let geo_uri = GeoUri::default();
    assert_eq!(geo_uri.crs(), CoordRefSystem::Wgs84);
    assert_eq!(geo_uri.latitude().to_bits(), 0);
    assert_eq!(geo_uri.longitude().to_bits(), 0);
    assert_eq!(geo_uri.altitude(), None);
    assert_eq!(geo_uri.uncertainty(), None);
    assert_eq!(CoordRefSystem::default(), CoordRefSystem::Wgs84);
}

#[test]
fn validation_looks_at_the_latitude_first() {
    let crs = CoordRefSystem::Wgs84;
    assert_eq!(
        crs.validate(num(100.0), num(200.0)),
        Err(Error::OutOfRangeLatitude)
    );
    assert_eq!(
        crs.validate(num(f64::NAN), num(f64::NAN)),
        Err(Error::OutOfRangeLatitude)
    );
    assert_eq!(
        crs.validate(num(90.0), num(200.0)),
        Err(Error::OutOfRangeLongitude)
    );
    assert_eq!(crs.validate(num(90.0), num(180.0)), Ok(()));
    assert_eq!(crs.validate(num(-90.0), num(-180.0)), Ok(()));
    assert_eq!(
        GeoUri::validate(crs, num(100.0), num(200.0), Some(num(-1.0))),
        Err(Error::OutOfRangeLatitude)
    );
    assert_eq!(
        GeoUri::validate(crs, num(1.0), num(200.0), Some(num(-1.0))),
        Err(Error::OutOfRangeLongitude)
    );
    assert_eq!(
        GeoUri::validate(crs, num(1.0), num(2.0), Some(num(-1.0))),
        Err(Error::OutOfRangeUncertainty)
    );
    assert_eq!(GeoUri::validate(crs, num(1.0), num(2.0), Some(num(0.0))), Ok(()));
}

#[test]
fn setting_the_altitude_always_succeeds() {
    let mut geo_uri = GeoUri::default();
    for altitude in [Some(3.6), Some(-1e300), Some(f64::INFINITY), None, Some(0.0)] {
        geo_uri.set_altitude(altitude.map(num));
        assert_eq!(
            geo_uri.altitude().map(Binary64::to_bits),
            altitude.map(f64::to_bits)
        );
    }
    geo_uri.set_altitude(Some(num(f64::NAN)));
    assert!(geo_uri.altitude().expect("an altitude").is_nan());
    assert_eq!(geo_uri.latitude().to_bits(), 0);
}
