use geo_uri::{Binary64, CoordRefSystem, Error, GeoUri, Reading};

fn num(value: f64) -> Binary64 {
    Binary64::from_bits(value.to_bits())
}

fn float(number: Binary64) -> f64 {
    f64::from_bits(number.to_bits())
}

fn read(text: &String) -> Reading {
    text.parse::<f64>().map(num)
}

fn write(number: Binary64) -> String {
    float(number).to_string()
}

fn parse(uri: &str) -> Result<GeoUri, Error> {
    GeoUri::parse(uri, read)
}

fn located(
    latitude: f64,
    longitude: f64,
    altitude: Option<f64>,
    uncertainty: Option<f64>,
) -> GeoUri {
    let mut builder = GeoUri::builder();
    builder.latitude(num(latitude)).longitude(num(longitude));
    if let Some(altitude) = altitude {
        builder.altitude(num(altitude));
    }
    if let Some(uncertainty) = uncertainty {
        builder.uncertainty(num(uncertainty));
    }
    builder.build().expect("valid fields")
}

/// The fields of a geo URI, bit by bit.
fn bits(geo_uri: &GeoUri) -> (CoordRefSystem, u64, u64, Option<u64>, Option<u64>) {
    (
        geo_uri.crs(),
        geo_uri.latitude().to_bits(),
        geo_uri.longitude().to_bits(),
        geo_uri.altitude().map(Binary64::to_bits),
        geo_uri.uncertainty().map(Binary64::to_bits),
    )
}

const LATITUDES: [f64; 12] = [
    0.0,
    -0.0,
    5e-324,
    0.1,
    13.4125,
    45.0,
    48.201,
    -52.107,
    66.0,
    89.99999999999999,
    90.0,
    -90.0,
];

const LONGITUDES: [f64; 10] = [
    0.0,
    -0.0,
    5.134,
    -22.43,
    46.0,
    103.8667,
    -118.44,
    179.99999999999997,
    180.0,
    -180.0,
];

#[test]
fn parsing_the_canonical_text_gives_the_value_back() {
    for latitude in LATITUDES {
        for longitude in LONGITUDES {
            let geo_uri = located(latitude, longitude, None, None);
            let parsed = parse(&geo_uri.format(write)).expect("parsable geo URI");
            assert_eq!(parsed, geo_uri);
            assert_eq!(bits(&parsed), bits(&geo_uri));
        }
    }
}

#[test]
fn parsing_gives_altitude_and_uncertainty_back_too() {
    let altitudes = [None, Some(0.0), Some(-0.0), Some(3.6), Some(-11000.5), Some(1e300), Some(f64::INFINITY)];
    let uncertainties = [None, Some(0.0), Some(-0.0), Some(6.5), Some(1000.0), Some(f64::INFINITY)];
    for altitude in altitudes {
        for uncertainty in uncertainties {
            let geo_uri = located(52.107, 5.134, altitude, uncertainty);
            let parsed = parse(&geo_uri.format(write)).expect("parsable geo URI");
            assert_eq!(parsed, geo_uri);
            assert_eq!(bits(&parsed), bits(&geo_uri));
        }
    }
}

#[test]
fn writing_what_was_parsed_gives_the_text_back() {
    for latitude in LATITUDES {
        for longitude in LONGITUDES {
            for (altitude, uncertainty) in [(None, None), (Some(3.6), None), (None, Some(40.0)), (Some(183.0), Some(25_000.0))] {
                let text = located(latitude, longitude, altitude, uncertainty).format(write);
                let again = parse(&text).expect("parsable geo URI").format(write);
                assert_eq!(again, text);
            }
        }
    }
}

#[test]
fn parsing_settles_on_the_canonical_text() {
    for (uri, canonical) in [
        ("geo:52.107,5.134", "geo:52.107,5.134"),
        ("GEO:052.1070,+5.134e0", "geo:52.107,5.134"),
        ("geo:22.300,-118.4400", "geo:22.3,-118.44"),
        ("geo:66.0,30;u=6.500;FOo=this%2dthat", "geo:66,30;u=6.5"),
        ("geo:48.2010,16.3695,183", "geo:48.201,16.3695,183"),
        ("geo:48.198634,16.371648;crs=wgs84;u=40", "geo:48.198634,16.371648;u=40"),
        ("geo:1,2,3;crs=WGS84;u=1000.0;foo=bar", "geo:1,2,3;u=1000"),
        ("geo:-0,0,-0;u=-0", "geo:-0,0,-0;u=-0"),
        ("geo:1e1,1e2,1e3;u=1e4", "geo:10,100,1000;u=10000"),
    ] {
        let text = parse(uri).expect("parsable geo URI").format(write);
        assert_eq!(text, canonical);
        assert_eq!(parse(&text).expect("parsable geo URI").format(write), canonical);
    }
}

#[test]
fn the_canonical_text_joins_the_texts_of_the_numbers() {
    assert_eq!(GeoUri::canonical("1", "2", None, None), "geo:1,2");
    assert_eq!(GeoUri::canonical("1", "2", Some("3"), None), "geo:1,2,3");
    assert_eq!(GeoUri::canonical("1", "2", None, Some("4")), "geo:1,2;u=4");
    assert_eq!(GeoUri::canonical("1", "2", Some("3"), Some("4")), "geo:1,2,3;u=4");
    assert_eq!(GeoUri::canonical("", "", Some(""), Some("")), "geo:,,;u=");
    assert_eq!(
        GeoUri::canonical("52.107", "5.134", Some("3.6"), Some("25000")),
        "geo:52.107,5.134,3.6;u=25000"
    );
}

#[test]
fn format_asks_the_writer_for_each_number() {
    let geo_uri = located(52.107, 5.134, Some(3.6), Some(1000.0));
    assert_eq!(geo_uri.format(write), "geo:52.107,5.134,3.6;u=1000");
    let hex = |number: Binary64| format!("{:x}", number.to_bits());
    assert_eq!(
        geo_uri.format(hex),
        "geo:404a0db22d0e5604,401489374bc6a7f0,400ccccccccccccd;u=408f400000000000"
    );
    let plain = located(1.0, 2.0, None, None);
    assert_eq!(plain.format(|_| String::from("n")), "geo:n,n");
    let high = located(1.0, 2.0, Some(3.0), None);
    assert_eq!(high.format(write), "geo:1,2,3");
    let wide = located(1.0, 2.0, None, Some(3.0));
    assert_eq!(wide.format(write), "geo:1,2;u=3");
}

#[test]
fn the_system_is_never_written() {
    let geo_uri = parse("geo:1,2;crs=wgs84").expect("parsable geo URI");
    assert_eq!(geo_uri.crs(), CoordRefSystem::Wgs84);
    assert_eq!(geo_uri.format(write), "geo:1,2");
}

#[test]
fn longitude_is_ignored_at_the_poles() {
    let first = parse("geo:90,-22.43;crs=wgs84").expect("parsable geo URI");
    let second = parse("geo:90,46").expect("parsable geo URI");
    assert_eq!(first, second);
    assert_eq!(second, first);
    assert_ne!(bits(&first), bits(&second));

    let first = parse("geo:-90,0").expect("parsable geo URI");
    let second = parse("geo:-90.0,180").expect("parsable geo URI");
    assert_eq!(first, second);

    // The poles are not each other.
    assert_ne!(
        parse("geo:90,0").expect("parsable geo URI"),
        parse("geo:-90,0").expect("parsable geo URI")
    );
    // Altitude and uncertainty still count there.
    assert_ne!(located(90.0, 1.0, Some(1.0), None), located(90.0, 2.0, Some(2.0), None));
    assert_ne!(located(90.0, 1.0, None, Some(1.0)), located(90.0, 2.0, None, None));
    assert_eq!(located(90.0, 1.0, Some(5.0), Some(1.0)), located(90.0, 2.0, Some(5.0), Some(1.0)));
}

#[test]
fn longitude_counts_away_from_the_poles() {
    for longitude in LONGITUDES {
        for other in LONGITUDES {
            let equal = located(45.0, longitude, None, None) == located(45.0, other, None, None);
            assert_eq!(equal, longitude == other, "{longitude:?} and {other:?}");
        }
    }
    assert_ne!(located(45.0, 1.0, None, None), located(45.0, 2.0, None, None));
    assert_ne!(
        located(89.99999999999999, 1.0, None, None),
        located(89.99999999999999, 2.0, None, None)
    );
    assert_ne!(
        parse("geo:45,-22.43;crs=wgs84").expect("parsable geo URI"),
        parse("geo:45,46").expect("parsable geo URI")
    );
}

#[test]
fn equality_is_the_equality_of_numbers() {
    assert_eq!(located(0.0, -0.0, Some(0.0), Some(-0.0)), located(-0.0, 0.0, Some(-0.0), Some(0.0)));
    assert_ne!(located(1.0, 2.0, None, None), located(1.0000000000000002, 2.0, None, None));
    assert_ne!(located(1.0, 2.0, Some(3.0), None), located(1.0, 2.0, None, None));
    assert_ne!(located(1.0, 2.0, None, Some(3.0)), located(1.0, 2.0, None, Some(4.0)));
    // What is no number equals nothing, so such an altitude equals no other.
    let nowhere = located(1.0, 2.0, Some(f64::NAN), None);
    assert_ne!(nowhere, nowhere);
    let unsure = located(1.0, 2.0, None, Some(f64::NAN));
    assert_ne!(unsure, unsure.clone());
}

#[test]
fn every_way_to_make_a_value_holds_it_to_the_ranges() {
    let made = [
        parse("geo:90,-180,1;u=0"),
        parse("geo:-90,180"),
        GeoUri::try_from((num(-90.0), num(180.0))),
        GeoUri::try_from((num(90.0), num(-180.0), num(1e300))),
        GeoUri::builder()
            .latitude(num(89.0))
            .longitude(num(179.0))
            .build()
            .map_err(|_| Error::OutOfRangeLatitude),
        Ok(GeoUri::default()),
    ];
    for geo_uri in made {
        let geo_uri = geo_uri.expect("valid fields");
        let latitude = float(geo_uri.latitude());
        let longitude = float(geo_uri.longitude());
        assert!((-90.0..=90.0).contains(&latitude));
        assert!((-180.0..=180.0).contains(&longitude));
    }
    for wrong in [90.00000000000001, -90.00000000000001, 1e10, f64::INFINITY, f64::NAN] {
        assert_eq!(
            GeoUri::try_from((num(wrong), num(0.0))),
            Err(Error::OutOfRangeLatitude)
        );
        assert_eq!(
            GeoUri::try_from((num(wrong), num(0.0), num(0.0))),
            Err(Error::OutOfRangeLatitude)
        );
        assert!(GeoUri::builder().latitude(num(wrong)).longitude(num(0.0)).build().is_err());
        let mut geo_uri = GeoUri::default();
        assert_eq!(geo_uri.set_latitude(num(wrong)), Err(Error::OutOfRangeLatitude));
        assert_eq!(bits(&geo_uri), bits(&GeoUri::default()));
    }
    for wrong in [180.00000000000003, -180.00000000000003, 1e10, f64::NEG_INFINITY, f64::NAN] {
        assert_eq!(
            GeoUri::try_from((num(0.0), num(wrong))),
            Err(Error::OutOfRangeLongitude)
        );
        assert_eq!(
            GeoUri::try_from((num(0.0), num(wrong), num(0.0))),
            Err(Error::OutOfRangeLongitude)
        );
        assert!(GeoUri::builder().latitude(num(0.0)).longitude(num(wrong)).build().is_err());
        let mut geo_uri = GeoUri::default();
        assert_eq!(geo_uri.set_longitude(num(wrong)), Err(Error::OutOfRangeLongitude));
        assert_eq!(bits(&geo_uri), bits(&GeoUri::default()));
    }
}

#[test]
fn a_value_out_of_range_is_refused_and_not_clamped() {
    assert_eq!(parse("geo:90.5,0"), Err(Error::OutOfRangeLatitude));
    assert_eq!(parse("geo:0,-180.5"), Err(Error::OutOfRangeLongitude));
    let mut geo_uri = located(89.0, 179.0, None, None);
    assert_eq!(geo_uri.set_latitude(num(91.0)), Err(Error::OutOfRangeLatitude));
    assert_eq!(float(geo_uri.latitude()), 89.0);
    assert_eq!(geo_uri.set_longitude(num(181.0)), Err(Error::OutOfRangeLongitude));
    assert_eq!(float(geo_uri.longitude()), 179.0);
    assert_eq!(geo_uri.set_latitude(num(90.0)), Ok(()));
    assert_eq!(geo_uri.set_longitude(num(-180.0)), Ok(()));
    assert_eq!(float(geo_uri.latitude()), 90.0);
    assert_eq!(float(geo_uri.longitude()), -180.0);
}

#[test]
fn negative_uncertainty_is_always_rejected() {
    for wrong in [-1.0, -5e-324, -1000.0, f64::NEG_INFINITY] {
        let mut geo_uri = located(52.107, 5.134, None, Some(25.0));
        assert_eq!(
            geo_uri.set_uncertainty(Some(num(wrong))),
            Err(Error::OutOfRangeUncertainty)
        );
        assert_eq!(geo_uri.uncertainty().map(float), Some(25.0));

        let mut builder = GeoUri::builder();
        builder
            .latitude(num(52.107))
            .longitude(num(5.134))
            .uncertainty(num(wrong));
        assert_eq!(
            builder.validate(),
            Err(String::from("Uncertainty distance not positive"))
        );
        match builder.build() {
            Err(geo_uri::GeoUriBuilderError::ValidationError(message)) => {
                assert_eq!(message, "Uncertainty distance not positive")
            }
            other => panic!("built {other:?}"),
        }
        // Whatever else is set or not, the builder builds nothing.
        assert!(GeoUri::builder().uncertainty(num(wrong)).build().is_err());
        assert!(GeoUri::builder().latitude(num(1.0)).uncertainty(num(wrong)).build().is_err());

        assert_eq!(
            GeoUri::validate(CoordRefSystem::Wgs84, num(0.0), num(0.0), Some(num(wrong))),
            Err(Error::OutOfRangeUncertainty)
        );
    }
    let mut geo_uri = located(52.107, 5.134, None, None);
    for right in [0.0, -0.0, 5e-324, 1000.0, f64::INFINITY, f64::NAN] {
        assert_eq!(geo_uri.set_uncertainty(Some(num(right))), Ok(()));
        assert_eq!(
            geo_uri.uncertainty().map(Binary64::to_bits),
            Some(right.to_bits())
        );
    }
    assert_eq!(geo_uri.set_uncertainty(None), Ok(()));
    assert_eq!(geo_uri.uncertainty(), None);
}

#[test]
fn parse_reads_altitude_and_no_uncertainty() {
    let geo_uri = parse("geo:48.2010,16.3695,183").expect("parsable geo URI");
    assert!((float(geo_uri.latitude()) - 48.2010).abs() <= 0.0001);
    assert!((float(geo_uri.longitude()) - 16.3695).abs() <= 0.0001);
    assert_eq!(geo_uri.altitude().map(float), Some(183.0));
    assert_eq!(geo_uri.uncertainty(), None);
}

#[test]
fn parse_reads_the_uncertainty() {
    let geo_uri = parse("geo:52.107,5.134,3.6;u=1000").expect("parsable geo URI");
    assert_eq!(geo_uri.uncertainty().map(float), Some(1000.0));
    assert_eq!(float(geo_uri.latitude()), 52.107);
    assert_eq!(float(geo_uri.longitude()), 5.134);
    assert_eq!(geo_uri.altitude().map(float), Some(3.6));
}

#[test]
fn parse_refuses_a_latitude_out_of_range() {
    assert_eq!(parse("geo:100.0,5.134"), Err(Error::OutOfRangeLatitude));
}

#[test]
fn parse_refuses_a_text_without_scheme() {
    assert_eq!(parse("52.107,5.134"), Err(Error::MissingScheme));
}

#[test]
fn parse_refuses_an_unsupported_system() {
    assert_eq!(
        parse("geo:52.107,5.34,3.6;crs=foo"),
        Err(Error::InvalidCoordRefSystem)
    );
}
