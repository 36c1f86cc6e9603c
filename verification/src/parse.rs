//! From the parts of a URI to the geo URI.
use crate::binary64::Binary64;
use crate::crs::CoordRefSystem;
use crate::error::Error;
use crate::geo_uri::{check, result_view, GeoUri, GeoUriView};
use crate::parts::{map_option, mapped_by, split_spec, CrsParam, UriParts};
use core::num::ParseFloatError;
use vstd::prelude::*;

verus! {

/// What reading a number from its text gave: the number, or the failure of
/// the standard library to read one.
pub type Reading = Result<Binary64, ParseFloatError>;

/// What parsing the parts of a URI gives. The parts are gone through in the
/// order in which they stand in the URI, and the first fault found is
/// reported: a latitude that could not be read, a missing longitude, a
/// longitude or an altitude that could not be read, an unsupported system, an
/// uncertainty that could not be read. Only then are the numbers validated.
/// Where no system is named it is WGS-84.
pub open spec fn parse_spec(parts: UriParts<Reading>) -> Result<GeoUriView, Error> {
    if parts.latitude is Err {
        Err(Error::InvalidCoord(parts.latitude->Err_0))
    } else if parts.longitude is None {
        Err(Error::MissingLongitude)
    } else if parts.longitude->0 is Err {
        Err(Error::InvalidCoord(parts.longitude->0->Err_0))
    } else if parts.altitude is Some && parts.altitude->0 is Err {
        Err(Error::InvalidCoord(parts.altitude->0->Err_0))
    } else if parts.crs is Unknown {
        Err(Error::InvalidCoordRefSystem)
    } else if parts.uncertainty is Some && parts.uncertainty->0 is Err {
        Err(Error::InvalidUncertainty(parts.uncertainty->0->Err_0))
    } else {
        let fields = GeoUriView {
            crs: match parts.crs {
                CrsParam::Known(crs) => crs,
                _ => CoordRefSystem::Wgs84,
            },
            latitude: parts.latitude->Ok_0,
            longitude: parts.longitude->0->Ok_0,
            altitude: match parts.altitude {
                Some(reading) => Some(reading->Ok_0),
                None => None,
            },
            uncertainty: match parts.uncertainty {
                Some(reading) => Some(reading->Ok_0),
                None => None,
            },
        };
        match check(fields.crs, fields.latitude, fields.longitude, fields.uncertainty) {
            Ok(()) => Ok(fields),
            Err(e) => Err(e),
        }
    }
}

/// The parts with each text read by `read`.
pub open spec fn read_all(parts: UriParts<Seq<char>>, read: spec_fn(Seq<char>) -> Reading) -> UriParts<
    Reading,
> {
    UriParts {
        latitude: read(parts.latitude),
        longitude: map_option(parts.longitude, read),
        altitude: map_option(parts.altitude, read),
        crs: parts.crs,
        uncertainty: map_option(parts.uncertainty, read),
    }
}

/// What parsing the text `uri` gives where numbers are read by `read`: the
/// text is split, its numbers are read, and the parts are parsed.
pub open spec fn parse_text(uri: Seq<char>, read: spec_fn(Seq<char>) -> Reading) -> Result<
    GeoUriView,
    Error,
> {
    match split_spec(uri) {
        Ok(parts) => parse_spec(read_all(parts, read)),
        Err(e) => Err(e),
    }
}

/// Whether the function `f` says what `read` gives: whatever `read` may
/// give for a text is what `f` gives for its characters.
pub open spec fn reads_as<F: Fn(&String) -> Reading>(read: F, f: spec_fn(Seq<char>) -> Reading) -> bool {
    forall|text: &String, reading: Reading| #[trigger]
        read.ensures((text,), reading) ==> reading == f(text@)
}

impl GeoUri {
    /// Try parsing a geo URI string into a `GeoUri`, reading its numbers
    /// with `read`.
    ///
    /// The string is split into its parts, `read` is asked for the number
    /// of each text that stands for one, and the parts are put together by
    /// [`GeoUri::from_parts`]. Will return an error if the parsing fails in
    /// any way.
    pub fn parse<F: Fn(&String) -> Reading>(uri: &str, read: F) -> (r: Result<GeoUri, Error>)
        requires
            forall|text: &String| read.requires((text,)),
        ensures
            split_spec(uri@) is Err ==> r == Err::<GeoUri, Error>(split_spec(uri@)->Err_0),
            split_spec(uri@) is Ok ==> exists|parts: UriParts<String>, readings: UriParts<Reading>|
                #[trigger] mapped_by(read, parts, readings) && parts@ == split_spec(uri@)->Ok_0
                    && result_view(r) == parse_spec(readings),
            forall|f: spec_fn(Seq<char>) -> Reading|
                reads_as(read, f) ==> result_view(r) == #[trigger] parse_text(uri@, f),
    {
        match UriParts::split(uri) {
            Err(e) => Err(e),
            Ok(parts) => {
                let readings = parts.map(read);
                let r = GeoUri::from_parts(readings);
                assert(mapped_by(read, parts, readings) && parts@ == split_spec(uri@)->Ok_0
                    && result_view(r) == parse_spec(readings));
                assert forall|f: spec_fn(Seq<char>) -> Reading| reads_as(read, f) implies result_view(
                    r,
                ) == #[trigger] parse_text(uri@, f) by {
                    assert(readings == read_all(parts@, f));
                }
                r
            },
        }
    }

    /// Puts the parts of a geo URI together, each number as it was read
    /// from its text.
    ///
    /// Will return an error if a number could not be read, the longitude is
    /// missing, the coordinate reference system is not supported, or the
    /// numbers are not valid.
    pub fn from_parts(parts: UriParts<Reading>) -> (r: Result<GeoUri, Error>)
        ensures
            result_view(r) == parse_spec(parts),
    {
        let latitude = match parts.latitude {
            Ok(number) => number,
            Err(e) => {
                return Err(Error::InvalidCoord(e));
            },
        };
        let longitude = match parts.longitude {
            None => {
                return Err(Error::MissingLongitude);
            },
            Some(Err(e)) => {
                return Err(Error::InvalidCoord(e));
            },
            Some(Ok(number)) => number,
        };
        let altitude = match parts.altitude {
            None => None,
            Some(Err(e)) => {
                return Err(Error::InvalidCoord(e));
            },
            Some(Ok(number)) => Some(number),
        };
        let crs = match parts.crs {
            CrsParam::Absent => CoordRefSystem::default(),
            CrsParam::Known(crs) => crs,
            CrsParam::Unknown => {
                return Err(Error::InvalidCoordRefSystem);
            },
        };
        let uncertainty = match parts.uncertainty {
            None => None,
            Some(Err(e)) => {
                return Err(Error::InvalidUncertainty(e));
            },
            Some(Ok(number)) => Some(number),
        };
        GeoUri::new(crs, latitude, longitude, altitude, uncertainty)
    }
}

} // verus!
