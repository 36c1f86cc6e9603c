//! The geo URI value: a validated location.
use crate::binary64::{whole, Binary64};
use crate::builder::GeoUriBuilder;
use crate::crs::CoordRefSystem;
use crate::error::Error;
use vstd::prelude::*;
use vstd::std_specs::cmp::PartialEqSpecImpl;
use vstd::std_specs::convert::TryFromSpecImpl;

verus! {

/// What validation answers for the fields of a geo URI: the coordinates are
/// held against the system first, then the uncertainty against zero.
pub open spec fn check(
    crs: CoordRefSystem,
    latitude: Binary64,
    longitude: Binary64,
    uncertainty: Option<Binary64>,
) -> Result<(), Error> {
    if crs.check(latitude, longitude) is Err {
        crs.check(latitude, longitude)
    } else if uncertainty is Some && uncertainty->0.negative() {
        Err(Error::OutOfRangeUncertainty)
    } else {
        Ok(())
    }
}

/// Whether two numbers that may be absent are equal: both absent, or both
/// present and equal as numbers.
pub open spec fn same_option(a: Option<Binary64>, b: Option<Binary64>) -> bool {
    match (a, b) {
        (None, None) => true,
        (Some(x), Some(y)) => x.same(y),
        _ => false,
    }
}

/// The fields of a geo URI.
pub struct GeoUriView {
    /// The coordinate reference system used by the coordinates.
    pub crs: CoordRefSystem,
    /// The latitude coordinate of the location, in degrees.
    pub latitude: Binary64,
    /// The longitude coordinate of the location, in degrees.
    pub longitude: Binary64,
    /// The altitude coordinate of the location in meters, if provided.
    pub altitude: Option<Binary64>,
    /// The uncertainty around the location as a radius in meters.
    pub uncertainty: Option<Binary64>,
}

impl GeoUriView {
    /// Whether the fields are those of a geo URI: the latitude and the
    /// longitude lie in the ranges of the system, and the uncertainty, if
    /// there is one, is not below zero.
    pub open spec fn valid(self) -> bool {
        &&& self.crs.admits_latitude(self.latitude)
        &&& self.crs.admits_longitude(self.longitude)
        &&& self.uncertainty is Some ==> !self.uncertainty->0.negative()
    }

    /// Whether the location is a pole of WGS-84: the latitude is ninety
    /// degrees north or south.
    pub open spec fn at_pole(self) -> bool {
        &&& self.crs == CoordRefSystem::Wgs84
        &&& !self.latitude.nan()
        &&& self.latitude.size() == whole(90)
    }

    /// Whether two geo URIs are equal: the same system, equal latitudes,
    /// equal altitudes and uncertainties, and equal longitudes unless the
    /// location is a pole, where every longitude denotes the same point.
    pub open spec fn equals(self, other: GeoUriView) -> bool {
        &&& self.crs == other.crs
        &&& self.latitude.same(other.latitude)
        &&& (self.at_pole() || self.longitude.same(other.longitude))
        &&& same_option(self.altitude, other.altitude)
        &&& same_option(self.uncertainty, other.uncertainty)
    }
}

/// A uniform resource identifier for geographic locations (geo URI).
///
/// A value of this type is always valid: its coordinates lie in the ranges
/// of its coordinate reference system, and its uncertainty is not negative.
/// Every way to make or change one checks this first.
#[derive(Copy, Clone, Debug)]
pub struct GeoUri {
    crs: CoordRefSystem,
    latitude: Binary64,
    longitude: Binary64,
    altitude: Option<Binary64>,
    uncertainty: Option<Binary64>,
}

impl View for GeoUri {
    type V = GeoUriView;

    closed spec fn view(&self) -> GeoUriView {
        GeoUriView {
            crs: self.crs,
            latitude: self.latitude,
            longitude: self.longitude,
            altitude: self.altitude,
            uncertainty: self.uncertainty,
        }
    }
}

/// The fields behind a result that holds a geo URI.
pub open spec fn result_view<E>(r: Result<GeoUri, E>) -> Result<GeoUriView, E> {
    match r {
        Ok(geo_uri) => Ok(geo_uri@),
        Err(e) => Err(e),
    }
}

/// Whether two numbers that may be absent are equal.
fn same_number(a: Option<Binary64>, b: Option<Binary64>) -> (r: bool)
    ensures
        r == same_option(a, b),
{
    match (a, b) {
        (None, None) => true,
        (Some(x), Some(y)) => x == y,
        _ => false,
    }
}

impl GeoUri {
    #[verifier::type_invariant]
    spec fn inv(self) -> bool {
        self@.valid()
    }

    /// Return a builder for `GeoUri`.
    pub fn builder() -> (r: GeoUriBuilder)
        ensures
            r == GeoUriBuilder::empty(),
    {
        GeoUriBuilder::default()
    }

    /// Validates the fields of a geo URI.
    ///
    /// Returns an error if the latitude/longitude is invalid with respect to
    /// the coordinate reference system, or if the uncertainty, if set, is
    /// negative.
    pub fn validate(
        crs: CoordRefSystem,
        latitude: Binary64,
        longitude: Binary64,
        uncertainty: Option<Binary64>,
    ) -> (r: Result<(), Error>)
        ensures
            r == check(crs, latitude, longitude, uncertainty),
    {
        match crs.validate(latitude, longitude) {
            Err(e) => Err(e),
            Ok(()) => {
                match uncertainty {
                    Some(u) => {
                        if u.is_negative() {
                            Err(Error::OutOfRangeUncertainty)
                        } else {
                            Ok(())
                        }
                    },
                    None => Ok(()),
                }
            },
        }
    }

    /// The geo URI of fields that were validated.
    pub(crate) fn of_valid(
        crs: CoordRefSystem,
        latitude: Binary64,
        longitude: Binary64,
        altitude: Option<Binary64>,
        uncertainty: Option<Binary64>,
    ) -> (r: GeoUri)
        requires
            check(crs, latitude, longitude, uncertainty) is Ok,
        ensures
            r@ == (GeoUriView { crs, latitude, longitude, altitude, uncertainty }),
    {
        GeoUri { crs, latitude, longitude, altitude, uncertainty }
    }

    /// Makes a geo URI of the given fields, if they are valid.
    pub(crate) fn new(
        crs: CoordRefSystem,
        latitude: Binary64,
        longitude: Binary64,
        altitude: Option<Binary64>,
        uncertainty: Option<Binary64>,
    ) -> (r: Result<GeoUri, Error>)
        ensures
            match check(crs, latitude, longitude, uncertainty) {
                Ok(()) => result_view(r) == Ok::<GeoUriView, Error>(
                    GeoUriView { crs, latitude, longitude, altitude, uncertainty },
                ),
                Err(e) => result_view(r) == Err::<GeoUriView, Error>(e),
            },
    {
        match GeoUri::validate(crs, latitude, longitude, uncertainty) {
            Err(e) => Err(e),
            Ok(()) => Ok(GeoUri::of_valid(crs, latitude, longitude, altitude, uncertainty)),
        }
    }

    /// Returns the coordinate reference system.
    pub fn crs(&self) -> (r: CoordRefSystem)
        ensures
            r == self@.crs,
    {
        self.crs
    }

    /// Returns the latitude coordinate.
    pub fn latitude(&self) -> (r: Binary64)
        ensures
            r == self@.latitude,
            self@.crs.admits_latitude(r),
    {
        proof {
            use_type_invariant(self);
        }
        self.latitude
    }

    /// Changes the latitude coordinate.
    ///
    /// If the latitude is out of range for the coordinate reference system,
    /// an error will be returned and nothing is changed.
    pub fn set_latitude(&mut self, latitude: Binary64) -> (r: Result<(), Error>)
        ensures
            r is Ok <==> old(self)@.crs.admits_latitude(latitude),
            r is Ok ==> final(self)@ == (GeoUriView { latitude, ..old(self)@ }),
            r is Err ==> r == Err::<(), Error>(Error::OutOfRangeLatitude),
            r is Err ==> final(self)@ == old(self)@,
    {
        proof {
            use_type_invariant(&*self);
        }
        match self.crs.validate(latitude, self.longitude) {
            Err(e) => Err(e),
            Ok(()) => {
                self.latitude = latitude;
                Ok(())
            },
        }
    }

    /// Returns the longitude coordinate.
    pub fn longitude(&self) -> (r: Binary64)
        ensures
            r == self@.longitude,
            self@.crs.admits_longitude(r),
    {
        proof {
            use_type_invariant(self);
        }
        self.longitude
    }

    /// Changes the longitude coordinate.
    ///
    /// If the longitude is out of range for the coordinate reference system,
    /// an error will be returned and nothing is changed.
    pub fn set_longitude(&mut self, longitude: Binary64) -> (r: Result<(), Error>)
        ensures
            r is Ok <==> old(self)@.crs.admits_longitude(longitude),
            r is Ok ==> final(self)@ == (GeoUriView { longitude, ..old(self)@ }),
            r is Err ==> r == Err::<(), Error>(Error::OutOfRangeLongitude),
            r is Err ==> final(self)@ == old(self)@,
    {
        proof {
            use_type_invariant(&*self);
        }
        match self.crs.validate(self.latitude, longitude) {
            Err(e) => Err(e),
            Ok(()) => {
                self.longitude = longitude;
                Ok(())
            },
        }
    }

    /// Returns the altitude coordinate (if any).
    pub fn altitude(&self) -> (r: Option<Binary64>)
        ensures
            r == self@.altitude,
    {
        self.altitude
    }

    /// Changes the altitude coordinate.
    pub fn set_altitude(&mut self, altitude: Option<Binary64>)
        ensures
            final(self)@ == (GeoUriView { altitude, ..old(self)@ }),
    {
        proof {
            use_type_invariant(&*self);
        }
        self.altitude = altitude;
    }

    /// Returns the uncertainty around the location.
    pub fn uncertainty(&self) -> (r: Option<Binary64>)
        ensures
            r == self@.uncertainty,
            r is Some ==> !r->0.negative(),
    {
        proof {
            use_type_invariant(self);
        }
        self.uncertainty
    }

    /// Changes the uncertainty around the location.
    ///
    /// If the uncertainty distance is negative, an error will be returned and
    /// nothing is changed.
    pub fn set_uncertainty(&mut self, uncertainty: Option<Binary64>) -> (r: Result<(), Error>)
        ensures
            r is Err <==> uncertainty is Some && uncertainty->0.negative(),
            r is Ok ==> final(self)@ == (GeoUriView { uncertainty, ..old(self)@ }),
            r is Err ==> r == Err::<(), Error>(Error::OutOfRangeUncertainty),
            r is Err ==> final(self)@ == old(self)@,
    {
        proof {
            use_type_invariant(&*self);
        }
        if let Some(u) = uncertainty {
            if u.is_negative() {
                return Err(Error::OutOfRangeUncertainty);
            }
        }
        self.uncertainty = uncertainty;
        Ok(())
    }

    /// Whether the location is a pole of WGS-84.
    fn is_at_pole(&self) -> (r: bool)
        ensures
            r == self@.at_pole(),
    {
        self.crs == CoordRefSystem::Wgs84 && self.latitude.abs() == Binary64::ninety()
    }

}

impl Default for GeoUri {
    /// The location at latitude zero and longitude zero.
    fn default() -> (r: Self)
        ensures
            r@ == (GeoUriView {
                crs: CoordRefSystem::Wgs84,
                latitude: Binary64 { bits: 0 },
                longitude: Binary64 { bits: 0 },
                altitude: None,
                uncertainty: None,
            }),
    {
        GeoUri {
            crs: CoordRefSystem::Wgs84,
            latitude: Binary64::zero(),
            longitude: Binary64::zero(),
            altitude: None,
            uncertainty: None,
        }
    }
}

impl PartialEq for GeoUri {
    /// Whether the two are the same location: in the WGS-84 system the
    /// longitude is ignored for the poles.
    fn eq(&self, other: &Self) -> (r: bool) {
        let ignore_longitude = self.is_at_pole();
        self.crs == other.crs && self.latitude == other.latitude && (ignore_longitude
            || self.longitude == other.longitude) && same_number(self.altitude, other.altitude)
            && same_number(self.uncertainty, other.uncertainty)
    }
}

impl PartialEqSpecImpl for GeoUri {
    open spec fn obeys_eq_spec() -> bool {
        true
    }

    open spec fn eq_spec(&self, other: &Self) -> bool {
        self@.equals(other@)
    }
}

impl TryFrom<(Binary64, Binary64)> for GeoUri {
    type Error = Error;

    /// The geo URI at the given latitude and longitude, in WGS-84.
    fn try_from(value: (Binary64, Binary64)) -> (r: Result<Self, Error>)
        ensures
            match check(CoordRefSystem::Wgs84, value.0, value.1, None) {
                Ok(()) => result_view(r) == Ok::<GeoUriView, Error>(
                    GeoUriView {
                        crs: CoordRefSystem::Wgs84,
                        latitude: value.0,
                        longitude: value.1,
                        altitude: None,
                        uncertainty: None,
                    },
                ),
                Err(e) => result_view(r) == Err::<GeoUriView, Error>(e),
            },
    {
        GeoUri::new(CoordRefSystem::Wgs84, value.0, value.1, None, None)
    }
}

impl TryFromSpecImpl<(Binary64, Binary64)> for GeoUri {
    open spec fn obeys_try_from_spec() -> bool {
        true
    }

    closed spec fn try_from_spec(value: (Binary64, Binary64)) -> Result<Self, Error> {
        match check(CoordRefSystem::Wgs84, value.0, value.1, None) {
            Ok(()) => Ok(
                GeoUri {
                    crs: CoordRefSystem::Wgs84,
                    latitude: value.0,
                    longitude: value.1,
                    altitude: None,
                    uncertainty: None,
                },
            ),
            Err(e) => Err(e),
        }
    }
}

impl TryFrom<(Binary64, Binary64, Binary64)> for GeoUri {
    type Error = Error;

    /// The geo URI at the given latitude, longitude and altitude, in WGS-84.
    fn try_from(value: (Binary64, Binary64, Binary64)) -> (r: Result<Self, Error>)
        ensures
            match check(CoordRefSystem::Wgs84, value.0, value.1, None) {
                Ok(()) => result_view(r) == Ok::<GeoUriView, Error>(
                    GeoUriView {
                        crs: CoordRefSystem::Wgs84,
                        latitude: value.0,
                        longitude: value.1,
                        altitude: Some(value.2),
                        uncertainty: None,
                    },
                ),
                Err(e) => result_view(r) == Err::<GeoUriView, Error>(e),
            },
    {
        GeoUri::new(CoordRefSystem::Wgs84, value.0, value.1, Some(value.2), None)
    }
}

impl TryFromSpecImpl<(Binary64, Binary64, Binary64)> for GeoUri {
    open spec fn obeys_try_from_spec() -> bool {
        true
    }

    closed spec fn try_from_spec(value: (Binary64, Binary64, Binary64)) -> Result<Self, Error> {
        match check(CoordRefSystem::Wgs84, value.0, value.1, None) {
            Ok(()) => Ok(
                GeoUri {
                    crs: CoordRefSystem::Wgs84,
                    latitude: value.0,
                    longitude: value.1,
                    altitude: Some(value.2),
                    uncertainty: None,
                },
            ),
            Err(e) => Err(e),
        }
    }
}

} // verus!
