//! Coordinate reference systems and the ranges they allow.
use crate::binary64::Binary64;
use crate::error::Error;
use vstd::prelude::*;

verus! {

/// The reference system of the provided coordinates.
///
/// Currently only the `WGS-84` coordinate reference system is supported.
/// It defines the latitude and longitude of a geo URI to be in decimal
/// degrees and the altitude in meters.
#[non_exhaustive]
#[derive(Copy, Clone, Debug, PartialEq, Eq, Structural)]
pub enum CoordRefSystem {
    /// The WGS-84 coordinate reference system.
    Wgs84,
}

impl CoordRefSystem {
    /// Whether `latitude` is a latitude of this system: for WGS-84 a
    /// number from -90 up to and including 90.
    pub open spec fn admits_latitude(self, latitude: Binary64) -> bool {
        latitude.between(-90, 90)
    }

    /// Whether `longitude` is a longitude of this system: for WGS-84 a
    /// number from -180 up to and including 180.
    pub open spec fn admits_longitude(self, longitude: Binary64) -> bool {
        longitude.between(-180, 180)
    }

    /// What validation answers: the latitude is looked at first, so a pair
    /// that is wrong in both reports its latitude.
    pub open spec fn check(self, latitude: Binary64, longitude: Binary64) -> Result<(), Error> {
        if !self.admits_latitude(latitude) {
            Err(Error::OutOfRangeLatitude)
        } else if !self.admits_longitude(longitude) {
            Err(Error::OutOfRangeLongitude)
        } else {
            Ok(())
        }
    }

    /// Validates geolocation coordinates against the selected coordinate
    /// reference system.
    ///
    /// An error is returned if the latitude/longitude is out of range with
    /// respect to the coordinate reference system.
    pub fn validate(&self, latitude: Binary64, longitude: Binary64) -> (r: Result<(), Error>)
        ensures
            r == self.check(latitude, longitude),
    {
        let ninety = Binary64::ninety();
        if !(ninety.neg().is_le(latitude) && latitude.is_le(ninety)) {
            return Err(Error::OutOfRangeLatitude);
        }
        let one_eighty = Binary64::one_eighty();
        if !(one_eighty.neg().is_le(longitude) && longitude.is_le(one_eighty)) {
            return Err(Error::OutOfRangeLongitude);
        }
        Ok(())
    }
}

impl Default for CoordRefSystem {
    fn default() -> (r: Self)
        ensures
            r == CoordRefSystem::Wgs84,
    {
        CoordRefSystem::Wgs84
    }
}

} // verus!
