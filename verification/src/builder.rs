//! A builder for geo URIs: fields are set one by one and checked once.
use crate::binary64::Binary64;
use crate::crs::CoordRefSystem;
use crate::error::Error;
use crate::geo_uri::{check, GeoUri, GeoUriView};
use vstd::prelude::*;
use vstd::string::StringExecFns;

verus! {

/// Error type for `GeoUriBuilder`.
#[non_exhaustive]
#[derive(Debug)]
pub enum GeoUriBuilderError {
    /// Uninitialized field, by its name.
    UninitializedField(&'static str),
    /// Custom validation error, by its message.
    ValidationError(String),
}

/// Builder for [`GeoUri`].
///
/// The latitude and the longitude have to be set. The coordinate reference
/// system is WGS-84 unless it is set, and there is no altitude and no
/// uncertainty unless they are set.
#[derive(Clone, Copy, Debug)]
pub struct GeoUriBuilder {
    /// The coordinate reference system, once set.
    pub crs: Option<CoordRefSystem>,
    /// The latitude coordinate, once set.
    pub latitude: Option<Binary64>,
    /// The longitude coordinate, once set.
    pub longitude: Option<Binary64>,
    /// The altitude coordinate, once set.
    pub altitude: Option<Binary64>,
    /// The uncertainty, once set.
    pub uncertainty: Option<Binary64>,
}

impl GeoUriBuilderError {
    /// What the message of the error says.
    pub open spec fn words(self) -> Seq<char> {
        match self {
            GeoUriBuilderError::UninitializedField(name) => "`"@ + name@ + "` must be initialized"@,
            GeoUriBuilderError::ValidationError(message) => message@,
        }
    }

    /// The message of the error: that the field must be initialized, or the
    /// message of the validation.
    pub fn message(&self) -> (r: String)
        ensures
            r@ == self.words(),
    {
        match self {
            GeoUriBuilderError::UninitializedField(name) => {
                let mut text = String::from_str("`");
                text.append(name);
                text.append("` must be initialized");
                text
            },
            GeoUriBuilderError::ValidationError(message) => message.clone(),
        }
    }
}

impl GeoUriBuilder {
    /// The builder in which nothing is set.
    pub open spec fn empty() -> GeoUriBuilder {
        GeoUriBuilder {
            crs: None,
            latitude: None,
            longitude: None,
            altitude: None,
            uncertainty: None,
        }
    }

    /// The system that is built with: the one set, or WGS-84.
    pub open spec fn crs_or_default(self) -> CoordRefSystem {
        match self.crs {
            Some(crs) => crs,
            None => CoordRefSystem::Wgs84,
        }
    }

    /// The number that validation looks at for a coordinate: the one set,
    /// or zero.
    pub open spec fn or_zero(coordinate: Option<Binary64>) -> Binary64 {
        match coordinate {
            Some(number) => number,
            None => Binary64 { bits: 0 },
        }
    }

    /// What validation answers for the fields as they are set so far, with
    /// zero in place of a coordinate that is not set.
    pub open spec fn checked(self) -> Result<(), Error> {
        check(
            self.crs_or_default(),
            Self::or_zero(self.latitude),
            Self::or_zero(self.longitude),
            self.uncertainty,
        )
    }

    /// The fields of the geo URI that is built once both coordinates are
    /// set.
    pub open spec fn fields(self) -> GeoUriView {
        GeoUriView {
            crs: self.crs_or_default(),
            latitude: Self::or_zero(self.latitude),
            longitude: Self::or_zero(self.longitude),
            altitude: self.altitude,
            uncertainty: self.uncertainty,
        }
    }

    /// Whether `r` is what building gives. A coordinate that was never set
    /// is named, the latitude before the longitude. With both set the fields
    /// are validated: `r` holds the message of the rule that is broken, or
    /// the geo URI with the fields as they are set.
    pub open spec fn builds(self, r: Result<GeoUri, GeoUriBuilderError>) -> bool {
        if self.latitude is None {
            r matches Err(GeoUriBuilderError::UninitializedField(name)) && name@ == "latitude"@
        } else if self.longitude is None {
            r matches Err(GeoUriBuilderError::UninitializedField(name)) && name@ == "longitude"@
        } else if self.checked() is Err {
            r matches Err(GeoUriBuilderError::ValidationError(message)) && message@
                == self.checked()->Err_0.words()
        } else {
            r matches Ok(geo_uri) && geo_uri@ == self.fields()
        }
    }

    /// Whether nothing but the uncertainty keeps the builder from building:
    /// both coordinates are set and in the ranges of the system, and the
    /// uncertainty is negative.
    pub open spec fn rejects_uncertainty(self) -> bool {
        &&& self.latitude is Some
        &&& self.longitude is Some
        &&& self.crs_or_default().check(self.latitude->0, self.longitude->0) is Ok
        &&& self.uncertainty is Some
        &&& self.uncertainty->0.negative()
    }

    /// Sets the coordinate reference system.
    pub fn crs(&mut self, value: CoordRefSystem) -> (r: &mut Self)
        ensures
            *r == (GeoUriBuilder { crs: Some(value), ..*old(self) }),
            *final(self) == *final(r),
    {
        self.crs = Some(value);
        self
    }

    /// Sets the latitude coordinate.
    pub fn latitude(&mut self, value: Binary64) -> (r: &mut Self)
        ensures
            *r == (GeoUriBuilder { latitude: Some(value), ..*old(self) }),
            *final(self) == *final(r),
    {
        self.latitude = Some(value);
        self
    }

    /// Sets the longitude coordinate.
    pub fn longitude(&mut self, value: Binary64) -> (r: &mut Self)
        ensures
            *r == (GeoUriBuilder { longitude: Some(value), ..*old(self) }),
            *final(self) == *final(r),
    {
        self.longitude = Some(value);
        self
    }

    /// Sets the altitude coordinate.
    pub fn altitude(&mut self, value: Binary64) -> (r: &mut Self)
        ensures
            *r == (GeoUriBuilder { altitude: Some(value), ..*old(self) }),
            *final(self) == *final(r),
    {
        self.altitude = Some(value);
        self
    }

    /// Sets the uncertainty around the location.
    pub fn uncertainty(&mut self, value: Binary64) -> (r: &mut Self)
        ensures
            *r == (GeoUriBuilder { uncertainty: Some(value), ..*old(self) }),
            *final(self) == *final(r),
    {
        self.uncertainty = Some(value);
        self
    }

    /// Validates the fields as they are set so far, a coordinate that is
    /// not set counting as zero.
    ///
    /// Returns the message of the error if the currently configured values
    /// are invalid.
    pub fn validate(&self) -> (r: Result<(), String>)
        ensures
            self.checked() is Ok <==> r is Ok,
            r is Err ==> r->Err_0@ == self.checked()->Err_0.words(),
    {
        let crs = match self.crs {
            Some(crs) => crs,
            None => CoordRefSystem::default(),
        };
        let latitude = match self.latitude {
            Some(number) => number,
            None => Binary64::zero(),
        };
        let longitude = match self.longitude {
            Some(number) => number,
            None => Binary64::zero(),
        };
        match GeoUri::validate(crs, latitude, longitude, self.uncertainty) {
            Ok(()) => Ok(()),
            Err(e) => Err(e.message()),
        }
    }

    /// Builds a new `GeoUri`.
    ///
    /// Fails with the name of the field if the latitude or the longitude was
    /// never set, the latitude being looked at first. Otherwise the fields
    /// are validated once, and the message of the first violated rule is
    /// returned if they are invalid.
    pub fn build(&self) -> (r: Result<GeoUri, GeoUriBuilderError>)
        ensures
            self.builds(r),
            self.uncertainty is Some && self.uncertainty->0.negative() ==> r is Err,
            self.rejects_uncertainty() ==> r is Err && r->Err_0.words()
                == Error::OutOfRangeUncertainty.words(),
    {
        let latitude = match self.latitude {
            Some(number) => number,
            None => {
                return Err(GeoUriBuilderError::UninitializedField("latitude"));
            },
        };
        let longitude = match self.longitude {
            Some(number) => number,
            None => {
                return Err(GeoUriBuilderError::UninitializedField("longitude"));
            },
        };
        if let Err(message) = self.validate() {
            return Err(GeoUriBuilderError::ValidationError(message));
        }
        let crs = match self.crs {
            Some(crs) => crs,
            None => CoordRefSystem::default(),
        };
        Ok(GeoUri::of_valid(crs, latitude, longitude, self.altitude, self.uncertainty))
    }
}

impl Default for GeoUriBuilder {
    /// The builder in which nothing is set.
    fn default() -> (r: Self)
        ensures
            r == GeoUriBuilder::empty(),
    {
        GeoUriBuilder {
            crs: None,
            latitude: None,
            longitude: None,
            altitude: None,
            uncertainty: None,
        }
    }
}

} // verus!
