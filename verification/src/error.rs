//! The ways in which a geo URI is refused.
use core::num::ParseFloatError;
use vstd::prelude::*;
use vstd::string::to_string_from_display_ensures;
use vstd::string::StringExecFns;

verus! {

/// `core::num::ParseFloatError`, the failure of the standard library to read
/// a number from text. Nothing is claimed of it: the value is carried from
/// the caller that met it into the error that reports it.
#[verifier::external_type_specification]
#[verifier::external_body]
pub struct ExParseFloatError(ParseFloatError);

/// Possible geo URI errors.
#[derive(Debug, PartialEq, Eq)]
pub enum Error {
    /// The geo URI contains an unparsable/invalid coordinate.
    InvalidCoord(ParseFloatError),
    /// The geo URI contains an unsupported/invalid coordinate reference system.
    InvalidCoordRefSystem,
    /// The geo URI contains an unparsable/invalid uncertainty distance.
    InvalidUncertainty(ParseFloatError),
    /// The geo URI contains no coordinates.
    MissingCoords,
    /// The geo URI lacks the latitude coordinate.
    MissingLatitude,
    /// The geo URI lacks the longitude coordinate.
    MissingLongitude,
    /// The geo URI is missing a proper scheme, i.e. the prefix `geo:`.
    MissingScheme,
    /// The latitude coordinate is out of range of -90 to 90 degrees.
    ///
    /// This can only fail for the WGS-84 coordinate reference system.
    OutOfRangeLatitude,
    /// The longitude coordinate is out of range of -180 to 180 degrees.
    ///
    /// This can only fail for the WGS-84 coordinate reference system.
    OutOfRangeLongitude,
    /// The uncertainty distance is not positive.
    OutOfRangeUncertainty,
}

impl Error {
    /// The words of the message that do not depend on what the error
    /// carries: the whole message of an error that carries nothing, and
    /// what stands before the carried failure's own words otherwise.
    pub open spec fn words(self) -> Seq<char> {
        match self {
            Error::InvalidCoord(_) => "Invalid coordinate in geo URI: "@,
            Error::InvalidCoordRefSystem => "Invalid coordinate reference system"@,
            Error::InvalidUncertainty(_) => "Invalid distance in geo URI: "@,
            Error::MissingCoords => "Missing coordinates in geo URI"@,
            Error::MissingLatitude => "Missing latitude coordinate in geo URI"@,
            Error::MissingLongitude => "Missing longitude coordinate in geo URI"@,
            Error::MissingScheme => "Missing geo URI scheme"@,
            Error::OutOfRangeLatitude => "Latitude coordinate is out of range"@,
            Error::OutOfRangeLongitude => "Longitude coordinate is out of range"@,
            Error::OutOfRangeUncertainty => "Uncertainty distance not positive"@,
        }
    }

    /// Whether `text` is a message of this error: its words, followed
    /// by the carried failure as the standard library prints it.
    pub open spec fn worded(self, text: Seq<char>) -> bool {
        match self {
            Error::InvalidCoord(e) => exists|detail: String|
                #[trigger] to_string_from_display_ensures(&e, detail) && text == self.words()
                    + detail@,
            Error::InvalidUncertainty(e) => exists|detail: String|
                #[trigger] to_string_from_display_ensures(&e, detail) && text == self.words()
                    + detail@,
            _ => text == self.words(),
        }
    }

    /// The message of the error.
    pub fn message(&self) -> (r: String)
        ensures
            self.worded(r@),
    {
        match self {
            Error::InvalidCoord(e) => {
                let detail: String = e.to_string();
                let text = String::from_str("Invalid coordinate in geo URI: ").concat(
                    detail.as_str(),
                );
                assert(to_string_from_display_ensures(e, detail) && text@ == self.words()
                    + detail@);
                text
            },
            Error::InvalidCoordRefSystem => String::from_str(
                "Invalid coordinate reference system",
            ),
            Error::InvalidUncertainty(e) => {
                let detail: String = e.to_string();
                let text = String::from_str("Invalid distance in geo URI: ").concat(
                    detail.as_str(),
                );
                assert(to_string_from_display_ensures(e, detail) && text@ == self.words()
                    + detail@);
                text
            },
            Error::MissingCoords => String::from_str("Missing coordinates in geo URI"),
            Error::MissingLatitude => String::from_str("Missing latitude coordinate in geo URI"),
            Error::MissingLongitude => String::from_str("Missing longitude coordinate in geo URI"),
            Error::MissingScheme => String::from_str("Missing geo URI scheme"),
            Error::OutOfRangeLatitude => String::from_str("Latitude coordinate is out of range"),
            Error::OutOfRangeLongitude => String::from_str("Longitude coordinate is out of range"),
            Error::OutOfRangeUncertainty => String::from_str("Uncertainty distance not positive"),
        }
    }
}

} // verus!
