//! Geo URIs as RFC 5870 defines them: parsing, validation and the canonical
//! text form of the `geo:` scheme, with every rule stated as a contract and
//! proved.
//!
//! Numbers are held by their bits, as [`Binary64`], and compared as IEEE 754
//! orders them. The library neither reads a number from text nor writes one:
//! [`GeoUri::parse`] and [`GeoUri::format`] take the function that does so
//! from their caller. Beside them stand the functions that do the rest and
//! say exactly what: [`UriParts::split`] finds the text of each number of a
//! URI, [`GeoUri::from_parts`] takes what was read from those texts, and
//! [`GeoUri::canonical`] joins the texts that were written.
pub mod binary64;
pub mod builder;
pub mod crs;
pub mod error;
pub mod format;
pub mod geo_uri;
pub mod laws;
pub mod parse;
pub mod parts;
pub mod text;

pub use crate::binary64::Binary64;
pub use crate::builder::{GeoUriBuilder, GeoUriBuilderError};
pub use crate::crs::CoordRefSystem;
pub use crate::error::Error;
pub use crate::geo_uri::GeoUri;
pub use crate::parse::Reading;
pub use crate::parts::{CrsParam, UriParts};
