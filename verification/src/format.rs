//! From the geo URI to its canonical text.
use crate::binary64::Binary64;
use crate::geo_uri::{GeoUri, GeoUriView};
use crate::parts::map_option;
use crate::text::{str_view, text_view};
use vstd::prelude::*;
use vstd::string::StringExecFns;

verus! {

/// The canonical text of a geo URI whose numbers are written as the given
/// texts: `geo:`, the latitude, a comma, the longitude; then a comma and the
/// altitude, if there is one; then `;u=` and the uncertainty, if there is
/// one. The coordinate reference system is never written.
pub open spec fn canonical_spec(
    latitude: Seq<char>,
    longitude: Seq<char>,
    altitude: Option<Seq<char>>,
    uncertainty: Option<Seq<char>>,
) -> Seq<char> {
    "geo:"@ + latitude + ","@ + longitude + (match altitude {
        Some(text) => ","@ + text,
        None => Seq::empty(),
    }) + (match uncertainty {
        Some(text) => ";u="@ + text,
        None => Seq::empty(),
    })
}

/// The canonical text of a geo URI where numbers are written by `write`.
pub open spec fn format_text(x: GeoUriView, write: spec_fn(Binary64) -> Seq<char>) -> Seq<char> {
    canonical_spec(
        write(x.latitude),
        write(x.longitude),
        map_option(x.altitude, write),
        map_option(x.uncertainty, write),
    )
}

/// Whether `text` is what `write` may give for `number`, where there is a
/// number, and absent where there is none.
pub open spec fn writes<F: Fn(Binary64) -> String>(
    write: F,
    number: Option<Binary64>,
    text: Option<String>,
) -> bool {
    match number {
        Some(n) => text is Some && write.ensures((n,), text->0),
        None => text is None,
    }
}

/// Whether the texts are what `write` may give for the numbers of `x`.
pub open spec fn written_by<F: Fn(Binary64) -> String>(
    write: F,
    x: GeoUriView,
    latitude: String,
    longitude: String,
    altitude: Option<String>,
    uncertainty: Option<String>,
) -> bool {
    &&& write.ensures((x.latitude,), latitude)
    &&& write.ensures((x.longitude,), longitude)
    &&& writes(write, x.altitude, altitude)
    &&& writes(write, x.uncertainty, uncertainty)
}

/// Whether the function `f` says what `write` gives: whatever `write` may
/// give for a number holds the characters that `f` gives for it.
pub open spec fn writes_as<F: Fn(Binary64) -> String>(
    write: F,
    f: spec_fn(Binary64) -> Seq<char>,
) -> bool {
    forall|number: Binary64, text: String| #[trigger]
        write.ensures((number,), text) ==> text@ == f(number)
}

impl GeoUri {
    /// The canonical text of the geo URI, with its numbers written by
    /// `write`.
    pub fn format<F: Fn(Binary64) -> String>(&self, write: F) -> (r: String)
        requires
            forall|number: Binary64| write.requires((number,)),
        ensures
            exists|
                latitude: String,
                longitude: String,
                altitude: Option<String>,
                uncertainty: Option<String>,
            |
                #[trigger] written_by(write, self@, latitude, longitude, altitude, uncertainty)
                    && r@ == canonical_spec(
                    latitude@,
                    longitude@,
                    text_view(altitude),
                    text_view(uncertainty),
                ),
            forall|f: spec_fn(Binary64) -> Seq<char>|
                writes_as(write, f) ==> r@ == #[trigger] format_text(self@, f),
    {
        let latitude = write(self.latitude());
        let longitude = write(self.longitude());
        let altitude = match self.altitude() {
            Some(number) => Some(write(number)),
            None => None,
        };
        let uncertainty = match self.uncertainty() {
            Some(number) => Some(write(number)),
            None => None,
        };
        let r = GeoUri::canonical(
            latitude.as_str(),
            longitude.as_str(),
            match &altitude {
                Some(text) => Some(text.as_str()),
                None => None,
            },
            match &uncertainty {
                Some(text) => Some(text.as_str()),
                None => None,
            },
        );
        assert(written_by(write, self@, latitude, longitude, altitude, uncertainty) && r@
            == canonical_spec(
            latitude@,
            longitude@,
            text_view(altitude),
            text_view(uncertainty),
        ));
        r
    }

    /// The canonical text of a geo URI whose numbers are written as the
    /// given texts.
    pub fn canonical(
        latitude: &str,
        longitude: &str,
        altitude: Option<&str>,
        uncertainty: Option<&str>,
    ) -> (r: String)
        ensures
            r@ == canonical_spec(latitude@, longitude@, str_view(altitude), str_view(uncertainty)),
    {
        let mut text = String::from_str("geo:");
        text.append(latitude);
        text.append(",");
        text.append(longitude);
        if let Some(altitude) = altitude {
            text.append(",");
            text.append(altitude);
        }
        if let Some(uncertainty) = uncertainty {
            text.append(";u=");
            text.append(uncertainty);
        }
        assert(text@ =~= canonical_spec(
            latitude@,
            longitude@,
            str_view(altitude),
            str_view(uncertainty),
        ));
        text
    }
}

} // verus!
