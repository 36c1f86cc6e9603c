//! The grammar of a geo URI: from text to its parts.
//!
//! ```text
//! geo-uri    = "geo:" coord-part *( ";" param )
//! coord-part = lat "," lon [ "," alt ]
//! param      = pname "=" pvalue | token-without-"="
//! ```
//!
//! The numbers of a URI are not read here. [`UriParts::split`] finds the
//! text of each number; whoever reads numbers from text turns those parts
//! into parts that hold the readings, with [`UriParts::map`] or by hand.
use crate::crs::CoordRefSystem;
use crate::error::Error;
use crate::text::{
    cut, cut_at, lemma_find, lowered, lowered_chars, slice_view, string_of, text_view,
};
use vstd::prelude::*;
use vstd::slice::slice_subrange;

verus! {

/// What a URI says of its coordinate reference system.
#[derive(Copy, Clone, Debug, PartialEq, Eq, Structural)]
pub enum CrsParam {
    /// The URI names no system where one is looked for.
    Absent,
    /// The URI names a supported system.
    Known(CoordRefSystem),
    /// The URI names a system that is not supported.
    Unknown,
}

/// The parts of a geo URI, each number held as an `N`: as its text, as
/// what was read from the text, or as the number itself.
#[derive(Clone, Debug, PartialEq, Eq)]
pub struct UriParts<N> {
    /// The first coordinate.
    pub latitude: N,
    /// The second coordinate, unless the URI ends after the first.
    pub longitude: Option<N>,
    /// The third coordinate, if the URI has one.
    pub altitude: Option<N>,
    /// The coordinate reference system that the parameters name.
    pub crs: CrsParam,
    /// The uncertainty that the parameters give, if they give one.
    pub uncertainty: Option<N>,
}

impl View for UriParts<String> {
    type V = UriParts<Seq<char>>;

    open spec fn view(&self) -> UriParts<Seq<char>> {
        UriParts {
            latitude: self.latitude@,
            longitude: text_view(self.longitude),
            altitude: text_view(self.altitude),
            crs: self.crs,
            uncertainty: text_view(self.uncertainty),
        }
    }
}

/// What `f` makes of a value that may be absent.
pub open spec fn map_option<A, B>(value: Option<A>, f: spec_fn(A) -> B) -> Option<B> {
    match value {
        Some(a) => Some(f(a)),
        None => None,
    }
}

/// Whether `to` is what `f` may give for `from`, where there is a `from`,
/// and absent where there is none.
pub open spec fn maps_to<N, M, F: Fn(&N) -> M>(f: F, from: Option<N>, to: Option<M>) -> bool {
    match from {
        Some(n) => to is Some && f.ensures((&n,), to->0),
        None => to is None,
    }
}

/// Whether `to` are parts that `f` may make of the parts `from`: they have
/// the same shape and name the same system, and each number of `to` is what
/// `f` may give for the number in its place.
pub open spec fn mapped_by<N, M, F: Fn(&N) -> M>(f: F, from: UriParts<N>, to: UriParts<M>) -> bool {
    &&& f.ensures((&from.latitude,), to.latitude)
    &&& maps_to(f, from.longitude, to.longitude)
    &&& maps_to(f, from.altitude, to.altitude)
    &&& to.crs == from.crs
    &&& maps_to(f, from.uncertainty, to.uncertainty)
}

impl<N> UriParts<N> {
    /// The same parts with every number turned into what `f` gives for it:
    /// the parts keep their shape.
    pub fn map<M, F: Fn(&N) -> M>(&self, f: F) -> (r: UriParts<M>)
        requires
            forall|n: &N| f.requires((n,)),
        ensures
            mapped_by(f, *self, r),
    {
        let latitude = f(&self.latitude);
        let longitude = match &self.longitude {
            Some(n) => Some(f(n)),
            None => None,
        };
        let altitude = match &self.altitude {
            Some(n) => Some(f(n)),
            None => None,
        };
        let uncertainty = match &self.uncertainty {
            Some(n) => Some(f(n)),
            None => None,
        };
        UriParts { latitude, longitude, altitude, crs: self.crs, uncertainty }
    }
}

/// What follows the scheme `geo:` in `uri`, read without regard to case, or
/// `None` where `uri` does not begin with the scheme.
pub open spec fn path_of(uri: Seq<char>) -> Option<Seq<char>> {
    let text = lowered(uri);
    if text.len() >= 4 && text.take(4) == "geo:"@ {
        Some(text.skip(4))
    } else {
        None
    }
}

/// The coordinates in `coords`: the text up to the first comma, the text
/// from there to the second, and all that follows the second, further
/// commas included.
pub open spec fn coords_of(coords: Seq<char>) -> (Seq<char>, Option<Seq<char>>, Option<Seq<char>>) {
    let (latitude, rest) = cut(coords, ',');
    match rest {
        None => (latitude, None, None),
        Some(rest) => {
            let (longitude, altitude) = cut(rest, ',');
            (latitude, Some(longitude), altitude)
        },
    }
}

/// The length of a tail of parameters, counting the separator before it.
pub open spec fn tail_len(tail: Option<Seq<char>>) -> nat {
    match tail {
        Some(t) => t.len() + 1,
        None => 0,
    }
}

/// The first parameter of the form `name=value` among the parameters in
/// `tail`, which `;` separates: its name, its value (all that follows its
/// first `=`), and the parameters after it. Parameters without `=` are
/// passed over.
pub open spec fn next_param(tail: Option<Seq<char>>) -> Option<
    (Seq<char>, Seq<char>, Option<Seq<char>>),
>
    decreases tail_len(tail),
{
    match tail {
        None => None,
        Some(t) => {
            let (param, rest) = cut(t, ';');
            let (name, value) = cut(param, '=');
            match value {
                Some(value) => Some((name, value, rest)),
                None => next_param(rest),
            }
        },
    }
}

/// What the parameters in `tail` say: the system and the text of the
/// uncertainty. Only two shapes are recognised. If the first `name=value`
/// parameter is `crs`, it names the system, and the next one gives the
/// uncertainty if it is `u`; if the first is `u`, it gives the uncertainty
/// and no system is named. Nothing else is looked at, and after an
/// unsupported system no uncertainty is.
pub open spec fn params_of(tail: Option<Seq<char>>) -> (CrsParam, Option<Seq<char>>) {
    match next_param(tail) {
        Some((name, value, rest)) => {
            if name == "crs"@ {
                if value == "wgs84"@ {
                    match next_param(rest) {
                        Some((name, value, _)) => {
                            if name == "u"@ {
                                (CrsParam::Known(CoordRefSystem::Wgs84), Some(value))
                            } else {
                                (CrsParam::Known(CoordRefSystem::Wgs84), None)
                            }
                        },
                        None => (CrsParam::Known(CoordRefSystem::Wgs84), None),
                    }
                } else {
                    (CrsParam::Unknown, None)
                }
            } else if name == "u"@ {
                (CrsParam::Absent, Some(value))
            } else {
                (CrsParam::Absent, None)
            }
        },
        None => (CrsParam::Absent, None),
    }
}

/// The parts of the geo URI `uri`, or why it has none: `MissingScheme`
/// where it does not begin with `geo:`, `MissingCoords` where nothing
/// stands between the scheme and the first `;` or the end.
pub open spec fn split_spec(uri: Seq<char>) -> Result<UriParts<Seq<char>>, Error> {
    match path_of(uri) {
        None => Err(Error::MissingScheme),
        Some(path) => {
            let (coords, tail) = cut(path, ';');
            if coords.len() == 0 {
                Err(Error::MissingCoords)
            } else {
                Ok(
                    UriParts {
                        latitude: coords_of(coords).0,
                        longitude: coords_of(coords).1,
                        altitude: coords_of(coords).2,
                        crs: params_of(tail).0,
                        uncertainty: params_of(tail).1,
                    },
                )
            }
        },
    }
}

/// The parts behind a result of splitting, as text.
pub open spec fn split_view(r: Result<UriParts<String>, Error>) -> Result<
    UriParts<Seq<char>>,
    Error,
> {
    match r {
        Ok(parts) => Ok(parts@),
        Err(e) => Err(e),
    }
}

/// Whether `s` holds exactly the characters of `word`.
fn same_text(s: &[char], word: &str) -> (r: bool)
    ensures
        r == (s@ == word@),
{
    let mut i: usize = 0;
    for c in it: word.chars()
        invariant
            it.seq() == word@,
            i == it.index(),
            i <= s@.len(),
            s@.take(i as int) == word@.take(i as int),
    {
        if i >= s.len() || s[i] != c {
            return false;
        }
        i += 1;
        assert(s@.take(i as int) =~= s@.take(i - 1).push(s@[i - 1]));
        assert(word@.take(i as int) =~= word@.take(i - 1).push(word@[i - 1]));
    }
    if i == s.len() {
        assert(s@.take(i as int) =~= s@);
        assert(word@.take(i as int) =~= word@);
        true
    } else {
        false
    }
}

/// The string of a slice that may be absent.
fn text_of(s: Option<&[char]>) -> (r: Option<String>)
    ensures
        text_view(r) == slice_view(s),
{
    match s {
        Some(t) => Some(string_of(t)),
        None => None,
    }
}

/// The first parameter of the form `name=value` in `tail`.
fn first_param<'a>(tail: Option<&'a [char]>) -> (r: Option<
    (&'a [char], &'a [char], Option<&'a [char]>),
>)
    ensures
        r is Some == next_param(slice_view(tail)) is Some,
        r matches Some(p) ==> next_param(slice_view(tail)) == Some(
            (p.0@, p.1@, slice_view(p.2)),
        ),
{
    let mut left = tail;
    loop
        invariant
            next_param(slice_view(left)) == next_param(slice_view(tail)),
        decreases tail_len(slice_view(left)),
    {
        match left {
            None => {
                return None;
            },
            Some(t) => {
                let (param, rest) = cut_at(t, ';');
                let (name, value) = cut_at(param, '=');
                match value {
                    Some(value) => {
                        return Some((name, value, rest));
                    },
                    None => {
                        proof {
                            lemma_find(t@, ';');
                        }
                        left = rest;
                    },
                }
            },
        }
    }
}

/// What the parameters in `tail` say.
fn params(tail: Option<&[char]>) -> (r: (CrsParam, Option<String>))
    ensures
        (r.0, text_view(r.1)) == params_of(slice_view(tail)),
{
    match first_param(tail) {
        Some((name, value, rest)) => {
            if same_text(name, "crs") {
                if same_text(value, "wgs84") {
                    match first_param(rest) {
                        Some((name, value, _)) => {
                            if same_text(name, "u") {
                                (CrsParam::Known(CoordRefSystem::Wgs84), Some(string_of(value)))
                            } else {
                                (CrsParam::Known(CoordRefSystem::Wgs84), None)
                            }
                        },
                        None => (CrsParam::Known(CoordRefSystem::Wgs84), None),
                    }
                } else {
                    (CrsParam::Unknown, None)
                }
            } else if same_text(name, "u") {
                (CrsParam::Absent, Some(string_of(value)))
            } else {
                (CrsParam::Absent, None)
            }
        },
        None => (CrsParam::Absent, None),
    }
}

impl UriParts<String> {
    /// Splits a geo URI into its parts, each number as its text.
    ///
    /// The URI is read without regard to case, so the text of every part is
    /// in lower case. A URI that does not begin with `geo:` gives
    /// `MissingScheme`, one without coordinates `MissingCoords`. That a
    /// longitude is missing, or that the system is not supported, shows in
    /// the parts and is reported when they are parsed.
    pub fn split(uri: &str) -> (r: Result<UriParts<String>, Error>)
        ensures
            split_view(r) == split_spec(uri@),
    {
        let chars = lowered_chars(uri);
        let text = chars.as_slice();
        if text.len() < 4 || !same_text(slice_subrange(text, 0, 4), "geo:") {
            return Err(Error::MissingScheme);
        }
        let path = slice_subrange(text, 4, text.len());
        let (coords, tail) = cut_at(path, ';');
        if coords.len() == 0 {
            return Err(Error::MissingCoords);
        }
        let (latitude, rest) = cut_at(coords, ',');
        let (longitude, altitude) = match rest {
            None => (None, None),
            Some(rest) => {
                let (longitude, altitude) = cut_at(rest, ',');
                (Some(longitude), altitude)
            },
        };
        let (crs, uncertainty) = params(tail);
        Ok(
            UriParts {
                latitude: string_of(latitude),
                longitude: text_of(longitude),
                altitude: text_of(altitude),
                crs,
                uncertainty,
            },
        )
    }
}

} // verus!
