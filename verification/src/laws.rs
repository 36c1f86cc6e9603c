//! What holds of parsing and writing together.
//!
//! The library reads and writes no numbers itself, so these laws speak of
//! any way `write` of writing a number as text and any way `read` of reading
//! one: they hold of every pair of them that fits together as the law says.
use crate::binary64::Binary64;
use crate::error::Error;
use crate::format::{canonical_spec, format_text};
use crate::geo_uri::{check, same_option, GeoUriView};
use crate::parse::{parse_spec, parse_text, Reading};
use crate::parts::{
    coords_of, map_option, next_param, params_of, path_of, split_spec, CrsParam, UriParts,
};
use crate::text::{
    cut, free_of, is_lower, lemma_cut_joined, lemma_cut_whole, lemma_lowered_same, lower, lowered,
};
use vstd::arithmetic::power2::lemma_pow2_pos;
use vstd::prelude::*;

verus! {

/// Whether `text` can stand for a number in a geo URI and be found again:
/// it holds no comma and no semicolon, and is its own lower case.
pub open spec fn plain(text: Seq<char>) -> bool {
    free_of(text, ',') && free_of(text, ';') && is_lower(text)
}

/// Whether a text that may be absent is plain.
pub open spec fn plain_option(text: Option<Seq<char>>) -> bool {
    text is Some ==> plain(text->0)
}

/// Whether `read` gives back the number `n` from what `write` wrote for it,
/// and what was written is plain.
pub open spec fn reads_back(
    n: Binary64,
    write: spec_fn(Binary64) -> Seq<char>,
    read: spec_fn(Seq<char>) -> Reading,
) -> bool {
    plain(write(n)) && read(write(n)) == Ok::<Binary64, core::num::ParseFloatError>(n)
}

/// Whether every number of `x` is read back from what was written for it.
pub open spec fn faithful(
    x: GeoUriView,
    write: spec_fn(Binary64) -> Seq<char>,
    read: spec_fn(Seq<char>) -> Reading,
) -> bool {
    &&& reads_back(x.latitude, write, read)
    &&& reads_back(x.longitude, write, read)
    &&& x.altitude is Some ==> reads_back(x.altitude->0, write, read)
    &&& x.uncertainty is Some ==> reads_back(x.uncertainty->0, write, read)
}

/// The coordinates of a canonical text, before the parameters.
spec fn coords_text(latitude: Seq<char>, longitude: Seq<char>, altitude: Option<Seq<char>>) -> Seq<
    char,
> {
    latitude + seq![','] + (longitude + match altitude {
        Some(text) => seq![','] + text,
        None => Seq::empty(),
    })
}

proof fn lemma_coords_text(latitude: Seq<char>, longitude: Seq<char>, altitude: Option<Seq<char>>)
    requires
        plain(latitude),
        plain(longitude),
        plain_option(altitude),
    ensures
        coords_of(coords_text(latitude, longitude, altitude)) == (
            latitude,
            Some(longitude),
            altitude,
        ),
        free_of(coords_text(latitude, longitude, altitude), ';'),
        is_lower(coords_text(latitude, longitude, altitude)),
        coords_text(latitude, longitude, altitude).len() > 0,
{
    let rest = longitude + match altitude {
        Some(text) => seq![','] + text,
        None => Seq::empty(),
    };
    lemma_cut_joined(latitude, ',', rest);
    match altitude {
        Some(text) => {
            assert(rest =~= longitude + seq![','] + text);
            lemma_cut_joined(longitude, ',', text);
        },
        None => {
            assert(rest =~= longitude);
            lemma_cut_whole(longitude, ',');
        },
    }
}

proof fn lemma_uncertainty_param(text: Seq<char>)
    requires
        plain(text),
    ensures
        params_of(Some(seq!['u', '='] + text)) == (CrsParam::Absent, Some(text)),
{
    let param = seq!['u', '='] + text;
    reveal_strlit("u");
    reveal_strlit("crs");
    lemma_cut_whole(param, ';');
    assert(param =~= seq!['u'] + seq!['='] + text);
    lemma_cut_joined(seq!['u'], '=', text);
    assert(cut(param, '=') == (seq!['u'], Some(text)));
    assert("u"@ =~= seq!['u']);
    assert("crs"@.len() == 3);
    assert(next_param(Some(param)) == Some((seq!['u'], text, None::<Seq<char>>)));
}

/// A geo URI is read without regard to case: a text and its lower case are
/// split into the same parts.
pub proof fn lemma_split_ignores_case(uri: Seq<char>)
    ensures
        split_spec(lowered(uri)) == split_spec(uri),
{
    assert(lowered(lowered(uri)) =~= lowered(uri));
}

/// Splitting undoes the canonical form: a canonical text made of plain
/// texts is split into exactly those texts, with a longitude and without a
/// coordinate reference system.
pub proof fn lemma_split_canonical(
    latitude: Seq<char>,
    longitude: Seq<char>,
    altitude: Option<Seq<char>>,
    uncertainty: Option<Seq<char>>,
)
    requires
        plain(latitude),
        plain(longitude),
        plain_option(altitude),
        plain_option(uncertainty),
    ensures
        split_spec(canonical_spec(latitude, longitude, altitude, uncertainty)) == Ok::<
            UriParts<Seq<char>>,
            Error,
        >(
            UriParts {
                latitude,
                longitude: Some(longitude),
                altitude,
                crs: CrsParam::Absent,
                uncertainty,
            },
        ),
{
    let uri = canonical_spec(latitude, longitude, altitude, uncertainty);
    let coords = coords_text(latitude, longitude, altitude);
    let path = coords + match uncertainty {
        Some(text) => seq![';'] + (seq!['u', '='] + text),
        None => Seq::empty(),
    };
    reveal_strlit("geo:");
    reveal_strlit(",");
    reveal_strlit(";u=");
    lemma_coords_text(latitude, longitude, altitude);
    assert(","@ =~= seq![',']);
    assert(";u="@ =~= seq![';', 'u', '=']);
    assert("geo:"@ =~= seq!['g', 'e', 'o', ':']);
    assert(uri =~= "geo:"@ + path);
    assert(is_lower(uri)) by {
        assert forall|i: int| 0 <= i < uri.len() implies lower(#[trigger] uri[i])
            == uri[i] by {
            if i < 4 {
            } else if i < 4 + coords.len() {
                assert(uri[i] == coords[i - 4]);
            } else {
                let text = uncertainty->0;
                if i >= 4 + coords.len() + 3 {
                    assert(uri[i] == text[i - 4 - coords.len() - 3]);
                }
            }
        }
    }
    lemma_lowered_same(uri);
    assert(uri.take(4) =~= "geo:"@);
    assert(uri.skip(4) =~= path);
    assert(path_of(uri) == Some(path));
    match uncertainty {
        Some(text) => {
            let param = seq!['u', '='] + text;
            assert(path =~= coords + seq![';'] + param);
            lemma_cut_joined(coords, ';', param);
            lemma_uncertainty_param(text);
        },
        None => {
            assert(path =~= coords);
            lemma_cut_whole(coords, ';');
        },
    }
}

/// Reading back what was written: where every number of a valid geo URI
/// is read back from the text written for it, parsing the canonical text of
/// the geo URI gives the geo URI itself.
pub proof fn lemma_parse_format(
    x: GeoUriView,
    write: spec_fn(Binary64) -> Seq<char>,
    read: spec_fn(Seq<char>) -> Reading,
)
    requires
        x.valid(),
        faithful(x, write, read),
    ensures
        parse_text(format_text(x, write), read) == Ok::<GeoUriView, Error>(x),
{
    lemma_split_canonical(
        write(x.latitude),
        write(x.longitude),
        map_option(x.altitude, write),
        map_option(x.uncertainty, write),
    );
}

/// Writing is idempotent: under the same condition, the canonical text of
/// what was parsed from a canonical text is that text again.
pub proof fn lemma_format_parse_format(
    x: GeoUriView,
    write: spec_fn(Binary64) -> Seq<char>,
    read: spec_fn(Seq<char>) -> Reading,
)
    requires
        x.valid(),
        faithful(x, write, read),
    ensures
        parse_text(format_text(x, write), read) is Ok,
        format_text(parse_text(format_text(x, write), read)->Ok_0, write) == format_text(x, write),
{
    lemma_parse_format(x, write, read);
}

/// Validation is the test of validity: the fields pass it exactly when
/// they are those of a geo URI, so whatever was made is in range.
pub proof fn lemma_check_valid(x: GeoUriView)
    ensures
        check(x.crs, x.latitude, x.longitude, x.uncertainty) is Ok <==> x.valid(),
        x.valid() ==> x.latitude.between(-90, 90) && x.longitude.between(-180, 180),
{
}

/// Whatever is parsed is valid: no parts give a geo URI out of range.
pub proof fn lemma_parsed_valid(parts: UriParts<Reading>)
    ensures
        parse_spec(parts) is Ok ==> parse_spec(parts)->Ok_0.valid(),
{
}

/// At a pole the longitude does not count: two geo URIs at the same pole
/// are equal if their altitudes and their uncertainties are, whatever their
/// longitudes.
pub proof fn lemma_pole_ignores_longitude(a: GeoUriView, b: GeoUriView)
    requires
        a.at_pole(),
        a.crs == b.crs,
        a.latitude.same(b.latitude),
        same_option(a.altitude, b.altitude),
        same_option(a.uncertainty, b.uncertainty),
    ensures
        a.equals(b),
{
}

/// Away from the poles the longitude counts: two geo URIs with different
/// longitudes are not equal.
pub proof fn lemma_longitude_counts(a: GeoUriView, b: GeoUriView)
    requires
        !a.at_pole(),
        !a.longitude.same(b.longitude),
    ensures
        !a.equals(b),
{
}

/// Latitude forty-five is no pole: two geo URIs there with different
/// longitudes are not equal.
pub proof fn lemma_longitude_counts_at_forty_five(a: GeoUriView, b: GeoUriView)
    requires
        a.latitude.between(45, 45),
        !a.longitude.same(b.longitude),
    ensures
        !a.equals(b),
{
    lemma_pow2_pos(1074);
}

} // verus!
