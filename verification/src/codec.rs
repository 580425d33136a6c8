//! Encodings the service leans on: genre lists travel as their JSON text,
//! and item ids are freshly drawn UUIDs.

use vstd::prelude::*;

verus! {

/// The JSON text that serde_json produces for a list of strings.
pub uninterp spec fn genres_json(genres: Seq<Seq<char>>) -> Seq<char>;

/// Relies on serde_json::to_string on a `Vec<String>`: serializing a list
/// of strings cannot fail (only maps with non-string keys or a failing
/// `Serialize` impl can), and the text is a function of the list alone.
#[verifier::external_body]
pub(crate) fn encode_genres(genres: &Vec<String>) -> (r: String)
    ensures
        r@ == genres_json(genres.deep_view()),
{
    serde_json::to_string(genres).unwrap_or_else(|_| "[]".to_string())
}

/// Holds when `r` is what decoding `text` as a genre list must give:
/// whenever the text is the encoding of some list, that list comes back.
pub open spec fn genres_decoding(text: Seq<char>, r: Option<Vec<String>>) -> bool {
    forall|genres: Seq<Seq<char>>|
        text == #[trigger] genres_json(genres)
            ==> (r matches Some(v) && v.deep_view() == genres)
}

/// Relies on serde_json::from_str for `Vec<String>`: parsing the text that
/// serde_json produced for a list of strings yields that same list.
#[verifier::external_body]
fn decode_genres(text: &str) -> (r: Option<Vec<String>>)
    ensures
        genres_decoding(text@, r),
{
    serde_json::from_str::<Vec<String>>(text).ok()
}

/// Recovers the genre list from an item's stored `genres` text: whenever the
/// text is the encoding of some list, that list comes back.
pub fn parse_genres(text: &str) -> (r: Option<Vec<String>>)
    ensures
        genres_decoding(text@, r),
{
    decode_genres(text)
}

/// Relies on Uuid::new_v4 and its Display form: a freshly drawn random
/// UUID prints as the 36-character hyphenated form.
#[verifier::external_body]
pub(crate) fn fresh_item_id() -> (r: String)
    ensures
        r@.len() == 36,
{
    uuid::Uuid::new_v4().to_string()
}

} // verus!
