//! Lists of texts as JSON arrays.

use vstd::prelude::*;

use crate::text::views;

verus! {

/// The JSON array of a list of texts, as `serde_json` writes it.
pub uninterp spec fn json_of_texts(l: Seq<Seq<char>>) -> Seq<char>;

/// The list of texts that `serde_json` reads out of a JSON text, if it is an
/// array of strings.
pub uninterp spec fn texts_of_json(s: Seq<char>) -> Option<Seq<Seq<char>>>;

/// `serde_json::to_string` on a list of strings. Writing strings into memory
/// cannot fail, so there is a result; it is a function of the texts, and
/// reading it gives the texts back.
#[verifier::external_body]
fn json_write(l: &Vec<String>) -> (r: Option<String>)
    ensures
        r is Some,
        r->0@ == json_of_texts(views(l@)),
        texts_of_json(r->0@) == Some(views(l@)),
{
    serde_json::to_string(l).ok()
}

/// `serde_json::from_str` for a list of strings: the result is a function of
/// the text.
#[verifier::external_body]
pub(crate) fn json_read(s: &str) -> (r: Option<Vec<String>>)
    ensures
        match r {
            Some(l) => texts_of_json(s@) == Some(views(l@)),
            None => texts_of_json(s@) is None,
        },
{
    serde_json::from_str::<Vec<String>>(s).ok()
}

/// The JSON array of a list of texts.
pub fn texts_to_json(l: &Vec<String>) -> (r: String)
    ensures
        r@ == json_of_texts(views(l@)),
        texts_of_json(r@) == Some(views(l@)),
{
    match json_write(l) {
        Some(t) => t,
        None => "[]".to_owned(),
    }
}

/// The list that a column holds as JSON: empty where there is no column, or
/// where it is no array of strings.
pub fn texts_in_column(s: Option<&str>) -> (l: Vec<String>)
    ensures
        views(l@) == match s {
            Some(t) => match texts_of_json(t@) {
                Some(x) => x,
                None => Seq::<Seq<char>>::empty(),
            },
            None => Seq::<Seq<char>>::empty(),
        },
{
    let none: Vec<String> = Vec::new();
    assert(views(none@) =~= Seq::<Seq<char>>::empty());
    match s {
        Some(t) => match json_read(t) {
            Some(l) => l,
            None => none,
        },
        None => none,
    }
}

} // verus!
