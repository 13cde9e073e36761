use vstd::prelude::*;

use crate::api::opt_view;

verus! {

/// What serde_json makes of `text` read as an array of exactly one string:
/// that string, else `None`.
pub uninterp spec fn json_single_string_of(text: Seq<char>) -> Option<Seq<char>>;

/// Relies on serde_json::from_str into `[String; 1]`.
#[verifier::external_body]
fn json_single_string(text: &str) -> (r: Option<String>)
    ensures
        opt_view(r) == json_single_string_of(text@),
{
    serde_json::from_str::<[String; 1]>(text).ok().map(|[w]| w)
}

/// The invention named by a random noun, with `the ` in front where
/// `with_article`.
pub open spec fn item_spec(word: Seq<char>, with_article: bool) -> Seq<char> {
    if with_article {
        "the "@ + word
    } else {
        word
    }
}

pub fn item_from_word(word: &str, with_article: bool) -> (r: String)
    ensures
        r@ == item_spec(word@, with_article),
{
    if with_article {
        String::from_str("the ").concat(word)
    } else {
        String::from_str(word)
    }
}

/// The invention, from the body of the word service's response; `None` where
/// the body is not an array of one word.
pub fn gen_item(body: &str, with_article: bool) -> (r: Option<String>)
    ensures
        opt_view(r) == match json_single_string_of(body@) {
            Some(w) => Some(item_spec(w, with_article)),
            None => None,
        },
{
    match json_single_string(body) {
        Some(w) => Some(item_from_word(w.as_str(), with_article)),
        None => None,
    }
}

} // verus!
