use vstd::prelude::*;

use crate::api::auth::pairs_view;
use crate::data::config::Visibility;

verus! {

pub open spec fn status_spec(inventor: Seq<char>, invention: Seq<char>) -> Seq<char> {
    "I can't believe "@ + inventor + " invented "@ + invention
}

/// The text of a status.
pub fn status_text(inventor: &str, invention: &str) -> (r: String)
    ensures
        r@ == status_spec(inventor@, invention@),
{
    String::from_str("I can't believe ").concat(inventor).concat(" invented ").concat(invention)
}

pub open spec fn status_form_spec(visibility: Visibility, status: Seq<char>) -> Seq<(Seq<char>, Seq<char>)> {
    seq![("content_type"@, "text/plain"@), ("visibility"@, visibility.name()), ("status"@, status)]
}

/// The form that posts a status.
pub fn status_form(visibility: Visibility, status: &str) -> (r: Vec<(String, String)>)
    ensures
        pairs_view(r@) == status_form_spec(visibility, status@),
{
    let mut v: Vec<(String, String)> = Vec::new();
    v.push((String::from_str("content_type"), String::from_str("text/plain")));
    v.push((String::from_str("visibility"), String::from_str(visibility.as_str())));
    v.push((String::from_str("status"), String::from_str(status)));
    assert(pairs_view(v@) =~= status_form_spec(visibility, status@));
    v
}

} // verus!
