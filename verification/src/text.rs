//! Comparing texts, and the texts of paths.
use vstd::prelude::*;

verus! {

/// Whether two texts are the same.
pub fn same_text(a: &str, b: &str) -> (same: bool)
    ensures
        same == (a@ == b@),
{
    a.to_owned() == b.to_owned()
}

/// The text of a path, which is empty for a path that is not UTF-8.
pub open spec fn path_text(path: Option<String>) -> Seq<char> {
    match path {
        Some(path) => path@,
        None => Seq::empty(),
    }
}

/// The text of a path, which is empty for a path that is not UTF-8.
pub fn text_of_path(path: Option<String>) -> (text: String)
    ensures
        text@ == path_text(path),
{
    match path {
        Some(path) => path,
        None => String::new(),
    }
}

/// A path that is UTF-8 is taken as it is written, and no other has a text.
pub proof fn path_is_taken_as_written(path: String, text: Seq<char>)
    ensures
        path_text(Some(path)) == text <==> path@ == text,
        path_text(None).len() == 0,
{
}

} // verus!
