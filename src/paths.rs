use vstd::prelude::*;

verus! {

/// The name of what `pathdiff::diff_paths` gives for a path against the
/// working directory `.`, as text.
pub uninterp spec fn relative_of(p: Seq<char>) -> Option<Seq<char>>;

/// Relies on `pathdiff::diff_paths(p, ".")`: the path relative to the
/// working directory, if it can be expressed so. An absolute path against
/// the relative base comes back unchanged.
#[verifier::external_body]
fn relative_to_cwd(p: &str) -> (r: Option<String>)
    ensures
        r is Some <==> relative_of(p@) is Some,
        r is Some ==> relative_of(p@) == Some(r->0@),
        p@.len() > 0 && p@[0] == '/' ==> r is Some && r->0@ == p@,
{
    match pathdiff::diff_paths(p, ".") {
        Some(b) => Some(b.to_string_lossy().into_owned()),
        None => None,
    }
}

/// The text under which a selected path is printed: relative to the
/// working directory, or the path itself where it has no relative form.
pub open spec fn shown_path_of(p: Seq<char>) -> Seq<char> {
    match relative_of(p) {
        Some(r) => r,
        None => p,
    }
}

/// The text under which a selected path is printed.
pub fn shown_path(p: &String) -> (r: String)
    ensures
        r@ == shown_path_of(p@),
{
    match relative_to_cwd(p.as_str()) {
        Some(r) => r,
        None => p.clone(),
    }
}

} // verus!
