use vstd::prelude::*;
use vstd::string::StrSliceExecFns;

verus! {

#[verifier::external_type_specification]
#[verifier::external_body]
pub struct ExGitignore(ignore::gitignore::Gitignore);

/// Relies on `Gitignore::matched_path_or_any_parents` followed by
/// `Match::is_ignore`: whether the matcher ignores the path or one of its
/// parent directories. The call asserts that the path, once a leading `./`,
/// the matcher's root and then one `/` are stripped, has no root; on Unix a
/// path that does not start with `/` and holds no `//` never has one.
#[verifier::external_body]
fn matcher_ignores(matcher: &ignore::gitignore::Gitignore, path: &str) -> (r: bool)
    requires
        is_plain_relative(path@),
{
    matcher.matched_path_or_any_parents(path, false).is_ignore()
}

/// A path that does not start at the root and holds no empty component.
pub open spec fn is_plain_relative(p: Seq<char>) -> bool {
    &&& !(p.len() > 0 && p[0] == '/')
    &&& forall|i: int| 0 <= i < p.len() - 1 ==> !(#[trigger] p[i] == '/' && p[i + 1] == '/')
}

/// A name is hidden when it starts with a dot.
pub open spec fn is_hidden_name(name: Seq<char>) -> bool {
    name.len() > 0 && name[0] == '.'
}

/// One regular file of the listed directory.
pub struct Entry {
    name: String,
    path: String,
    hidden: bool,
    ignored: bool,
}

/// What an entry holds, as plain values.
pub struct EntryView {
    pub name: Seq<char>,
    pub path: Seq<char>,
    pub hidden: bool,
    pub ignored: bool,
}

impl View for Entry {
    type V = EntryView;

    closed spec fn view(&self) -> EntryView {
        EntryView { name: self.name@, path: self.path@, hidden: self.hidden, ignored: self.ignored }
    }
}

impl Entry {
    /// An entry whose hidden flag follows from its name.
    pub fn new(name: String, path: String, ignored: bool) -> (r: Entry)
        ensures
            r@.name == name@,
            r@.path == path@,
            r@.hidden == is_hidden_name(name@),
            r@.ignored == ignored,
    {
        let hidden = !name.as_str().is_empty() && name.as_str().get_char(0) == '.';
        Entry { name, path, hidden, ignored }
    }

    /// An entry whose ignored flag is what the matcher says of its path.
    pub fn with_matcher(name: String, path: String, matcher: &ignore::gitignore::Gitignore) -> (r:
        Entry)
        requires
            is_plain_relative(path@),
        ensures
            r@.name == name@,
            r@.path == path@,
            r@.hidden == is_hidden_name(name@),
    {
        let ignored = matcher_ignores(matcher, path.as_str());
        Entry::new(name, path, ignored)
    }

    pub fn name(&self) -> (r: &String)
        ensures
            r@ == self@.name,
    {
        &self.name
    }

    pub fn path(&self) -> (r: &String)
        ensures
            r@ == self@.path,
    {
        &self.path
    }

    pub fn hidden(&self) -> (r: bool)
        ensures
            r == self@.hidden,
    {
        self.hidden
    }

    pub fn ignored(&self) -> (r: bool)
        ensures
            r == self@.ignored,
    {
        self.ignored
    }

    /// Hidden and ignored entries are shown dimmed.
    pub fn dimmed(&self) -> (r: bool)
        ensures
            r == (self@.hidden || self@.ignored),
    {
        self.hidden || self.ignored
    }
}

} // verus!
