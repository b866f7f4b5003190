use vstd::prelude::*;
use vstd::string::StringExecFns;

verus! {

/// A path is absolute when it begins at the root, `/`. This library runs on
/// Unix, where its shared-memory sources live, and this is Unix's rule.
pub open spec fn path_is_absolute(p: Seq<char>) -> bool {
    p.len() > 0 && p[0] == '/'
}

/// `rel` adjoined to `base`, as `std::path::Path::join` does it on Unix: an
/// absolute `rel` replaces `base`; otherwise `rel` follows `base`, with a `/`
/// between them unless `base` is empty or already ends in one.
pub open spec fn joined_path(base: Seq<char>, rel: Seq<char>) -> Seq<char> {
    if path_is_absolute(rel) {
        rel
    } else if base.len() == 0 || base.last() == '/' {
        base + rel
    } else {
        base + "/"@ + rel
    }
}

/// Whether `p` is a relative path: it does not begin with `/`.
pub fn is_relative_path(p: &str) -> (b: bool)
    ensures
        b == !path_is_absolute(p@),
{
    broadcast use vstd::string::group_string_axioms;

    for c in it: p.chars()
        invariant
            it.seq() == p@,
            it.index() == 0,
    {
        return c != '/';
    }
    true
}

/// Whether `p` is non-empty and ends in `/`.
fn ends_with_slash(p: &str) -> (b: bool)
    ensures
        b == (p@.len() > 0 && p@.last() == '/'),
{
    broadcast use vstd::string::group_string_axioms;

    let mut last: Option<char> = None;
    for c in it: p.chars()
        invariant
            it.seq() == p@,
            last == (if it.index() == 0 {
                None
            } else {
                Some(p@[it.index() - 1])
            }),
    {
        last = Some(c);
    }
    match last {
        Some(c) => c == '/',
        None => false,
    }
}

/// `rel` adjoined to `base` ([`joined_path`]).
pub fn join_paths(base: &str, rel: &str) -> (r: String)
    ensures
        r@ == joined_path(base@, rel@),
{
    if !is_relative_path(rel) {
        String::from_str(rel)
    } else if base.is_empty() || ends_with_slash(base) {
        String::from_str(base).concat(rel)
    } else {
        String::from_str(base).concat("/").concat(rel)
    }
}

/// What the file system answered when asked whether a path names a file,
/// together with the path that was asked about. Only asking makes one.
pub struct FileAnswer {
    present: bool,
    asked: Ghost<Seq<char>>,
}

impl FileAnswer {
    /// The path that was asked about.
    pub closed spec fn asked(&self) -> Seq<char> {
        self.asked@
    }

    /// The answer: whether the path named a file.
    pub closed spec fn answer(&self) -> bool {
        self.present
    }

    /// Whether the path named a file.
    pub fn is_present(&self) -> (b: bool)
        ensures
            b == self.answer(),
    {
        self.present
    }
}

/// Calls `std::path::Path::is_file` on `p`, which asks the file system; the
/// answer depends on what is on disk when it is called, so only the path it
/// was asked about is stated.
#[verifier::external_body]
pub(crate) fn path_is_file(p: &str) -> (r: FileAnswer)
    ensures
        r.asked() == p@,
{
    FileAnswer { present: std::path::Path::new(p).is_file(), asked: Ghost(p@) }
}

} // verus!
