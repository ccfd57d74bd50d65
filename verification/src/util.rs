//! Small helpers: resolving paths against a base and normalizing thread names.
use vstd::prelude::*;
use crate::text::{chars_of, string_from_chars, trim, trim_bounds};

verus! {

/// A path is absolute when it starts with the root `/`.
pub open spec fn spec_is_absolute(p: Seq<char>) -> bool {
    p.len() > 0 && p[0] == '/'
}

/// `base` joined with a relative `p`: a separator is put between them unless
/// `base` is empty or already ends with one.
pub open spec fn spec_join_relative(base: Seq<char>, p: Seq<char>) -> Seq<char> {
    if base.len() == 0 || base[base.len() - 1] == '/' {
        base + p
    } else {
        base + seq!['/'] + p
    }
}

/// `Path::is_absolute`, as std documents it for Unix, where a path is
/// absolute when it starts with the root; the library follows Unix path rules.
#[verifier::external_body]
fn path_is_absolute(p: &str) -> (r: bool)
    ensures
        r == spec_is_absolute(p@),
{
    std::path::Path::new(p).is_absolute()
}

/// `Path::join` of a relative path onto a base, as text, by the Unix rules
/// std documents: one separator between the two unless the base is empty or
/// already ends with one.
#[verifier::external_body]
fn path_join(base: &str, p: &str) -> (r: String)
    requires
        !spec_is_absolute(p@),
    ensures
        r@ == spec_join_relative(base@, p@),
{
    std::path::Path::new(base).join(p).to_string_lossy().into_owned()
}

/// `path` itself when absolute, else `path` under `base`.
pub fn resolve_path(base: &str, path: &str) -> (r: String)
    ensures
        spec_is_absolute(path@) ==> r@ == path@,
        !spec_is_absolute(path@) ==> r@ == spec_join_relative(base@, path@),
{
    if path_is_absolute(path) {
        crate::text::copy_str(path)
    } else {
        path_join(base, path)
    }
}

/// A thread name trimmed of surrounding whitespace; nothing when that leaves it empty.
pub fn normalize_thread_name(name: &str) -> (r: Option<String>)
    ensures
        trim(name@).len() == 0 ==> r is None,
        trim(name@).len() > 0 ==> (r matches Some(n) && n@ == trim(name@)),
{
    let cs = chars_of(name);
    let (a, b) = trim_bounds(&cs);
    if a == b {
        None
    } else {
        Some(string_from_chars(&cs, a, b))
    }
}

} // verus!
