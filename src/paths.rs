//! Paths of the scratch and artifact trees, written with `/` separators.
use vstd::prelude::*;

verus! {

/// `a`, a separator, then `b`.
pub open spec fn path_join(a: Seq<char>, b: Seq<char>) -> Seq<char> {
    a + "/"@ + b
}

/// A file name with an optional extension.
pub open spec fn file_name(stem: Seq<char>, ext: Seq<char>) -> Seq<char> {
    if ext.len() == 0 {
        stem
    } else {
        stem + "."@ + ext
    }
}

/// Joins two path parts with a separator.
pub fn join_path(a: &str, b: &str) -> (r: String)
    ensures
        r@ == path_join(a@, b@),
{
    let mut r = String::from_str(a);
    r.append("/");
    r.append(b);
    r
}

/// `stem`, then `.` and `ext` unless `ext` is empty.
pub fn with_extension(stem: &str, ext: &str) -> (r: String)
    ensures
        r@ == file_name(stem@, ext@),
{
    let mut r = String::from_str(stem);
    if !ext.is_empty() {
        r.append(".");
        r.append(ext);
    }
    r
}

} // verus!
