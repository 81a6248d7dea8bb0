//! Filesystem paths as the library sees them: text, with `std::path`
//! deciding how components combine.
use vstd::prelude::*;

verus! {

/// `std::path::PathBuf`, carried through the library without being read.
#[verifier::external_type_specification]
#[verifier::external_body]
pub struct ExPathBuf(std::path::PathBuf);

/// The text of `Path::new(p).parent()`, when there is one.
pub uninterp spec fn path_parent(p: Seq<char>) -> Option<Seq<char>>;

/// The text of `Path::new(p).file_name()`, when there is one.
pub uninterp spec fn path_file_name(p: Seq<char>) -> Option<Seq<char>>;

/// The text of `Path::new(base).join(rest)`.
pub uninterp spec fn path_join(base: Seq<char>, rest: Seq<char>) -> Seq<char>;

/// `std::path::Path::parent` on the path written `p`; the result is the
/// parent's text, a function of `p` alone (named, not spelled out here).
#[verifier::external_body]
pub(crate) fn parent_of(p: &str) -> (r: Option<String>)
    ensures
        match r {
            Some(q) => path_parent(p@) == Some(q@),
            None => path_parent(p@) is None,
        },
{
    std::path::Path::new(p).parent().map(|q| q.to_string_lossy().into_owned())
}

/// `std::path::Path::file_name` on the path written `p`, as text.
#[verifier::external_body]
pub(crate) fn file_name_of(p: &str) -> (r: Option<String>)
    ensures
        match r {
            Some(q) => path_file_name(p@) == Some(q@),
            None => path_file_name(p@) is None,
        },
{
    std::path::Path::new(p).file_name().map(|q| q.to_string_lossy().into_owned())
}

/// `std::path::Path::join`: `rest` appended to `base` as a path component
/// (an absolute `rest` replaces `base`); a function of the two texts.
#[verifier::external_body]
pub(crate) fn join_path(base: &str, rest: &str) -> (r: String)
    ensures
        r@ == path_join(base@, rest@),
{
    std::path::Path::new(base).join(rest).to_string_lossy().into_owned()
}

/// The text `std::path::Path`'s `Debug` writes for the path written `p`
/// (quoted, with escapes).
pub uninterp spec fn path_debug_text(p: Seq<char>) -> Seq<char>;

/// `Debug` of `std::path::Path::new(p)`; a function of the text `p` alone.
#[verifier::external_body]
pub(crate) fn path_debug(p: &str) -> (r: String)
    ensures
        r@ == path_debug_text(p@),
{
    format!("{:?}", std::path::Path::new(p))
}

/// The text of `Path::new(p).extension()`, when there is one.
pub uninterp spec fn path_extension(p: Seq<char>) -> Option<Seq<char>>;

/// `std::path::Path::extension` on the path written `p`, as text.
#[verifier::external_body]
pub(crate) fn extension_of(p: &str) -> (r: Option<String>)
    ensures
        match r {
            Some(q) => path_extension(p@) == Some(q@),
            None => path_extension(p@) is None,
        },
{
    std::path::Path::new(p).extension().map(|q| q.to_string_lossy().into_owned())
}

/// `PathBuf::clone` gives the same path.
pub assume_specification[ <std::path::PathBuf as core::clone::Clone>::clone ](p: &std::path::PathBuf) -> (r: std::path::PathBuf)
    ensures
        r == *p,
;

} // verus!
