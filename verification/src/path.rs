//! The name that a path gives to the file it leads to.

use vstd::prelude::*;

verus! {

/// The final component of a path, as `std::path::Path::file_name` finds it:
/// the name of the file or directory that the path leads to, or nothing where
/// the path has no such component, as when it is empty, is a root, or ends in
/// `..`.
pub uninterp spec fn final_component(path: Seq<char>) -> Option<Seq<char>>;

/// `std::path::Path::file_name` on a path given as text. The call reads
/// nothing but the text, so the contract gives its result a name,
/// [`final_component`], and claims nothing more of it. The final component of
/// a path that is Unicode text is Unicode text, so the conversion loses
/// nothing.
#[verifier::external_body]
pub(crate) fn file_name(path: &str) -> (name: Option<String>)
    ensures
        match name {
            Some(name) => final_component(path@) == Some(name@),
            None => final_component(path@) is None,
        },
{
    let name = std::path::Path::new(path).file_name()?;
    Some(name.to_string_lossy().into_owned())
}

} // verus!
