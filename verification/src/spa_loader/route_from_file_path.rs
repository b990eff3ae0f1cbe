//! Conversion from the file path to a route.

use crate::text::{strip_suffix, without_suffix};
use std::path::PathBuf;
use vstd::prelude::*;
use vstd::string::StringExecFns;

verus! {

/// `std::path::PathBuf`: a path, carried through as it is. Its text is known by
/// [`path_text`] alone.
#[verifier::external_type_specification]
#[verifier::external_body]
pub struct ExPathBuf(PathBuf);

/// The text of a path, where the path is valid unicode.
pub uninterp spec fn path_text(path: PathBuf) -> Option<Seq<char>>;

/// An error that can occur while converting a file path to the route.
#[derive(Debug)]
pub enum RouteError {
    /// The provided file path is non-unicode.
    NonUnicode(PathBuf),
}

/// The file name that stands for the directory that holds it.
pub open spec fn index_file() -> Seq<char> {
    "index.html"@
}

/// The route of a file whose path below the root directory reads `path`.
pub open spec fn route_of(path: Seq<char>) -> Seq<char> {
    "/"@ + without_suffix(without_suffix(path, index_file()), "/"@)
}

/// `Path::to_str`: the path as text, which exists exactly where the path is valid unicode.
#[verifier::external_body]
fn path_to_str(path: &PathBuf) -> (r: Option<&str>)
    ensures
        match r {
            Some(text) => path_text(*path) == Some(text@),
            None => path_text(*path) is None,
        },
{
    path.to_str()
}

/// `PathBuf::clone`: an owned copy of the path.
#[verifier::external_body]
pub(crate) fn path_clone(path: &PathBuf) -> (r: PathBuf)
    ensures
        r == *path,
{
    path.clone()
}

/// Get a route from the text of a file path.
pub fn route_from_text(text: &str) -> (route: String)
    ensures
        route@ == route_of(text@),
{
    let mut route = text;
    if let Some(stripped) = strip_suffix(route, "index.html") {
        route = stripped;
    }
    if let Some(stripped) = strip_suffix(route, "/") {
        route = stripped;
    }
    String::from_str("/").concat(route)
}

/// Get a route from the file path.
pub fn convert(file_path: &PathBuf) -> (r: Result<String, RouteError>)
    ensures
        match r {
            Ok(route) => path_text(*file_path) is Some && route@ == route_of(
                path_text(*file_path).unwrap(),
            ),
            Err(RouteError::NonUnicode(path)) => path_text(*file_path) is None && path == *file_path,
        },
{
    match path_to_str(file_path) {
        Some(text) => Ok(route_from_text(text)),
        None => Err(RouteError::NonUnicode(path_clone(file_path))),
    }
}

/// Every route begins with a slash.
pub proof fn route_starts_with_slash(path: Seq<char>)
    ensures
        route_of(path).len() >= 1,
        route_of(path)[0] == '/',
{
    reveal_strlit("/");
}

} // verus!
