//! What the pipeline reads off a path: the extension of the source, and the
//! directory and file stem of the output, from which the debug blob has its
//! place and its name.

use crate::toolchain::is_cpp_extension;
use crate::toolchain::is_cpp_extension_spec;
use vstd::prelude::*;

verus! {

/// The extension of the file that `path` names, by the path syntax of the
/// platform: what `Path::extension` returns for it.
pub uninterp spec fn path_extension(path: Seq<char>) -> Option<Seq<char>>;

/// The stem of the file that `path` names, by the path syntax of the
/// platform: what `Path::file_stem` returns for it.
pub uninterp spec fn path_file_stem(path: Seq<char>) -> Option<Seq<char>>;

/// The path that names `name` in the directory of the file that `path` names,
/// by the path syntax of the platform: what `Path::with_file_name` returns for
/// them.
pub uninterp spec fn path_with_file_name(path: Seq<char>, name: Seq<char>) -> Seq<char>;

/// Calls `Path::extension` of std on `path`. Nothing is stated of the result
/// but that it is the extension of this path.
#[verifier::external_body]
fn extension_of(path: &str) -> (r: Option<String>)
    ensures
        match r {
            Some(extension) => path_extension(path@) == Some(extension@),
            None => path_extension(path@) is None,
        },
{
    match std::path::Path::new(path).extension() {
        Some(extension) => Some(extension.to_string_lossy().into_owned()),
        None => None,
    }
}

/// Calls `Path::file_stem` of std on `path`. Nothing is stated of the result
/// but that it is the file stem of this path.
#[verifier::external_body]
fn file_stem_of(path: &str) -> (r: Option<String>)
    ensures
        match r {
            Some(stem) => path_file_stem(path@) == Some(stem@),
            None => path_file_stem(path@) is None,
        },
{
    match std::path::Path::new(path).file_stem() {
        Some(stem) => Some(stem.to_string_lossy().into_owned()),
        None => None,
    }
}

/// Calls `Path::with_file_name` of std on `path` and `name`. Nothing is
/// stated of the result but that it is this path with its file name replaced
/// by this name.
#[verifier::external_body]
fn with_file_name(path: &str, name: &str) -> (r: String)
    ensures
        r@ == path_with_file_name(path@, name@),
{
    std::path::Path::new(path).with_file_name(name).to_string_lossy().into_owned()
}

/// Whether a source with this extension, or with none, is compiled as C++.
pub open spec fn is_cpp(extension: Option<Seq<char>>) -> bool {
    match extension {
        Some(extension) => is_cpp_extension_spec(extension),
        None => false,
    }
}

/// Whether the source at `path` is compiled as C++: whether its extension is
/// one of the C++ extensions.
pub fn is_cpp_source(path: &str) -> (r: bool)
    ensures
        r == is_cpp(path_extension(path@)),
{
    match extension_of(path) {
        Some(extension) => is_cpp_extension(extension.as_str()),
        None => false,
    }
}

/// The name of the debug blob that goes with an output of this file stem:
/// the stem, or nothing where there is none, and `.debug.pvm`.
pub open spec fn debug_name(stem: Option<Seq<char>>) -> Seq<char> {
    (match stem {
        Some(stem) => stem,
        None => Seq::empty(),
    }) + ".debug.pvm"@
}

/// The name of the debug blob that goes with an output of this file stem.
pub fn debug_artifact_name(stem: Option<&str>) -> (r: String)
    ensures
        r@ == debug_name(
            match stem {
                Some(stem) => Some(stem@),
                None => None,
            },
        ),
{
    let name = match stem {
        Some(stem) => String::from_str(stem),
        None => String::new(),
    };
    name.concat(".debug.pvm")
}

/// The path of the debug blob that goes with the output at `output`: beside
/// the output, in its directory, under the name that `debug_name` makes of
/// the output's file stem.
pub open spec fn debug_path(output: Seq<char>) -> Seq<char> {
    path_with_file_name(output, debug_name(path_file_stem(output)))
}

/// The path of the debug blob that goes with the output at `output`. The
/// debug blob is a sibling of the deployment blob: it has the output's
/// directory, and the output's file stem with `.debug.pvm` for a name.
pub fn debug_artifact_path(output: &str) -> (r: String)
    ensures
        r@ == debug_path(output@),
{
    let name = match file_stem_of(output) {
        Some(stem) => debug_artifact_name(Some(stem.as_str())),
        None => debug_artifact_name(None),
    };
    with_file_name(output, name.as_str())
}

} // verus!
