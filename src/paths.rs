use vstd::prelude::*;
use vstd::string::StringExecFns;

use crate::error::{ConversionError, Result};

verus! {

/// The file name of a path without its extension, as `Path::file_stem` gives
/// it; `None` where the path ends in no file name.
pub uninterp spec fn stem_of(path: Seq<char>) -> Option<Seq<char>>;

/// The path without its final component, as `Path::parent` gives it; `None`
/// where the path is a root or empty of components.
pub uninterp spec fn parent_of(path: Seq<char>) -> Option<Seq<char>>;

/// The path `name` placed under the directory `dir`, as `Path::join` gives it.
pub uninterp spec fn joined_path(dir: Seq<char>, name: Seq<char>) -> Seq<char>;

/// Relies on `Path::file_stem`. The stem of a UTF-8 path is UTF-8, since the
/// path is cut only at ASCII separators and dots.
#[verifier::external_body]
fn file_stem(path: &str) -> (r: Option<String>)
    ensures
        r is Some <==> stem_of(path@) is Some,
        r matches Some(x) ==> stem_of(path@) == Some(x@),
{
    std::path::Path::new(path).file_stem().map(|x| x.to_string_lossy().into_owned())
}

/// Relies on `Path::parent`. A parent of a UTF-8 path is a prefix of it, so
/// it is UTF-8.
#[verifier::external_body]
fn parent_dir(path: &str) -> (r: Option<String>)
    ensures
        r is Some <==> parent_of(path@) is Some,
        r matches Some(x) ==> parent_of(path@) == Some(x@),
{
    std::path::Path::new(path).parent().map(|x| x.to_string_lossy().into_owned())
}

/// Relies on `Path::join` on two UTF-8 paths, whose result is UTF-8.
#[verifier::external_body]
fn join_path(dir: &str, name: &str) -> (r: String)
    ensures
        r@ == joined_path(dir@, name@),
{
    std::path::Path::new(dir).join(name).to_string_lossy().into_owned()
}

/// The extension given to every output file.
pub open spec fn parquet_extension() -> Seq<char> {
    seq!['.', 'p', 'a', 'r', 'q', 'u', 'e', 't']
}

/// The name of the output file for an input whose stem is `stem`.
pub fn output_file_name(stem: &str) -> (r: String)
    ensures
        r@ == stem@ + parquet_extension(),
{
    proof {
        reveal_strlit(".parquet");
    }
    assert(".parquet"@ =~= parquet_extension());
    String::from_str(stem).concat(".parquet")
}

/// The characters of an optional directory.
pub open spec fn dir_view(d: Option<&str>) -> Option<Seq<char>> {
    match d {
        Some(x) => Some(x@),
        None => None,
    }
}

/// The directory the output goes to: `output_dir` where one is given, else
/// the input's own directory, else none (the bare file name is used).
pub open spec fn output_dir_of(input: Seq<char>, output_dir: Option<Seq<char>>) -> Option<Seq<char>> {
    match output_dir {
        Some(d) => Some(d),
        None => parent_of(input),
    }
}

/// Where the output of converting `input` goes: the input's stem with the
/// extension `.parquet`, in `output_dir` if given, else beside the input.
pub open spec fn output_path_of(input: Seq<char>, output_dir: Option<Seq<char>>) -> Option<Seq<char>> {
    match stem_of(input) {
        None => None,
        Some(stem) => {
            let name = stem + parquet_extension();
            match output_dir_of(input, output_dir) {
                Some(d) => Some(joined_path(d, name)),
                None => Some(name),
            }
        },
    }
}

/// The path of the Parquet file for the CSV file `input`; fails with
/// `InvalidInputFilename` exactly when `input` ends in no file name.
pub fn determine_output_path(input: &str, output_dir: Option<&str>) -> (r: Result<String>)
    ensures
        match output_path_of(input@, dir_view(output_dir)) {
            Some(p) => r matches Ok(x) && x@ == p,
            None => r matches Err(ConversionError::InvalidInputFilename),
        },
{
    let stem = match file_stem(input) {
        Some(stem) => stem,
        None => return Err(ConversionError::InvalidInputFilename),
    };
    let name = output_file_name(stem.as_str());
    match output_dir {
        Some(dir) => Ok(join_path(dir, name.as_str())),
        None => match parent_dir(input) {
            Some(parent) => Ok(join_path(parent.as_str(), name.as_str())),
            None => Ok(name),
        },
    }
}

} // verus!
