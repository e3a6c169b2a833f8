use vstd::prelude::*;

verus! {

/// Whether the path written as `path` has an extension, as
/// `std::path::Path::extension` decides it.
pub uninterp spec fn path_extension_present(path: Seq<char>) -> bool;

/// The path written as `path` with its extension set to `json`, as
/// `std::path::Path::with_extension` makes it.
pub uninterp spec fn path_with_json_extension(path: Seq<char>) -> Seq<char>;

/// The last component of `path` holds no `.`: the path does not end in `/`
/// and every `.` in it has a `/` somewhere after it, so every `.` stands in a
/// directory name.
pub open spec fn no_dot_in_last_component(path: Seq<char>) -> bool {
    &&& (path.len() == 0 || path.last() != '/')
    &&& forall|i: int|
        0 <= i < path.len() && #[trigger] path[i] == '.' ==> exists|j: int|
            i < j < path.len() && path[j] == '/'
}

/// Whether `path` has an extension.
///
/// Calls `Path::extension` and tells `Some` from `None`; the answer is
/// named by `path_extension_present` and depends on `path` alone. Its
/// documentation: the extension is `None` when there is no file name or the
/// file name has no embedded `.`; the file name is the final component, which
/// lies after the last `/` when the path does not end in `/`. So a path
/// whose last component holds no `.` has no extension.
#[verifier::external_body]
fn has_extension(path: &str) -> (res: bool)
    ensures
        res == path_extension_present(path@),
        no_dot_in_last_component(path@) ==> !res,
{
    std::path::Path::new(path).extension().is_some()
}

/// `path` with its extension set to `json`.
///
/// Calls `Path::with_extension` with the extension `json`, which holds no
/// path separator, so the call does not panic; the result is named by
/// `path_with_json_extension` and depends on `path` alone. It is made of
/// the characters of `path` and of `json`, so the conversion back to text
/// loses nothing.
#[verifier::external_body]
fn with_json_extension(path: &str) -> (res: String)
    ensures
        res@ == path_with_json_extension(path@),
{
    std::path::Path::new(path).with_extension("json").to_string_lossy().into_owned()
}

/// The file a vote is written to: the path as given when it has an
/// extension, else the path with the extension `json`.
pub open spec fn json_file_path_of(path: Seq<char>) -> Seq<char> {
    if path_extension_present(path) {
        path
    } else {
        path_with_json_extension(path)
    }
}

/// The file a vote is written to, once it is known whether `path` has an
/// extension: `path` itself when it has one, else `path` with the
/// extension `json`.
pub fn json_file_path_given(path: &str, extension_present: bool) -> (res: String)
    ensures
        res@ == (if extension_present {
            path@
        } else {
            path_with_json_extension(path@)
        }),
{
    if extension_present {
        path.to_string()
    } else {
        with_json_extension(path)
    }
}

/// The file a vote is written to: `path` itself when it has an extension,
/// else `path` with the extension `json`.
pub fn json_file_path(path: &str) -> (res: String)
    ensures
        res@ == json_file_path_of(path@),
        no_dot_in_last_component(path@) ==> res@ == path_with_json_extension(path@),
{
    let present = has_extension(path);
    json_file_path_given(path, present)
}

/// The vote file follows `Path::extension` alone: a path that has an
/// extension is kept as given, and a path that has none gets the extension
/// `json`, whatever dots its directory names hold.
pub proof fn law_vote_file_follows_extension(path: Seq<char>)
    ensures
        path_extension_present(path) ==> json_file_path_of(path) == path,
        !path_extension_present(path) ==> json_file_path_of(path) == path_with_json_extension(path),
{
}

} // verus!
