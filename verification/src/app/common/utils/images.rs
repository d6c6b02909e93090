use vstd::prelude::*;

use crate::text::{chars_of, string_from_chars};
use crate::app::common::utils::flashcards::append_str;

verus! {

broadcast use vstd::string::group_string_axioms;

/// The application id, the name of its directory under the data directory.
pub const APP_ID: &'static str = "dev.mariinkys.Oboete";

/// Whether the path `path` starts with the path `base`, component by
/// component, as `Path::starts_with` of std decides.
pub uninterp spec fn path_starts_with(path: Seq<char>, base: Seq<char>) -> bool;

/// `Path::new(path).starts_with(base)` (std): whether the components of
/// `base` are the first components of `path`. The result is named; a path is
/// claimed to start with itself.
#[verifier::external_body]
fn starts_with_path(path: &str, base: &str) -> (b: bool)
    ensures
        b == path_starts_with(path@, base@),
        path@ == base@ ==> b,
{
    std::path::Path::new(path).starts_with(base)
}

/// The user's data directory, `dirs::data_dir()` of the dirs crate, as a
/// string (lossy for a path that is not UTF-8). It depends on the platform
/// and the environment, so nothing is claimed of it.
#[verifier::external_body]
fn data_dir_path() -> (d: Option<String>) {
    dirs::data_dir().map(|p| p.to_string_lossy().to_string())
}

/// The user's data directory, when the platform has one.
pub fn current_data_dir() -> (d: Option<String>) {
    data_dir_path()
}

/// `base` joined with a relative path `component`, as `Path::join` does on
/// Unix: a separator is put between them unless `base` is empty or already
/// ends with one.
pub open spec fn join_spec(base: Seq<char>, component: Seq<char>) -> Seq<char> {
    if base.len() == 0 || base.last() == '/' {
        base + component
    } else {
        base + seq!['/'] + component
    }
}

/// `base` joined with the relative path `component`.
pub fn join_path(base: &str, component: &str) -> (p: String)
    ensures
        p@ == join_spec(base@, component@),
{
    let mut out = chars_of(base);
    if out.len() > 0 && out[out.len() - 1] == '/' {
        append_str(&mut out, component);
    } else if out.len() > 0 {
        out.push('/');
        append_str(&mut out, component);
    } else {
        append_str(&mut out, component);
    }
    string_from_chars(out.as_slice())
}

/// The directory that saved images go to: `<data dir>/<app id>/images`.
pub open spec fn images_dir_spec(data_dir: Seq<char>) -> Seq<char> {
    join_spec(join_spec(data_dir, APP_ID@), "images"@)
}

/// The directory that saved images go to, under the given data directory.
pub fn images_dir(data_dir: &str) -> (p: String)
    ensures
        p@ == images_dir_spec(data_dir@),
{
    let app = join_path(data_dir, APP_ID);
    join_path(app.as_str(), "images")
}

/// Whether an image path lies in the directory of saved images, for the
/// given data directory (never, without one).
pub open spec fn is_saved_image_path(image_path: Seq<char>, data_dir: Option<Seq<char>>) -> bool {
    match data_dir {
        Some(d) => path_starts_with(image_path, images_dir_spec(d)),
        None => false,
    }
}

/// The views of an optional string.
pub open spec fn opt_view(s: Option<String>) -> Option<Seq<char>> {
    match s {
        Some(t) => Some(t@),
        None => None,
    }
}

/// Returns true if the path is an image already saved in the Oboete
/// directory under the given data directory.
pub fn check_path_in(image_path: &String, data_dir: &Option<String>) -> (b: bool)
    ensures
        b == is_saved_image_path(image_path@, opt_view(*data_dir)),
{
    match data_dir {
        Some(d) => {
            let dir = images_dir(d.as_str());
            starts_with_path(image_path.as_str(), dir.as_str())
        },
        None => false,
    }
}

/// Returns true if the path is an image already saved in the Oboete
/// directory of the user's data directory.
pub fn check_path(image_path: &String) -> (b: bool)
    ensures
        exists|d: Option<Seq<char>>| b == is_saved_image_path(image_path@, d),
{
    let d = current_data_dir();
    check_path_in(image_path, &d)
}

/// A fresh random UUID v4 in hyphenated form (`uuid::Uuid::new_v4()` of the
/// uuid crate, displayed): it is random, so only its length, 36 characters,
/// is claimed.
#[verifier::external_body]
fn new_uuid() -> (s: String)
    ensures
        s@.len() == 36,
{
    uuid::Uuid::new_v4().to_string()
}

/// What `Path::extension` of std gives for a path, as text.
pub uninterp spec fn extension_of(path: Seq<char>) -> Option<Seq<char>>;

/// `Path::new(path).extension()` (std), as text: the part of the file name
/// after its last `.`, unless the name has no `.` besides a leading one. The
/// result is named.
#[verifier::external_body]
fn path_extension(path: &str) -> (e: Option<String>)
    ensures
        opt_view(e) == extension_of(path@),
{
    std::path::Path::new(path).extension().and_then(|ext| ext.to_str()).map(|ext| ext.to_string())
}

/// A new file name for a saved copy of the image at `image_path`: a random
/// UUID, a dot and the image's extension; `None` when the path has no
/// extension.
pub fn new_image_file_name(image_path: &str) -> (name: Option<String>)
    ensures
        name is None <==> extension_of(image_path@) is None,
        name matches Some(n) ==> exists|u: Seq<char>|
            u.len() == 36 && n@ == u + "."@ + extension_of(image_path@)->0,
{
    match path_extension(image_path) {
        None => None,
        Some(ext) => {
            let id = new_uuid();
            let mut out = chars_of(id.as_str());
            append_str(&mut out, ".");
            append_str(&mut out, ext.as_str());
            Some(string_from_chars(out.as_slice()))
        },
    }
}

} // verus!
