//! Where the launcher keeps and looks for its files.
//!
//! A path is modelled by the bytes of its text in the platform's encoding, which holds the UTF-8
//! form of every path that was written as a string. How paths are taken apart and put together is
//! the rule of the platform that the launcher is built for.

use std::path::{Path, PathBuf};

use vstd::prelude::*;

use crate::models::{GAME_EXECUTABLE, MOD_RELATIVE_PATH};

verus! {

/// The folder, in the installation folder, that holds the launcher's own files.
pub const STATE_FOLDER: &'static str = ".sunrise";

/// The file, in the state folder, that describes the installation.
pub const STATE_FILE: &'static str = "install-state.json";

/// The file, in the application data folder, that holds the preferences.
pub const PREFERENCES_FILE: &'static str = "preferences.json";

/// `std::path::Path`, carried through as it is.
#[verifier::external_type_specification]
#[verifier::external_body]
pub struct ExPath(Path);

/// `std::path::PathBuf`, carried through as it is.
#[verifier::external_type_specification]
#[verifier::external_body]
pub struct ExPathBuf(PathBuf);

/// The encoded bytes of a borrowed path.
pub uninterp spec fn path_bytes(path: &Path) -> Seq<u8>;

/// The encoded bytes of an owned path.
pub uninterp spec fn path_buf_bytes(path: PathBuf) -> Seq<u8>;

/// What `Path::join` makes of the path `base` and the text `part`.
pub uninterp spec fn joined(base: Seq<u8>, part: Seq<char>) -> Seq<u8>;

/// What `Path::parent` makes of `path`.
pub uninterp spec fn parent_of(path: Seq<u8>) -> Option<Seq<u8>>;

/// The final component of `path`, as `Path::file_name` finds it.
pub uninterp spec fn file_name_of(path: Seq<u8>) -> Option<Seq<u8>>;

/// The text of `path` as `Path::to_string_lossy` writes it.
pub uninterp spec fn lossy_text_of(path: Seq<u8>) -> Seq<char>;

/// The text of a path, if it is valid Unicode.
pub open spec fn unicode_text(path: Seq<u8>) -> Option<Seq<char>> {
    if vstd::utf8::valid_utf8(path) {
        Some(vstd::utf8::decode_utf8(path))
    } else {
        None
    }
}

/// `part` is the text of a relative path to a file: it begins with a dot and ends with a letter.
pub open spec fn is_dotted_file(part: Seq<char>) -> bool {
    &&& part.len() > 0
    &&& part.first() == '.'
    &&& ('a' <= part.last() <= 'z' || 'A' <= part.last() <= 'Z')
}

/// `name` is what `part` holds from its beginning, or from behind a separator, to its end.
pub open spec fn is_end_of(name: Seq<u8>, part: Seq<char>) -> bool {
    exists|start: int|
        0 <= start < part.len() && (start == 0 || part[start - 1] == '/' || part[start - 1] == '\\')
            && name == vstd::utf8::encode_utf8(#[trigger] part.skip(start))
}

/// If `path` has a parent and `part`, which was joined to something to make it, is the path of a
/// file, then the final component of `path` is that of `part`.
pub open spec fn brings_its_name(path: Seq<u8>, part: Seq<char>) -> bool {
    parent_of(path) is Some && is_dotted_file(part) ==> match file_name_of(path) {
        Some(name) => is_end_of(name, part),
        None => false,
    }
}

/// `Path::join`: the path of `part` below `base`, as `joined` names it. Where the path that is made
/// has a parent, and so ends with a component that can be taken off, the path of a file that was
/// joined brings its own final component with it. Of a path without a parent, such as one that is
/// nothing but a Windows prefix, no more is said.
#[verifier::external_body]
pub(crate) fn join(base: &Path, part: &str) -> (path: PathBuf)
    ensures
        path_buf_bytes(path) == joined(path_bytes(base), part@),
        brings_its_name(path_buf_bytes(path), part@),
{
    base.join(part)
}

/// `Path::parent`: the path without its final component, as `parent_of` names it.
#[verifier::external_body]
pub(crate) fn parent(path: &Path) -> (folder: Option<&Path>)
    ensures
        match folder {
            Some(folder) => parent_of(path_bytes(path)) == Some(path_bytes(folder)),
            None => parent_of(path_bytes(path)) is None,
        },
{
    path.parent()
}

/// `Path::file_name`: the final component of the path, as `file_name_of` names it.
#[verifier::external_body]
pub(crate) fn file_name(path: &Path) -> (name: Option<&Path>)
    ensures
        match name {
            Some(name) => file_name_of(path_bytes(path)) == Some(path_bytes(name)),
            None => file_name_of(path_bytes(path)) is None,
        },
{
    Some(Path::new(path.file_name()?))
}

/// `Path::to_str`: the path's text, if the path is valid Unicode.
#[verifier::external_body]
pub(crate) fn to_str(path: &Path) -> (text: Option<&str>)
    ensures
        match text {
            Some(text) => unicode_text(path_bytes(path)) == Some(text@),
            None => unicode_text(path_bytes(path)) is None,
        },
{
    path.to_str()
}

/// `Path::to_string_lossy`: the path's text, with a replacement character for what is not valid
/// Unicode, as `lossy_text_of` names it. A path that was written as a string is given back as that
/// string.
#[verifier::external_body]
pub(crate) fn to_string_lossy(path: &Path) -> (text: String)
    ensures
        text@ == lossy_text_of(path_bytes(path)),
        forall|written: Seq<char>| #[trigger]
            vstd::utf8::encode_utf8(written) == path_bytes(path) ==> text@ == written,
{
    path.to_string_lossy().into_owned()
}

/// `PathBuf::from` on a string: the path whose text the string is.
#[verifier::external_body]
pub(crate) fn path_from(text: &str) -> (path: PathBuf)
    ensures
        path_buf_bytes(path) == vstd::utf8::encode_utf8(text@),
{
    PathBuf::from(text)
}

/// `Path::to_path_buf`: an owned copy of the path.
#[verifier::external_body]
pub(crate) fn to_path_buf(path: &Path) -> (owned: PathBuf)
    ensures
        path_buf_bytes(owned) == path_bytes(path),
{
    path.to_path_buf()
}

/// `PathBuf::as_path`: the same path, borrowed.
#[verifier::external_body]
pub(crate) fn as_path(path: &PathBuf) -> (borrowed: &Path)
    ensures
        path_bytes(borrowed) == path_buf_bytes(*path),
{
    path.as_path()
}

/// Where the game's executable lies in the installation folder `root`.
pub open spec fn game_location(root: Seq<u8>) -> Seq<u8> {
    joined(root, "destiny2.exe"@)
}

/// Where the installation state lies in the installation folder `root`.
pub open spec fn state_location(root: Seq<u8>) -> Seq<u8> {
    joined(joined(root, ".sunrise"@), "install-state.json"@)
}

/// Where the Sunrise DLL lies in the installation folder `root`.
pub open spec fn mod_location(root: Seq<u8>) -> Seq<u8> {
    joined(joined(joined(root, "bin"@), "x64"@), "steam_api64.dll"@)
}

/// Where the preferences lie in the application data folder `data_dir`.
pub open spec fn preferences_location(data_dir: Seq<u8>) -> Seq<u8> {
    joined(data_dir, "preferences.json"@)
}

/// `root` with the first `count` parts of the way to the Sunrise DLL joined to it.
spec fn mod_prefix(root: Seq<u8>, count: nat) -> Seq<u8>
    decreases count,
{
    if count == 0 {
        root
    } else {
        joined(mod_prefix(root, (count - 1) as nat), MOD_RELATIVE_PATH@[count - 1]@)
    }
}

/// The path of the game's executable in an installation folder.
pub fn game_path(install_root: &Path) -> (path: PathBuf)
    ensures
        path_buf_bytes(path) == game_location(path_bytes(install_root)),
{
    join(install_root, GAME_EXECUTABLE)
}

/// The path of the installation state in an installation folder.
pub fn state_path(install_root: &Path) -> (path: PathBuf)
    ensures
        path_buf_bytes(path) == state_location(path_bytes(install_root)),
{
    let folder = join(install_root, STATE_FOLDER);
    join(as_path(&folder), STATE_FILE)
}

/// The path of the Sunrise DLL in an installation folder.
pub fn mod_path(install_root: &Path) -> (path: PathBuf)
    ensures
        path_buf_bytes(path) == mod_location(path_bytes(install_root)),
{
    let mut path = to_path_buf(install_root);
    let mut count: usize = 0;
    while count < MOD_RELATIVE_PATH.len()
        invariant
            count <= MOD_RELATIVE_PATH@.len(),
            path_buf_bytes(path) == mod_prefix(path_bytes(install_root), count as nat),
        decreases MOD_RELATIVE_PATH@.len() - count,
    {
        path = join(as_path(&path), MOD_RELATIVE_PATH[count]);
        count = count + 1;
    }
    proof {
        reveal_with_fuel(mod_prefix, 4);
    }
    path
}

/// The path of the preferences in the application data folder.
pub fn preferences_path(data_dir: &Path) -> (path: PathBuf)
    ensures
        path_buf_bytes(path) == preferences_location(path_bytes(data_dir)),
{
    join(data_dir, PREFERENCES_FILE)
}

} // verus!
