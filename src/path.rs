use std::path::Path;
use std::path::PathBuf;
use vstd::prelude::*;

use crate::error::{AppError, AppResult};

verus! {

/// The operating system the launcher was built for, as far as the layout of
/// its files depends on it.
#[derive(Debug, Clone, Copy, PartialEq, Eq, Structural)]
pub enum Platform {
    Linux,
    Other,
}

/// The path that joining `path` onto `base` gives.
pub uninterp spec fn joined(base: Seq<char>, path: Seq<char>) -> Seq<char>;

/// A path in its most widely understood spelling.
pub uninterp spec fn simplified(path: Seq<char>) -> Seq<char>;

/// The directory that holds `path`, where it has one.
pub uninterp spec fn parent_of(path: Seq<char>) -> Option<Seq<char>>;

/// The last component of `path`, where it names a file or directory.
pub uninterp spec fn file_name_of(path: Seq<char>) -> Option<Seq<char>>;

/// The position of the last `.` in `name`, or -1 where there is none.
pub open spec fn last_dot(name: Seq<char>) -> int
    decreases name.len(),
{
    if name.len() == 0 {
        -1
    } else if name.last() == '.' {
        name.len() - 1
    } else {
        last_dot(name.drop_last())
    }
}

/// The extension of a file name: what follows its last `.`, where that `.`
/// is not the name's first character; none otherwise.
pub open spec fn name_extension(name: Seq<char>) -> Option<Seq<char>> {
    if last_dot(name) <= 0 {
        None
    } else {
        Some(name.subrange(last_dot(name) + 1, name.len() as int))
    }
}

/// The extension of the file that `path` names, where it has one.
pub open spec fn extension_of(path: Seq<char>) -> Option<Seq<char>> {
    match file_name_of(path) {
        Some(name) => name_extension(name),
        None => None,
    }
}

/// Whether `text` holds no path separator.
pub open spec fn no_separator(text: Seq<char>) -> bool {
    forall|i: int| 0 <= i < text.len() ==> text[i] != '/' && text[i] != '\\'
}

/// `path` with the extension of its file replaced by `extension`.
pub uninterp spec fn with_extension(path: Seq<char>, extension: Seq<char>) -> Seq<char>;

/// The path that leads from `base` to `path`, where there is one.
pub uninterp spec fn relative_path(path: Seq<char>, base: Seq<char>) -> Option<Seq<char>>;

/// Relies on std's `Path::join`: the joined path, which depends on the two
/// paths alone.
#[verifier::external_body]
pub(crate) fn join(base: &str, path: &str) -> (r: String)
    ensures
        r@ == joined(base@, path@),
{
    Path::new(base).join(path).to_string_lossy().into_owned()
}

/// Relies on `dunce::simplified`: the path with a removable verbatim prefix
/// taken off, which depends on the path alone.
#[verifier::external_body]
fn simplify(path: &str) -> (r: String)
    ensures
        r@ == simplified(path@),
{
    dunce::simplified(Path::new(path)).to_string_lossy().into_owned()
}

/// Relies on std's `Path::parent`: the enclosing directory, if any.
#[verifier::external_body]
pub(crate) fn parent(path: &str) -> (r: Option<String>)
    ensures
        match r {
            Some(p) => parent_of(path@) == Some(p@),
            None => parent_of(path@) is None,
        },
{
    Path::new(path).parent().map(|p| p.to_string_lossy().into_owned())
}

/// Relies on std's `Path::file_name`: the final component, if it names a
/// file or directory.
#[verifier::external_body]
pub(crate) fn file_name(path: &str) -> (r: Option<String>)
    ensures
        match r {
            Some(n) => file_name_of(path@) == Some(n@),
            None => file_name_of(path@) is None,
        },
{
    Path::new(path).file_name().map(|n| n.to_string_lossy().into_owned())
}

/// Relies on std's `Path::extension`: none where there is no file name, no
/// `.` in it, or only a leading one; otherwise what follows the last `.`.
#[verifier::external_body]
pub(crate) fn extension(path: &str) -> (r: Option<String>)
    ensures
        match r {
            Some(e) => extension_of(path@) == Some(e@),
            None => extension_of(path@) is None,
        },
{
    Path::new(path).extension().map(|e| e.to_string_lossy().into_owned())
}

/// Relies on std's `PathBuf::set_extension`: the path with its extension
/// replaced. It panics on an extension that holds a path separator.
#[verifier::external_body]
pub(crate) fn replace_extension(path: &str, ext: &str) -> (r: String)
    requires
        no_separator(ext@),
    ensures
        r@ == with_extension(path@, ext@),
{
    let mut buf = PathBuf::from(path);
    buf.set_extension(ext);
    buf.to_string_lossy().into_owned()
}

/// Relies on `pathdiff::diff_paths`: the relative path from `base` to
/// `path`, if one exists.
#[verifier::external_body]
fn diff_paths(path: &str, base: &str) -> (r: Option<String>)
    ensures
        match r {
            Some(d) => relative_path(path@, base@) == Some(d@),
            None => relative_path(path@, base@) is None,
        },
{
    pathdiff::diff_paths(path, base).map(|d| d.to_string_lossy().into_owned())
}

/// Where a path relative to the launcher's directory lies.
pub open spec fn resolved(exe_dir: Seq<char>, path: Seq<char>) -> Seq<char> {
    simplified(joined(exe_dir, path))
}

/// The directory of the running launcher, given the path of its executable.
pub fn exe_dir(exe_path: &str) -> (r: Option<String>)
    ensures
        match parent_of(exe_path@) {
            Some(dir) => r matches Some(d) && d@ == simplified(dir),
            None => r is None,
        },
{
    match parent(exe_path) {
        Some(dir) => Some(simplify(&dir)),
        None => None,
    }
}

/// Resolves `path` against the launcher's directory `exe_dir`.
pub fn resolve_relative_path(exe_dir: &str, path: &str) -> (r: String)
    ensures
        r@ == resolved(exe_dir@, path@),
{
    simplify(&join(exe_dir, path))
}

/// The settings file.
pub fn settings_file(exe_dir: &str) -> (r: String)
    ensures
        r@ == resolved(exe_dir@, "settings.json"@),
{
    resolve_relative_path(exe_dir, "settings.json")
}

/// The base DOSBox configuration that every game's own configuration
/// refines.
pub fn base_config_file(exe_dir: &str) -> (r: String)
    ensures
        r@ == resolved(exe_dir@, "base.conf"@),
{
    resolve_relative_path(exe_dir, "base.conf")
}

/// The directory of style sheets.
pub fn themes_dir(exe_dir: &str) -> (r: String)
    ensures
        r@ == resolved(exe_dir@, "themes"@),
{
    resolve_relative_path(exe_dir, "themes")
}

/// The directory where games are installed.
pub fn games_dir(exe_dir: &str) -> (r: String)
    ensures
        r@ == resolved(exe_dir@, "games"@),
{
    resolve_relative_path(exe_dir, "games")
}

/// The database file.
pub fn database_file(exe_dir: &str) -> (r: String)
    ensures
        r@ == resolved(exe_dir@, "db.sqlite"@),
{
    resolve_relative_path(exe_dir, "db.sqlite")
}

/// Where the DOSBox executable lies relative to the launcher on `platform`.
pub open spec fn dosbox_relative_path(platform: Platform) -> Seq<char> {
    match platform {
        Platform::Linux => "dosbox/dosbox"@,
        Platform::Other => "dosbox\\dosbox.exe"@,
    }
}

/// Where the DOSBox executable is expected on `platform`.
pub fn dosbox_exe_path(exe_dir: &str, platform: Platform) -> (r: String)
    ensures
        r@ == resolved(exe_dir@, dosbox_relative_path(platform)),
{
    match platform {
        Platform::Linux => resolve_relative_path(exe_dir, "dosbox/dosbox"),
        Platform::Other => resolve_relative_path(exe_dir, "dosbox\\dosbox.exe"),
    }
}

/// The DOSBox executable at `path`, which is usable only where a file is
/// there.
pub fn dosbox_exe_file(path: String, exists: bool) -> (r: AppResult<String>)
    ensures
        exists ==> r == Ok::<String, AppError>(path),
        !exists ==> r == Err::<String, AppError>(AppError::DOSBoxExeNotFound),
{
    if exists {
        Ok(path)
    } else {
        Err(AppError::DOSBoxExeNotFound)
    }
}

/// The path from the launcher's directory to `path`, where there is one.
pub fn make_relative_path(path: &str, exe_dir: &str) -> (r: Option<String>)
    ensures
        match relative_path(path@, exe_dir@) {
            Some(rel) => r matches Some(d) && d@ == rel,
            None => r is None,
        },
{
    diff_paths(path, exe_dir)
}

/// The file of the style sheet `filename`.
pub fn theme_file(exe_dir: &str, filename: &str) -> (r: String)
    ensures
        r@ == joined(resolved(exe_dir@, "themes"@), filename@),
{
    join(&themes_dir(exe_dir), filename)
}

} // verus!
