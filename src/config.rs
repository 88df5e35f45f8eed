use vstd::prelude::*;

use crate::error::{AppError, AppResult};
use crate::path::{extension, extension_of, file_name, file_name_of, replace_extension, with_extension};

verus! {

/// The configuration that a new game gets: where it is written and what it
/// holds.
#[derive(Debug, Clone, PartialEq, Eq)]
pub struct GameConfig {
    pub path: String,
    pub contents: String,
}

/// An entry of the directory of style sheets.
#[derive(Debug, Clone, PartialEq, Eq)]
pub struct DirEntry {
    pub path: String,
    pub name: Option<String>,
}

/// A DOSBox configuration that mounts the game's directory as drive C and
/// runs `program` there.
pub open spec fn config_text(program: Seq<char>) -> Seq<char> {
    "[autoexec]\n@ECHO OFF\nMOUNT C .\nC:\nCLS\n"@ + program + "\nEXIT"@
}

/// The names of the entries that are style sheets, in the order of the
/// entries.
pub open spec fn style_sheet_names(entries: Seq<DirEntry>) -> Seq<Seq<char>>
    decreases entries.len(),
{
    if entries.len() == 0 {
        Seq::empty()
    } else {
        let rest = style_sheet_names(entries.drop_last());
        let last = entries.last();
        if extension_of(last.path@) == Some("css"@) && last.name is Some {
            rest.push(last.name->Some_0@)
        } else {
            rest
        }
    }
}

/// The pattern that finds the titles containing `search`.
pub open spec fn title_pattern(search: Seq<char>) -> Seq<char> {
    "%"@ + search + "%"@
}

/// The configuration for the game whose program is `executable_path`: a
/// `.conf` file beside the program that starts it.
pub fn game_config(executable_path: &str) -> (r: AppResult<GameConfig>)
    ensures
        match file_name_of(executable_path@) {
            Some(name) => r matches Ok(c) && c.path@ == with_extension(executable_path@, "conf"@)
                && c.contents@ == config_text(name),
            None => r == Err::<GameConfig, AppError>(AppError::InvalidConfigPath),
        },
{
    let name = match file_name(executable_path) {
        Some(name) => name,
        None => return Err(AppError::InvalidConfigPath),
    };
    proof {
        reveal_strlit("conf");
    }
    let path = replace_extension(executable_path, "conf");
    let mut contents = "[autoexec]\n@ECHO OFF\nMOUNT C .\nC:\nCLS\n".to_owned();
    contents.append(&name);
    contents.append("\nEXIT");
    Ok(GameConfig { path, contents })
}

/// The names of the style sheets among the entries of their directory.
pub fn theme_filenames(entries: &Vec<DirEntry>) -> (r: Vec<String>)
    ensures
        r@.map_values(|s: String| s@) == style_sheet_names(entries@),
{
    let css = "css".to_owned();
    let mut r: Vec<String> = Vec::new();
    let mut i: usize = 0;
    while i < entries.len()
        invariant
            i <= entries@.len(),
            css@ == "css"@,
            r@.map_values(|s: String| s@) == style_sheet_names(entries@.take(i as int)),
        decreases entries@.len() - i,
    {
        let entry = &entries[i];
        assert(entries@.take(i + 1).drop_last() =~= entries@.take(i as int));
        assert(entries@.take(i + 1).last() == entries@[i as int]);
        let is_style_sheet = match extension(&entry.path) {
            Some(ext) => ext == css,
            None => false,
        };
        if is_style_sheet {
            match &entry.name {
                Some(name) => {
                    r.push(name.clone());
                    assert(r@.map_values(|s: String| s@) =~= style_sheet_names(
                        entries@.take(i as int),
                    ).push(name@));
                },
                None => {},
            }
        }
        i = i + 1;
    }
    assert(entries@.take(entries@.len() as int) =~= entries@);
    r
}

/// The pattern that selects the games whose title contains `search`.
pub fn search_pattern(search: &str) -> (r: String)
    ensures
        r@ == title_pattern(search@),
{
    let mut r = "%".to_owned();
    r.append(search);
    r.append("%");
    r
}

} // verus!
