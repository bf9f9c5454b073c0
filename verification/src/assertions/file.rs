//! File assertions: decisions over what the workspace holds.
//!
//! The workspace is read by the caller; these functions take what was read.

use crate::assertions::outcome;
use crate::text::{cat3, cat4, cat5, str_is_empty, has_substring, owned, str_contains, str_eq};
use vstd::prelude::*;

verus! {

/// What a workspace path names.
#[derive(Debug, Clone, Copy, PartialEq, Eq, Structural)]
pub enum EntryKind {
    /// Nothing exists at the path.
    Missing,
    /// A regular file (following symbolic links).
    File,
    /// A directory (following symbolic links).
    Dir,
    /// Something that is neither.
    Other,
}

/// What reading a workspace file gave.
pub enum FileRead {
    /// The file does not exist.
    Missing,
    /// The file exists but could not be read as text; the error's text.
    Unreadable(String),
    /// The file's text.
    Text(String),
}

/// What `check_workspace_file` answers.
pub open spec fn workspace_file_outcome(path: Seq<char>, kind: EntryKind, copy_error: Option<Seq<char>>) -> Result<
    (),
    Seq<char>,
> {
    if kind != EntryKind::File {
        Err("Workspace file '"@ + path + "' does not exist"@)
    } else {
        match copy_error {
            Some(e) => Err("Failed to copy '"@ + path + "' to output: "@ + e),
            None => Ok(()),
        }
    }
}

/// The text of an optional string.
pub open spec fn opt_view(s: Option<String>) -> Option<Seq<char>> {
    match s {
        Some(t) => Some(t@),
        None => None,
    }
}

/// Check that a workspace file exists, given what its path names and, where
/// it was copied to the output directory, the copy's error if it failed.
pub fn check_workspace_file(file_path: &str, kind: EntryKind, copy_error: Option<String>) -> (r: Result<
    (),
    String,
>)
    ensures
        outcome(r) == workspace_file_outcome(file_path@, kind, opt_view(copy_error)),
{
    if kind != EntryKind::File {
        return Err(cat3("Workspace file '", file_path, "' does not exist"));
    }
    match copy_error {
        Some(e) => Err(cat4("Failed to copy '", file_path, "' to output: ", e.as_str())),
        None => Ok(()),
    }
}

/// What `check_workspace_dir` answers: the first path that is not a
/// directory fails the check.
pub open spec fn workspace_dir_outcome(paths: Seq<Seq<char>>, kinds: Seq<EntryKind>) -> Result<
    (),
    Seq<char>,
>
    decreases paths.len(),
{
    if paths.len() == 0 || kinds.len() == 0 {
        Ok(())
    } else if kinds[0] != EntryKind::Dir {
        Err("Workspace directory '"@ + paths[0] + "' does not exist"@)
    } else {
        workspace_dir_outcome(paths.drop_first(), kinds.drop_first())
    }
}

/// The text of each string slice.
pub open spec fn path_views(paths: Seq<&str>) -> Seq<Seq<char>> {
    paths.map_values(|s: &str| s@)
}

/// Check that workspace directories exist, given what each path names.
pub fn check_workspace_dir(dir_paths: &[&str], kinds: &[EntryKind]) -> (r: Result<(), String>)
    requires
        dir_paths@.len() == kinds@.len(),
    ensures
        outcome(r) == workspace_dir_outcome(path_views(dir_paths@), kinds@),
{
    let ghost ps = path_views(dir_paths@);
    assert(ps.skip(0) =~= ps);
    assert(kinds@.skip(0) =~= kinds@);
    let mut i: usize = 0;
    while i < dir_paths.len()
        invariant
            i <= dir_paths@.len(),
            dir_paths@.len() == kinds@.len(),
            ps == path_views(dir_paths@),
            workspace_dir_outcome(ps, kinds@) == workspace_dir_outcome(
                ps.skip(i as int),
                kinds@.skip(i as int),
            ),
        decreases dir_paths@.len() - i,
    {
        assert(ps.skip(i as int).drop_first() =~= ps.skip(i + 1));
        assert(kinds@.skip(i as int).drop_first() =~= kinds@.skip(i + 1));
        if kinds[i] != EntryKind::Dir {
            let p: &str = dir_paths[i];
            assert(ps.skip(i as int)[0] == p@);
            return Err(cat3("Workspace directory '", p, "' does not exist"));
        }
        i = i + 1;
    }
    Ok(())
}

/// The files that `check_output_file` looks for: the named one, or, where
/// the name is empty or `{}`, the usual output files.
pub open spec fn output_candidates(filename: Seq<char>) -> Seq<Seq<char>> {
    if filename.len() != 0 && filename != "{}"@ {
        seq![filename]
    } else {
        seq!["output.txt"@, "output.md"@, "result.txt"@, "result.md"@, "PROGRESS.md"@]
    }
}

/// The files that `check_output_file` looks for.
pub fn output_file_candidates(filename: &str) -> (r: Vec<String>)
    ensures
        r@.map_values(|s: String| s@) == output_candidates(filename@),
{
    let mut r: Vec<String> = Vec::new();
    if !str_is_empty(filename) && !str_eq(filename, "{}") {
        r.push(owned(filename));
    } else {
        r.push(owned("output.txt"));
        r.push(owned("output.md"));
        r.push(owned("result.txt"));
        r.push(owned("result.md"));
        r.push(owned("PROGRESS.md"));
    }
    assert(r@.map_values(|s: String| s@) =~= output_candidates(filename@));
    r
}

/// What `check_output_file` answers, given which candidates exist.
pub open spec fn output_file_outcome(filename: Seq<char>, exists: Seq<bool>) -> Result<(), Seq<char>> {
    if filename.len() != 0 && filename != "{}"@ {
        if exists.len() > 0 && exists[0] {
            Ok(())
        } else {
            Err("Output file '"@ + filename + "' not found"@)
        }
    } else if exists.contains(true) {
        Ok(())
    } else {
        Err("No output file found"@)
    }
}

/// Check that an output file was created, given, for each candidate of
/// `output_file_candidates`, whether it exists.
pub fn check_output_file(filename: &str, exists: &[bool]) -> (r: Result<(), String>)
    requires
        exists@.len() == output_candidates(filename@).len(),
    ensures
        outcome(r) == output_file_outcome(filename@, exists@),
{
    if !str_is_empty(filename) && !str_eq(filename, "{}") {
        if exists[0] {
            return Ok(());
        }
        return Err(cat3("Output file '", filename, "' not found"));
    }
    let mut i: usize = 0;
    while i < exists.len()
        invariant
            i <= exists@.len(),
            !(filename@.len() != 0 && filename@ != "{}"@),
            forall|k: int| 0 <= k < i ==> !exists@[k],
        decreases exists@.len() - i,
    {
        if exists[i] {
            assert(exists@[i as int]);
            return Ok(());
        }
        i = i + 1;
    }
    assert(!exists@.contains(true));
    Err(owned("No output file found"))
}

/// What `check_file_content` answers: with `contains`, the file must hold
/// the string; without, it must not.
pub open spec fn file_content_outcome(filename: Seq<char>, read: FileRead, search: Seq<char>, contains: bool) -> Result<
    (),
    Seq<char>,
> {
    match read {
        FileRead::Missing => Err("File '"@ + filename + "' does not exist in workspace"@),
        FileRead::Unreadable(e) => Err("Failed to read file '"@ + filename + "': "@ + e@),
        FileRead::Text(content) => {
            let found = has_substring(content@, search);
            if contains {
                if found {
                    Ok(())
                } else {
                    Err(
                        "File '"@ + filename + "' does not contain expected string '"@ + search
                            + "'"@,
                    )
                }
            } else if !found {
                Ok(())
            } else {
                Err("File '"@ + filename + "' contains unexpected string '"@ + search + "'"@)
            }
        },
    }
}

/// Check whether a workspace file contains a string, given what reading it gave.
/// `contains`: true means the file should contain the string, false that it should not.
pub fn check_file_content(filename: &str, read: &FileRead, search_string: &str, contains: bool) -> (r:
    Result<(), String>)
    ensures
        outcome(r) == file_content_outcome(filename@, *read, search_string@, contains),
{
    match read {
        FileRead::Missing => Err(cat3("File '", filename, "' does not exist in workspace")),
        FileRead::Unreadable(e) => Err(cat4("Failed to read file '", filename, "': ", e.as_str())),
        FileRead::Text(content) => {
            let found = str_contains(content.as_str(), search_string);
            if contains {
                if found {
                    Ok(())
                } else {
                    Err(cat5("File '", filename, "' does not contain expected string '", search_string, "'"))
                }
            } else if !found {
                Ok(())
            } else {
                Err(cat5("File '", filename, "' contains unexpected string '", search_string, "'"))
            }
        },
    }
}


/// Directories pass exactly when every path names a directory.
pub proof fn lemma_dirs_all_exist(paths: Seq<Seq<char>>, kinds: Seq<EntryKind>)
    requires
        paths.len() == kinds.len(),
    ensures
        workspace_dir_outcome(paths, kinds) is Ok <==> forall|i: int|
            0 <= i < kinds.len() ==> #[trigger] kinds[i] == EntryKind::Dir,
    decreases paths.len(),
{
    if paths.len() > 0 {
        lemma_dirs_all_exist(paths.drop_first(), kinds.drop_first());
        if workspace_dir_outcome(paths, kinds) is Ok {
            assert forall|i: int| 0 <= i < kinds.len() implies #[trigger] kinds[i] == EntryKind::Dir by {
                if i > 0 {
                    assert(kinds.drop_first()[i - 1] == kinds[i]);
                }
            }
        } else if kinds[0] == EntryKind::Dir {
            assert(!(forall|i: int| 0 <= i < kinds.drop_first().len() ==> #[trigger] kinds.drop_first()[i] == EntryKind::Dir));
            let j = choose|j: int| 0 <= j < kinds.drop_first().len() && kinds.drop_first()[j] != EntryKind::Dir;
            assert(kinds[j + 1] != EntryKind::Dir);
        }
    }
}

}
