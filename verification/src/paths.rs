//! Facts about paths: the file-name extension, what the file system
//! reports for a path, and which directory entries count as hidden.
use vstd::prelude::*;
use crate::text::{ascii_lowercase, chars_of, opt_chars, to_ascii_lowercase};

verus! {

/// What `std::path::Path::extension` yields for the path spelled `path`.
pub uninterp spec fn path_extension(path: Seq<char>) -> Option<Seq<char>>;

/// `k` is the position of the last `.` of `name`, and not its first
/// character.
pub open spec fn last_inner_dot(name: Seq<char>, k: int) -> bool {
    &&& 0 < k < name.len()
    &&& name[k] == '.'
    &&& forall|j: int| k < j < name.len() ==> name[j] != '.'
}

/// The extension of a bare file name (one without `/`, and neither `.`
/// nor `..`), as std's documentation gives it: the text after the last
/// `.`, and none when there is no `.` or the only one begins the name.
pub open spec fn bare_name_extension(name: Seq<char>) -> Option<Seq<char>> {
    if exists|k: int| #[trigger] last_inner_dot(name, k) {
        let k = choose|k: int| #[trigger] last_inner_dot(name, k);
        Some(name.subrange(k + 1, name.len() as int))
    } else {
        None
    }
}

/// The extension of `path`, ASCII lower-cased.
pub open spec fn lowered_extension(path: Seq<char>) -> Option<Seq<char>> {
    match path_extension(path) {
        Some(e) => Some(ascii_lowercase(e)),
        None => None,
    }
}

/// Calls `std::path::Path::extension` on `path` and copies the result into a
/// `String`. The contract ties the result to `path_extension` and states
/// what std's documentation gives: a path without a `.` has no extension,
/// an extension holds no `.`, and for a bare file name the extension is
/// the text after its last `.` unless that `.` begins the name. For paths
/// with directories, which file name std takes is not restated here.
#[verifier::external_body]
pub(crate) fn file_extension(path: &str) -> (r: Option<String>)
    ensures
        match r {
            Some(e) => path_extension(path@) == Some(e@) && !e@.contains('.'),
            None => path_extension(path@) is None,
        },
        !path@.contains('.') ==> r is None,
        (!path@.contains('/') && path@.len() > 0 && path@ != "."@ && path@ != ".."@) ==> opt_chars(r) == bare_name_extension(path@),
{
    let ext = std::path::Path::new(path).extension()?;
    match ext.to_str() {
        Some(e) => Some(e.to_string()),
        None => None,
    }
}

/// The extension of `path` in lower case, as the format tables compare it.
pub fn lowercase_extension(path: &str) -> (r: Option<String>)
    ensures
        match r {
            Some(e) => lowered_extension(path@) == Some(e@),
            None => lowered_extension(path@) is None,
        },
{
    match file_extension(path) {
        Some(e) => Some(to_ascii_lowercase(e.as_str())),
        None => None,
    }
}

/// What the file system reports for a path.
#[derive(Clone, Copy, Debug, PartialEq, Eq, Structural)]
pub enum PathKind {
    Missing,
    File,
    Directory,
    Other,
}

/// A directory-walk entry is hidden when it lies below the walk's root and
/// its file name starts with `.`; the root itself is never hidden.
pub open spec fn hidden_entry(depth: usize, name: Option<Seq<char>>) -> bool {
    depth != 0 && match name {
        Some(n) => n.len() > 0 && n[0] == '.',
        None => false,
    }
}

/// Whether a walk entry at `depth` named `file_name` is skipped when hidden
/// entries are excluded.
pub fn is_hidden_entry(depth: usize, file_name: Option<&str>) -> (r: bool)
    ensures
        r == hidden_entry(
            depth,
            match file_name {
                Some(n) => Some(n@),
                None => None,
            },
        ),
{
    if depth == 0 {
        return false;
    }
    match file_name {
        Some(name) => {
            let v = chars_of(name);
            v.len() > 0 && v[0] == '.'
        },
        None => false,
    }
}

/// Law: the root of a walk is never hidden; below it, an entry is hidden
/// exactly when its name starts with `.`.
pub proof fn law_hidden_entries(depth: usize, name: Seq<char>)
    ensures
        !hidden_entry(0, Some(name)),
        depth > 0 ==> (hidden_entry(depth, Some(name)) <==> name.len() > 0 && name[0] == '.'),
        !hidden_entry(depth, None),
{
}

} // verus!
