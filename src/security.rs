//! Quoting for shell commands and joining of untrusted relative file names.
use vstd::prelude::*;
use vstd::string::*;
use crate::text::{escape_quotes, escape_single_quotes};

verus! {

/// Whether a `..` component of `s` starts at `i`: two dots bounded on each
/// side by `/` or an end of `s`.
pub open spec fn parent_at(s: Seq<char>, i: int) -> bool {
    0 <= i && i + 2 <= s.len() && s[i] == '.' && s[i + 1] == '.' && (i == 0 || s[i - 1] == '/')
        && (i + 2 == s.len() || s[i + 2] == '/')
}

/// Whether `s` has a `..` component.
pub open spec fn has_parent_component(s: Seq<char>) -> bool {
    exists|i: int| #[trigger] parent_at(s, i)
}

pub open spec fn is_absolute(s: Seq<char>) -> bool {
    s.len() > 0 && s[0] == '/'
}

/// `base` joined with a relative `name` by one separator, as paths join.
pub open spec fn joined(base: Seq<char>, name: Seq<char>) -> Seq<char> {
    if base.len() == 0 || base.last() == '/' {
        base + name
    } else {
        base + seq!['/'] + name
    }
}

/// `path` escaped for embedding between single quotes in a shell command.
pub fn shell_escape_path(path: &str) -> (r: String)
    ensures
        r@ == escape_quotes(path@),
{
    escape_single_quotes(path)
}

fn parent_component_at(s: &str, n: usize, i: usize) -> (r: bool)
    requires
        n == s@.len(),
        i + 2 <= n,
    ensures
        r == parent_at(s@, i as int),
{
    if s.get_char(i) != '.' || s.get_char(i + 1) != '.' {
        return false;
    }
    if i > 0 && s.get_char(i - 1) != '/' {
        return false;
    }
    i + 2 == n || s.get_char(i + 2) == '/'
}

/// Whether `s` has a `..` component.
pub fn contains_parent_component(s: &str) -> (r: bool)
    ensures
        r == has_parent_component(s@),
{
    let n = s.unicode_len();
    if n < 2 {
        return false;
    }
    let mut i: usize = 0;
    while i < n - 1
        invariant
            n == s@.len(),
            n >= 2,
            i <= n - 1,
            forall|j: int| 0 <= j < i ==> !#[trigger] parent_at(s@, j),
        decreases n - i,
    {
        if parent_component_at(s, n, i) {
            return true;
        }
        i = i + 1;
    }
    false
}

/// Joins `base` and an untrusted `filename`. An absolute `filename`, or one
/// with a `..` component, is refused; any other is appended to `base` with a
/// separator. Resolving symbolic links below `base` is left to the caller that
/// touches the file system.
pub fn safe_join(base: &str, filename: &str) -> (r: Result<String, String>)
    ensures
        match r {
            Ok(p) => !is_absolute(filename@) && !has_parent_component(filename@) && p@ == joined(
                base@,
                filename@,
            ),
            Err(e) => if is_absolute(filename@) {
                e@ == "Filename must be relative"@
            } else {
                has_parent_component(filename@) && e@ == "Path traversal ('..') is not allowed"@
            },
        },
{
    let n = filename.unicode_len();
    if n > 0 && filename.get_char(0) == '/' {
        return Err(String::from_str("Filename must be relative"));
    }
    if contains_parent_component(filename) {
        return Err(String::from_str("Path traversal ('..') is not allowed"));
    }
    let mut p = String::from_str(base);
    let m = base.unicode_len();
    if m > 0 && base.get_char(m - 1) != '/' {
        p.append("/");
        proof {
            reveal_strlit("/");
        }
    }
    p.append(filename);
    Ok(p)
}

} // verus!
