//! Derivation of safe target filenames: replacing characters that are
//! illegal in filesystem paths, taking the base name of a path, and making
//! sure a filename carries the expected extension.

use vstd::prelude::*;
use crate::strutil::{ends_with_ci, ends_with_ignore_ascii_case};

verus! {

/// A character that may not appear in a filename on common filesystems.
pub open spec fn is_illegal_filename_char(c: char) -> bool {
    c == '<' || c == '>' || c == ':' || c == '"' || c == '/' || c == '\\' || c == '|' || c == '?'
        || c == '*'
}

/// `s` with every illegal filename character replaced by an underscore.
pub open spec fn sanitized(s: Seq<char>) -> Seq<char> {
    s.map(
        |_i: int, c: char|
            if is_illegal_filename_char(c) {
                '_'
            } else {
                c
            },
    )
}

/// Executable test for `is_illegal_filename_char`.
fn is_illegal_char(c: char) -> (r: bool)
    ensures
        r == is_illegal_filename_char(c),
{
    c == '<' || c == '>' || c == ':' || c == '"' || c == '/' || c == '\\' || c == '|' || c == '?'
        || c == '*'
}

/// Replaces every character that is illegal in filesystem paths with an
/// underscore; all other characters are kept in place.
pub fn sanitize_filename(name: &str) -> (r: String)
    ensures
        r@ == sanitized(name@),
{
    let n = name.unicode_len();
    let mut out = String::new();
    let mut i: usize = 0;
    while i < n
        invariant
            n == name@.len(),
            i <= n,
            out@ =~= sanitized(name@).take(i as int),
        decreases n - i,
    {
        let c = name.get_char(i);
        if is_illegal_char(c) {
            proof {
                reveal_strlit("_");
            }
            out.append("_");
        } else {
            out.append(name.substring_char(i, i + 1));
        }
        proof {
            assert(out@ =~= sanitized(name@).take(i + 1));
        }
        i += 1;
    }
    proof {
        assert(out@ =~= sanitized(name@));
    }
    out
}

/// A path separator, as the original tool treats paths on any platform.
pub open spec fn is_separator(c: char) -> bool {
    c == '/' || c == '\\'
}

/// `s` with trailing separators removed.
pub open spec fn strip_trailing_seps(s: Seq<char>) -> Seq<char>
    decreases s.len(),
{
    if s.len() > 0 && is_separator(s.last()) {
        strip_trailing_seps(s.drop_last())
    } else {
        s
    }
}

/// The start of the last component of `s`: one past the last separator,
/// or zero when `s` has none.
pub open spec fn last_component_start(s: Seq<char>) -> int
    decreases s.len(),
{
    if s.len() == 0 {
        0
    } else if is_separator(s.last()) {
        s.len() as int
    } else {
        last_component_start(s.drop_last())
    }
}

/// The base name of a path: its last component, ignoring trailing
/// separators; nothing when that component is empty or a relative marker.
pub open spec fn base_name_of(s: Seq<char>) -> Option<Seq<char>> {
    let t = strip_trailing_seps(s);
    let b = t.skip(last_component_start(t));
    if b.len() == 0 || b == "."@ || b == ".."@ {
        None
    } else {
        Some(b)
    }
}

/// Executable test for `is_separator`.
fn is_sep_char(c: char) -> (r: bool)
    ensures
        r == is_separator(c),
{
    c == '/' || c == '\\'
}

/// Returns the base name of a path-like string: the last component once
/// trailing separators are dropped, or `None` when no usable component
/// remains.
pub fn base_name(path: &str) -> (r: Option<String>)
    ensures
        r matches Some(b) ==> base_name_of(path@) == Some(b@),
        r is None ==> base_name_of(path@) is None,
{
    let n = path.unicode_len();
    proof {
        assert(path@.take(n as int) =~= path@);
    }
    let mut end: usize = n;
    while end > 0 && is_sep_char(path.get_char(end - 1))
        invariant
            n == path@.len(),
            end <= n,
            strip_trailing_seps(path@) == strip_trailing_seps(path@.take(end as int)),
        decreases end,
    {
        proof {
            assert(path@.take(end as int).drop_last() =~= path@.take(end - 1));
        }
        end = end - 1;
    }
    proof {
        assert(path@.take(end as int).len() == end);
        if end > 0 {
            assert(!is_separator(path@.take(end as int).last()));
        }
        assert(strip_trailing_seps(path@.take(end as int)) == path@.take(end as int));
    }
    let ghost t = strip_trailing_seps(path@);
    let mut start: usize = end;
    while start > 0 && !is_sep_char(path.get_char(start - 1))
        invariant
            n == path@.len(),
            start <= end <= n,
            t == path@.take(end as int),
            last_component_start(path@.take(end as int)) == last_component_start(
                path@.take(start as int),
            ),
            forall|j: int| start <= j < end ==> !is_separator(path@[j]),
        decreases start,
    {
        proof {
            assert(path@.take(start as int).drop_last() =~= path@.take(start - 1));
        }
        start = start - 1;
    }
    proof {
        assert(path@.take(start as int).len() == start);
        if start > 0 {
            assert(path@.take(start as int).last() == path@[start - 1]);
        }
        assert(last_component_start(path@.take(start as int)) == start);
        assert(t.skip(start as int) =~= path@.subrange(start as int, end as int));
    }
    let b = path.substring_char(start, end);
    if b.is_empty() {
        return None;
    }
    proof {
        reveal_strlit(".");
        reveal_strlit("..");
    }
    if crate::strutil::str_eq(b, ".") || crate::strutil::str_eq(b, "..") {
        return None;
    }
    Some(b.to_owned())
}

/// The filename a single-item run writes to: the file-name component of
/// the requested output path when that path plausibly names a file, else
/// the resolved filename. Batch runs always use the resolved filename.
pub open spec fn chosen_filename(
    is_batch: bool,
    output: Option<Seq<char>>,
    resolved: Seq<char>,
) -> Seq<char> {
    if !is_batch && (output matches Some(o) && o.len() > 0 && !is_separator(o.last())
        && base_name_of(o) is Some) {
        base_name_of(output->Some_0)->Some_0
    } else {
        resolved
    }
}

/// Picks the filename one item is written under, exactly as
/// `chosen_filename` states.
pub fn choose_output_filename(is_batch: bool, output: Option<&String>, resolved: &String) -> (r:
    String)
    ensures
        r@ == chosen_filename(
            is_batch,
            match output {
                Some(o) => Some(o@),
                None => None,
            },
            resolved@,
        ),
{
    if is_batch {
        return resolved.clone();
    }
    match output {
        None => resolved.clone(),
        Some(o) => {
            let n = o.as_str().unicode_len();
            if n == 0 || is_sep_char(o.as_str().get_char(n - 1)) {
                return resolved.clone();
            }
            match base_name(o.as_str()) {
                Some(b) => b,
                None => resolved.clone(),
            }
        },
    }
}

/// `name`, with the given extension appended when `name` does not already
/// end with it (compared ASCII-case-insensitively).
pub open spec fn with_extension(name: Seq<char>, ext: Seq<char>) -> Seq<char> {
    if ends_with_ci(name, ext) {
        name
    } else {
        name + ext
    }
}

/// Appends `ext` to `name` unless `name` already ends with it up to ASCII
/// case.
pub fn ensure_extension(name: String, ext: &str) -> (r: String)
    ensures
        r@ == with_extension(name@, ext@),
{
    if ends_with_ignore_ascii_case(name.as_str(), ext) {
        name
    } else {
        let mut out = name;
        out.append(ext);
        out
    }
}

} // verus!
