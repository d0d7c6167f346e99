//! The version that the add-on's manifest declares.

use vstd::prelude::*;
use vstd::string::*;
use crate::locator::{get_wow_path, wow_path};
use crate::resolver::text_of;
use crate::store::{ConfigStore, TupleModel};
use crate::text::{
    CharClass, copy_range, find_char, find_in, has_prefix, has_prefix_in, trim, trim_end_in,
    trim_start_in,
};

verus! {

/// The add-on's directory below the add-on root.
pub const ADDON_DIRECTORY: &'static str = "PvP_Scalpel";

/// The manifest's file name in the add-on's directory.
pub const MANIFEST_FILE: &'static str = "PvP_Scalpel.toc";

/// What a line that declares the version begins with.
pub const VERSION_MARKER: &'static str = "## Version:";

/// The version that a line declares: the line is trimmed of white space, and if
/// it then begins with the marker, what follows the marker is the version,
/// trimmed again.
pub open spec fn line_version(line: Seq<char>) -> Option<Seq<char>> {
    let content = trim(line, CharClass::Whitespace);
    if has_prefix(content, VERSION_MARKER@) {
        Some(
            trim(
                content.subrange(VERSION_MARKER@.len() as int, content.len() as int),
                CharClass::Whitespace,
            ),
        )
    } else {
        None
    }
}

/// The version that the first line of `text` declares that declares one. Lines
/// end at a line feed; a carriage return before it is white space of the line.
/// (`find_char` never leaves the text, so the first branch is never taken: it
/// is there for the recursion's measure.)
pub open spec fn declared_version(text: Seq<char>) -> Option<Seq<char>>
    decreases text.len(),
{
    let end = find_char(text, '\n');
    if end < 0 || end > text.len() {
        None
    } else if line_version(text.subrange(0, end)) is Some {
        line_version(text.subrange(0, end))
    } else if end >= text.len() {
        None
    } else {
        declared_version(text.subrange(end + 1, text.len() as int))
    }
}

/// Scans a manifest from the top for the line that declares the version.
pub fn parse_version(text: &str) -> (r: Option<String>)
    ensures
        text_of(r) == declared_version(text@),
{
    let n: usize = text.unicode_len();
    let marker_len: usize = VERSION_MARKER.unicode_len();
    let mut pos: usize = 0;
    proof {
        assert(text@.subrange(0, n as int) =~= text@);
    }
    loop
        invariant
            pos <= n == text@.len(),
            marker_len == VERSION_MARKER@.len(),
            declared_version(text@.subrange(pos as int, n as int)) == declared_version(text@),
        decreases n - pos,
    {
        let ghost rest = text@.subrange(pos as int, n as int);
        let end: usize = find_in(text, pos, n, '\n');
        let start: usize = trim_start_in(text, pos, end, CharClass::Whitespace);
        let stop: usize = trim_end_in(text, start, end, CharClass::Whitespace);
        proof {
            assert(rest.subrange(0, end - pos) =~= text@.subrange(pos as int, end as int));
        }
        if has_prefix_in(text, start, stop, VERSION_MARKER) {
            let from: usize = trim_start_in(text, start + marker_len, stop, CharClass::Whitespace);
            let to: usize = trim_end_in(text, from, stop, CharClass::Whitespace);
            proof {
                let content = text@.subrange(start as int, stop as int);
                assert(content.subrange(marker_len as int, content.len() as int)
                    =~= text@.subrange(start + marker_len, stop as int));
            }
            return Some(copy_range(text, from, to));
        }
        if end >= n {
            return None;
        }
        proof {
            assert(rest.subrange(end - pos + 1, rest.len() as int) =~= text@.subrange(
                end + 1,
                n as int,
            ));
        }
        pos = end + 1;
    }
}

/// The add-on's version: that which the manifest declares, where the add-on
/// root resolves and the manifest could be read. `contents` is the manifest's
/// text, or `None` where the file is missing or is no text.
pub fn get_addon_version(store: &ConfigStore, contents: Option<&str>) -> (r: Option<String>)
    ensures
        text_of(r) == addon_version(store@, contents),
{
    if get_wow_path(store).is_none() {
        return None;
    }
    match contents {
        Some(text) => parse_version(text),
        None => None,
    }
}

/// The add-on's version as `get_addon_version` gives it.
pub open spec fn addon_version(values: Map<TupleModel, Seq<char>>, contents: Option<&str>)
    -> Option<Seq<char>> {
    if wow_path(values) is None {
        None
    } else {
        match contents {
            Some(text) => declared_version(text@),
            None => None,
        }
    }
}

} // verus!
