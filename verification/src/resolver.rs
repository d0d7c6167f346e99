//! Cleanup of raw store values, and the first-match search over search tuples.

use vstd::prelude::*;
use vstd::string::*;
use crate::store::{ConfigStore, SearchTuple, TupleModel, value_at};
use crate::text::{
    CharClass, copy_range, find_char, find_in, is_separator, lemma_find_char, lemma_find_char_absent,
    lemma_trim_end, lemma_trim_start, trim, trim_end, trim_end_in, trim_start, trim_start_in,
};

verus! {

/// How a raw value is turned into a result.
#[derive(Clone, Copy, Debug, PartialEq, Eq, Structural)]
pub enum CleanupPolicy {
    /// Keep what stands before the first comma, trim double quotes at both ends,
    /// then trim trailing path separators.
    DirectoryPath,
    /// As `DirectoryPath`, then take the parent directory.
    IconPathToParentDir,
    /// Keep the value as it is.
    RawVersion,
}

/// The views of an optional string.
pub open spec fn text_of(s: Option<String>) -> Option<Seq<char>> {
    match s {
        Some(t) => Some(t@),
        None => None,
    }
}

/// What stands before the first comma.
pub open spec fn before_comma(raw: Seq<char>) -> Seq<char> {
    raw.subrange(0, find_char(raw, ','))
}

/// A raw value as a file path: cut at the first comma, without quotes around it.
pub open spec fn unquoted_path(raw: Seq<char>) -> Seq<char> {
    trim(before_comma(raw), CharClass::Quote)
}

/// A raw value as a directory: `unquoted_path` without trailing separators.
pub open spec fn directory_path(raw: Seq<char>) -> Seq<char> {
    trim_end(unquoted_path(raw), CharClass::Separator)
}

/// The letters that name a drive.
pub open spec fn is_drive_letter(c: char) -> bool {
    let n = c as u32;
    (0x41 <= n <= 0x5A) || (0x61 <= n <= 0x7A)
}

/// The length of a path's root: one separator at its start, or a drive letter
/// with its colon and the separator behind it, if there is one.
pub open spec fn root_len(path: Seq<char>) -> int {
    if path.len() >= 1 && is_separator(path[0]) {
        1
    } else if path.len() >= 2 && is_drive_letter(path[0]) && path[1] == ':' {
        if path.len() >= 3 && is_separator(path[2]) {
            3
        } else {
            2
        }
    } else {
        0
    }
}

/// The parent of a path written with `\` or `/`: the root, and behind it the
/// rest without its last component and without the separators before that
/// component. A path that has no component behind its root has no parent; the
/// parent of a single component without a root is the empty path.
pub open spec fn parent_dir(path: Seq<char>) -> Option<Seq<char>> {
    let root = root_len(path);
    let named = trim_end(path.subrange(root, path.len() as int), CharClass::Separator);
    if named.len() == 0 {
        None
    } else {
        Some(
            path.subrange(0, root) + trim_end(
                trim_end(named, CharClass::Component),
                CharClass::Separator,
            ),
        )
    }
}

/// The result of a cleanup policy on a raw value, where it has one.
pub open spec fn cleaned(policy: CleanupPolicy, raw: Seq<char>) -> Option<Seq<char>> {
    match policy {
        CleanupPolicy::DirectoryPath => Some(directory_path(raw)),
        CleanupPolicy::IconPathToParentDir => parent_dir(directory_path(raw)),
        CleanupPolicy::RawVersion => Some(raw),
    }
}

/// What one tuple yields: the cleaned value at its address, if there is a value
/// and the cleanup has a result.
pub open spec fn yielded(
    values: Map<TupleModel, Seq<char>>,
    at: TupleModel,
    policy: CleanupPolicy,
) -> Option<Seq<char>> {
    match value_at(values, at) {
        Some(raw) => cleaned(policy, raw),
        None => None,
    }
}

/// What the first tuple that yields anything yields.
pub open spec fn resolved(
    values: Map<TupleModel, Seq<char>>,
    tuples: Seq<TupleModel>,
    policy: CleanupPolicy,
) -> Option<Seq<char>>
    decreases tuples.len(),
{
    if tuples.len() == 0 {
        None
    } else if yielded(values, tuples[0], policy) is Some {
        yielded(values, tuples[0], policy)
    } else {
        resolved(values, tuples.drop_first(), policy)
    }
}

/// The tuples of a vector as mathematical values.
pub open spec fn models(tuples: Seq<SearchTuple>) -> Seq<TupleModel> {
    tuples.map_values(|t: SearchTuple| t@)
}

/// The ends of the range of `raw` that `unquoted_path` keeps.
pub fn unquoted_range(raw: &str) -> (r: (usize, usize))
    ensures
        r.0 <= r.1 <= raw@.len(),
        raw@.subrange(r.0 as int, r.1 as int) == unquoted_path(raw@),
{
    let n: usize = raw.unicode_len();
    proof {
        assert(raw@.subrange(0, n as int) =~= raw@);
    }
    let comma: usize = find_in(raw, 0, n, ',');
    let start: usize = trim_start_in(raw, 0, comma, CharClass::Quote);
    let end: usize = trim_end_in(raw, start, comma, CharClass::Quote);
    (start, end)
}

/// The ends of the range of `raw` that `directory_path` keeps.
pub fn directory_range(raw: &str) -> (r: (usize, usize))
    ensures
        r.0 <= r.1 <= raw@.len(),
        raw@.subrange(r.0 as int, r.1 as int) == directory_path(raw@),
{
    let (start, end) = unquoted_range(raw);
    let last: usize = trim_end_in(raw, start, end, CharClass::Separator);
    (start, last)
}

/// The end of the root of the range `from..to` of `path`.
pub fn root_end(path: &str, from: usize, to: usize) -> (r: usize)
    requires
        from <= to <= path@.len(),
    ensures
        from <= r <= to,
        r - from == root_len(path@.subrange(from as int, to as int)),
{
    let n: usize = to - from;
    if n >= 1 && CharClass::Separator.has(path.get_char(from)) {
        from + 1
    } else if n >= 2 && is_letter(path.get_char(from)) && path.get_char(from + 1) == ':' {
        if n >= 3 && CharClass::Separator.has(path.get_char(from + 2)) {
            from + 3
        } else {
            from + 2
        }
    } else {
        from
    }
}

/// Whether `c` names a drive.
pub fn is_letter(c: char) -> (r: bool)
    ensures
        r == is_drive_letter(c),
{
    let n: u32 = c as u32;
    (0x41 <= n && n <= 0x5A) || (0x61 <= n && n <= 0x7A)
}

/// The end of the parent of the range `from..to` of `path`, where it has one.
pub fn parent_end(path: &str, from: usize, to: usize) -> (r: Option<usize>)
    requires
        from <= to <= path@.len(),
    ensures
        match r {
            Some(end) => from <= end <= to && parent_dir(path@.subrange(from as int, to as int))
                == Some(path@.subrange(from as int, end as int)),
            None => parent_dir(path@.subrange(from as int, to as int)) is None,
        },
{
    let ghost whole = path@.subrange(from as int, to as int);
    let root: usize = root_end(path, from, to);
    proof {
        assert(whole.subrange(root - from, whole.len() as int) =~= path@.subrange(
            root as int,
            to as int,
        ));
    }
    let named: usize = trim_end_in(path, root, to, CharClass::Separator);
    if named == root {
        None
    } else {
        let stem: usize = trim_end_in(path, root, named, CharClass::Component);
        let end: usize = trim_end_in(path, root, stem, CharClass::Separator);
        proof {
            assert(whole.subrange(0, root - from) + path@.subrange(root as int, end as int)
                =~= path@.subrange(from as int, end as int));
        }
        Some(end)
    }
}

/// Applies a cleanup policy to a raw value.
pub fn cleanup(raw: &str, policy: CleanupPolicy) -> (r: Option<String>)
    ensures
        text_of(r) == cleaned(policy, raw@),
{
    match policy {
        CleanupPolicy::DirectoryPath => {
            let (start, end) = directory_range(raw);
            Some(copy_range(raw, start, end))
        },
        CleanupPolicy::IconPathToParentDir => {
            let (start, end) = directory_range(raw);
            match parent_end(raw, start, end) {
                Some(stop) => Some(copy_range(raw, start, stop)),
                None => None,
            }
        },
        CleanupPolicy::RawVersion => Some(raw.to_owned()),
    }
}

/// Searches the tuples in order and returns what the first one yields that
/// yields anything: the cleaned value at its address. Tuples whose value is
/// absent, or whose cleanup has no result, are passed over.
pub fn resolve(store: &ConfigStore, tuples: &Vec<SearchTuple>, policy: CleanupPolicy) -> (r:
    Option<String>)
    ensures
        text_of(r) == resolved(store@, models(tuples@), policy),
{
    let mut i: usize = 0;
    proof {
        assert(models(tuples@).subrange(0, tuples@.len() as int) =~= models(tuples@));
    }
    while i < tuples.len()
        invariant
            i <= tuples@.len(),
            resolved(store@, models(tuples@), policy) == resolved(
                store@,
                models(tuples@).subrange(i as int, tuples@.len() as int),
                policy,
            ),
        decreases tuples@.len() - i,
    {
        proof {
            let rest = models(tuples@).subrange(i as int, tuples@.len() as int);
            assert(rest[0] == tuples@[i as int]@);
            assert(rest.drop_first() =~= models(tuples@).subrange(i + 1, tuples@.len() as int));
        }
        match store.read(&tuples[i]) {
            Some(raw) => {
                let found = cleanup(raw.as_str(), policy);
                if found.is_some() {
                    return found;
                }
            },
            None => {},
        }
        i = i + 1;
    }
    None
}

/// The search returns the cleaned value of the first tuple that yields one: a
/// result comes from some tuple before which no tuple yields anything, and
/// there is no result exactly when no tuple yields anything.
pub proof fn law_first_match(
    values: Map<TupleModel, Seq<char>>,
    tuples: Seq<TupleModel>,
    policy: CleanupPolicy,
)
    ensures
        resolved(values, tuples, policy) is Some ==> exists|i: int|
            0 <= i < tuples.len() && resolved(values, tuples, policy) == #[trigger] yielded(
                values,
                tuples[i],
                policy,
            ) && forall|j: int| 0 <= j < i ==> yielded(values, tuples[j], policy) is None,
        resolved(values, tuples, policy) is None <==> forall|j: int|
            0 <= j < tuples.len() ==> yielded(values, tuples[j], policy) is None,
    decreases tuples.len(),
{
    if tuples.len() == 0 {
    } else if yielded(values, tuples[0], policy) is Some {
        assert(forall|j: int| 0 <= j < 0 ==> yielded(values, tuples[j], policy) is None);
    } else {
        let rest = tuples.drop_first();
        law_first_match(values, rest, policy);
        assert forall|j: int| 0 <= j < rest.len() implies rest[j] == tuples[j + 1] by {}
        if resolved(values, rest, policy) is Some {
            let i = choose|i: int|
                0 <= i < rest.len() && resolved(values, rest, policy) == #[trigger] yielded(
                    values,
                    rest[i],
                    policy,
                ) && forall|j: int| 0 <= j < i ==> yielded(values, rest[j], policy) is None;
            assert(rest[i] == tuples[i + 1]);
            assert forall|j: int| 0 <= j < i + 1 implies yielded(
                values,
                tuples[j],
                policy,
            ) is None by {
                if j > 0 {
                    assert(rest[j - 1] == tuples[j]);
                }
            }
            assert(resolved(values, tuples, policy) == yielded(values, tuples[i + 1], policy));
        } else {
            assert forall|j: int| 0 <= j < tuples.len() implies yielded(
                values,
                tuples[j],
                policy,
            ) is None by {
                if j > 0 {
                    assert(rest[j - 1] == tuples[j]);
                }
            }
        }
    }
}

/// What stands behind the first tuple that yields anything does not count:
/// two stores that agree on the tuples up to one that yields in the first give
/// the same result, however they differ behind it.
pub proof fn law_later_tuples_do_not_count(
    first: Map<TupleModel, Seq<char>>,
    second: Map<TupleModel, Seq<char>>,
    tuples: Seq<TupleModel>,
    policy: CleanupPolicy,
    hit: int,
)
    requires
        0 <= hit < tuples.len(),
        yielded(first, tuples[hit], policy) is Some,
        forall|i: int|
            0 <= i <= hit ==> value_at(first, #[trigger] tuples[i]) == value_at(
                second,
                tuples[i],
            ),
    ensures
        resolved(first, tuples, policy) == resolved(second, tuples, policy),
    decreases tuples.len(),
{
    if yielded(first, tuples[0], policy) is Some {
    } else {
        let rest = tuples.drop_first();
        assert forall|i: int| 0 <= i <= hit - 1 implies value_at(first, #[trigger] rest[i])
            == value_at(second, rest[i]) by {
            assert(rest[i] == tuples[i + 1]);
        }
        assert(rest[hit - 1] == tuples[hit]);
        law_later_tuples_do_not_count(first, second, rest, policy, hit - 1);
    }
}

/// A search over two lists, one behind the other, is the search over the first
/// and, where that finds nothing, the search over the second.
pub proof fn law_search_in_sequence(
    values: Map<TupleModel, Seq<char>>,
    first: Seq<TupleModel>,
    second: Seq<TupleModel>,
    policy: CleanupPolicy,
)
    ensures
        resolved(values, first + second, policy) == if resolved(values, first, policy) is Some {
            resolved(values, first, policy)
        } else {
            resolved(values, second, policy)
        },
    decreases first.len(),
{
    if first.len() == 0 {
        assert(first + second =~= second);
    } else {
        assert((first + second)[0] == first[0]);
        assert((first + second).drop_first() =~= first.drop_first() + second);
        law_search_in_sequence(values, first.drop_first(), second, policy);
    }
}

/// The search reads the store only at the tuples it is given: two stores that
/// agree there give the same result.
pub proof fn law_only_searched_values_count(
    first: Map<TupleModel, Seq<char>>,
    second: Map<TupleModel, Seq<char>>,
    tuples: Seq<TupleModel>,
    policy: CleanupPolicy,
)
    requires
        forall|i: int|
            0 <= i < tuples.len() ==> value_at(first, #[trigger] tuples[i]) == value_at(
                second,
                tuples[i],
            ),
    ensures
        resolved(first, tuples, policy) == resolved(second, tuples, policy),
    decreases tuples.len(),
{
    if tuples.len() > 0 {
        let rest = tuples.drop_first();
        assert forall|i: int| 0 <= i < rest.len() implies value_at(first, #[trigger] rest[i])
            == value_at(second, rest[i]) by {
            assert(rest[i] == tuples[i + 1]);
        }
        law_only_searched_values_count(first, second, rest, policy);
    }
}

/// What a directory cleanup leaves holds no comma, begins with no double quote
/// and ends with no separator.
pub proof fn lemma_directory_path_shape(raw: Seq<char>)
    ensures
        forall|k: int| 0 <= k < directory_path(raw).len() ==> directory_path(raw)[k] != ',',
        directory_path(raw).len() > 0 ==> directory_path(raw).first() != '"',
        directory_path(raw).len() > 0 ==> !CharClass::Separator.contains(
            directory_path(raw).last(),
        ),
{
    let quote = CharClass::Quote;
    let a = before_comma(raw);
    let b = trim_start(a, quote);
    let c = trim_end(b, quote);
    let d = trim_end(c, CharClass::Separator);
    lemma_find_char(raw, ',');
    lemma_trim_start(a, quote);
    lemma_trim_end(b, quote);
    lemma_trim_end(c, CharClass::Separator);
    assert(d == directory_path(raw));
    let offset = a.len() - b.len();
    assert forall|k: int| 0 <= k < d.len() implies d[k] != ',' by {
        assert(d[k] == c[k]);
        assert(c[k] == b[k]);
        assert(b[k] == a[k + offset]);
        assert(a[k + offset] == raw[k + offset]);
    }
    if d.len() > 0 {
        assert(d[0] == b[0]);
        assert(!quote.contains(b.first()));
    }
}

/// Cleaning a directory path a second time changes nothing, unless the first
/// cleanup left a double quote at the end (a quote that stood before trailing
/// separators, as in `a"\`).
pub proof fn law_directory_cleanup_idempotent(raw: Seq<char>)
    requires
        directory_path(raw).len() > 0 ==> directory_path(raw).last() != '"',
    ensures
        directory_path(directory_path(raw)) == directory_path(raw),
        cleaned(CleanupPolicy::DirectoryPath, directory_path(raw)) == cleaned(
            CleanupPolicy::DirectoryPath,
            raw,
        ),
{
    let d = directory_path(raw);
    lemma_directory_path_shape(raw);
    lemma_find_char_absent(d, ',');
    assert(before_comma(d) =~= d);
    assert(trim_start(d, CharClass::Quote) == d);
    assert(trim_end(d, CharClass::Quote) == d);
    assert(trim_end(d, CharClass::Separator) == d);
}

/// Where the first cleanup left a double quote at the end, a second cleanup
/// takes it away: these are the inputs on which cleaning twice is not cleaning
/// once.
pub proof fn law_directory_cleanup_after_trailing_quote(raw: Seq<char>)
    requires
        directory_path(raw).len() > 0,
        directory_path(raw).last() == '"',
    ensures
        directory_path(directory_path(raw)).len() < directory_path(raw).len(),
{
    let quote = CharClass::Quote;
    let d = directory_path(raw);
    lemma_directory_path_shape(raw);
    lemma_find_char_absent(d, ',');
    assert(before_comma(d) =~= d);
    assert(trim_start(d, quote) == d);
    lemma_trim_end(d.drop_last(), quote);
    assert(trim_end(d, quote) == trim_end(d.drop_last(), quote));
    lemma_trim_end(trim_end(d, quote), CharClass::Separator);
}

/// Cleaning a version a second time changes nothing: the cleanup keeps it as
/// it is.
pub proof fn law_version_cleanup_idempotent(raw: Seq<char>)
    ensures
        cleaned(CleanupPolicy::RawVersion, raw) == Some(raw),
        cleaned(CleanupPolicy::RawVersion, cleaned(CleanupPolicy::RawVersion, raw)->0) == cleaned(
            CleanupPolicy::RawVersion,
            raw,
        ),
{
}

} // verus!
