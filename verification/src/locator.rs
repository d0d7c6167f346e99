//! The three discovery queries: the game's add-on directory, the companion
//! application's install directory, and its version.

use vstd::prelude::*;
use vstd::string::*;
use crate::resolver::{
    CleanupPolicy, cleanup, law_only_searched_values_count, law_search_in_sequence, models,
    resolve, resolved, text_of, yielded,
};
use crate::store::{ConfigStore, Scope, SearchTuple, TupleModel, value_at};

verus! {

/// The key under which the game registers for removal.
pub const GAME_PRIMARY_KEY: &'static str =
    "SOFTWARE\\WOW6432Node\\Microsoft\\Windows\\CurrentVersion\\Uninstall\\Battle.net\\Game\\wow";

/// The vendor's own key for the game.
pub const GAME_FALLBACK_KEY: &'static str =
    "SOFTWARE\\WOW6432Node\\Blizzard Entertainment\\World of Warcraft";

/// The add-on directory below the game's root.
pub const ADDONS_SUFFIX: &'static str = "\\Interface\\AddOns";

/// The keys under which an installer of the companion application may have
/// registered it, in the order in which they are searched.
pub const COMPANION_KEY_PRODUCT: &'static str =
    "SOFTWARE\\Microsoft\\Windows\\CurrentVersion\\Uninstall\\PvP Scalpel";

pub const COMPANION_KEY_BUNDLE: &'static str =
    "SOFTWARE\\Microsoft\\Windows\\CurrentVersion\\Uninstall\\bg.pvpscalpel.desktop";

pub const COMPANION_KEY_BUNDLE_COMPAT: &'static str =
    "SOFTWARE\\WOW6432Node\\Microsoft\\Windows\\CurrentVersion\\Uninstall\\bg.pvpscalpel.desktop";

/// The number of places where the companion application is looked for: each of
/// the two scopes with each of the three keys.
pub const COMPANION_PLACES: usize = 6;

/// The scope of the `place`-th place: the user's for the first three, the
/// machine's for the others.
pub open spec fn place_scope(place: int) -> Scope {
    if place < 3 {
        Scope::User
    } else {
        Scope::Machine
    }
}

/// The key path of the `place`-th place: the three keys in turn, in each scope.
pub open spec fn place_key(place: int) -> Seq<char> {
    if place % 3 == 0 {
        COMPANION_KEY_PRODUCT@
    } else if place % 3 == 1 {
        COMPANION_KEY_BUNDLE@
    } else {
        COMPANION_KEY_BUNDLE_COMPAT@
    }
}

/// The address of the value `value_name` at the `place`-th place.
pub open spec fn tuple_at(place: int, value_name: Seq<char>) -> TupleModel {
    TupleModel { scope: place_scope(place), key_path: place_key(place), value_name }
}

/// The search tuple for the value `value_name` at the `place`-th place.
pub fn place_tuple(place: usize, value_name: &str) -> (r: SearchTuple)
    requires
        place < COMPANION_PLACES,
    ensures
        r@ == tuple_at(place as int, value_name@),
{
    let scope = if place < 3 {
        Scope::User
    } else {
        Scope::Machine
    };
    let key = if place % 3 == 0 {
        COMPANION_KEY_PRODUCT
    } else if place % 3 == 1 {
        COMPANION_KEY_BUNDLE
    } else {
        COMPANION_KEY_BUNDLE_COMPAT
    };
    SearchTuple::new(scope, key, value_name)
}

/// The two tuples that may hold the game's root, the primary key first.
pub open spec fn game_root_tuples() -> Seq<TupleModel> {
    seq![
        TupleModel {
            scope: Scope::Machine,
            key_path: GAME_PRIMARY_KEY@,
            value_name: "InstallLocation"@,
        },
        TupleModel {
            scope: Scope::Machine,
            key_path: GAME_FALLBACK_KEY@,
            value_name: "InstallPath"@,
        },
    ]
}

/// The add-on directory: the game's root, cleaned as a directory, with the
/// add-on suffix behind it.
pub open spec fn wow_path(values: Map<TupleModel, Seq<char>>) -> Option<Seq<char>> {
    match resolved(values, game_root_tuples(), CleanupPolicy::DirectoryPath) {
        Some(root) => Some(root + ADDONS_SUFFIX@),
        None => None,
    }
}

/// The game's add-on directory, or `None` where neither key holds the root.
pub fn get_wow_path(store: &ConfigStore) -> (r: Option<String>)
    ensures
        text_of(r) == wow_path(store@),
{
    let mut tuples: Vec<SearchTuple> = Vec::new();
    tuples.push(SearchTuple::new(Scope::Machine, GAME_PRIMARY_KEY, "InstallLocation"));
    tuples.push(SearchTuple::new(Scope::Machine, GAME_FALLBACK_KEY, "InstallPath"));
    proof {
        assert(models(tuples@) =~= game_root_tuples());
    }
    match resolve(store, &tuples, CleanupPolicy::DirectoryPath) {
        Some(root) => Some(root.concat(ADDONS_SUFFIX)),
        None => None,
    }
}

/// The number of tuples that the directory query tries: four value names at
/// each place.
pub const DIRECTORY_TRIES: usize = 24;

/// The value name of the `k`-th try at a place: three directory-style names,
/// then the icon's.
pub open spec fn directory_value_name(k: int) -> Seq<char> {
    if k == 0 {
        "InstallLocation"@
    } else if k == 1 {
        "InstallPath"@
    } else if k == 2 {
        "InstallDir"@
    } else {
        "DisplayIcon"@
    }
}

/// The cleanup of the `k`-th try at a place: the icon's path gives its parent.
pub open spec fn directory_policy(k: int) -> CleanupPolicy {
    if k == 3 {
        CleanupPolicy::IconPathToParentDir
    } else {
        CleanupPolicy::DirectoryPath
    }
}

/// The address of the `i`-th try of the directory query: scope outermost, then
/// key path, then value name.
pub open spec fn directory_tuple(i: int) -> TupleModel {
    tuple_at(i / 4, directory_value_name(i % 4))
}

/// A cleaned value that is not empty.
pub open spec fn nonempty(value: Option<Seq<char>>) -> Option<Seq<char>> {
    match value {
        Some(text) => if text.len() > 0 {
            Some(text)
        } else {
            None
        },
        None => None,
    }
}

/// What the `i`-th try of the directory query gives: the cleaned value at its
/// address, if there is a value and what the cleanup leaves of it is not empty.
pub open spec fn directory_yield(values: Map<TupleModel, Seq<char>>, i: int) -> Option<
    Seq<char>,
> {
    nonempty(yielded(values, directory_tuple(i), directory_policy(i % 4)))
}

/// What the first try from `from` on gives that gives anything.
pub open spec fn desktop_path_from(values: Map<TupleModel, Seq<char>>, from: int) -> Option<
    Seq<char>,
>
    decreases DIRECTORY_TRIES - from,
{
    if from < 0 || from >= DIRECTORY_TRIES {
        None
    } else if directory_yield(values, from) is Some {
        directory_yield(values, from)
    } else {
        desktop_path_from(values, from + 1)
    }
}

/// The companion application's install directory: the first non-empty cleaned
/// value among the twenty-four tries, in their order. A value that is absent,
/// an icon's path without a parent and a value of which the cleanup leaves
/// nothing are passed over.
pub fn get_desktop_path(store: &ConfigStore) -> (r: Option<String>)
    ensures
        text_of(r) == desktop_path_from(store@, 0),
{
    let mut i: usize = 0;
    while i < DIRECTORY_TRIES
        invariant
            i <= DIRECTORY_TRIES,
            desktop_path_from(store@, i as int) == desktop_path_from(store@, 0),
        decreases DIRECTORY_TRIES - i,
    {
        let k: usize = i % 4;
        let tuple = if k == 0 {
            place_tuple(i / 4, "InstallLocation")
        } else if k == 1 {
            place_tuple(i / 4, "InstallPath")
        } else if k == 2 {
            place_tuple(i / 4, "InstallDir")
        } else {
            place_tuple(i / 4, "DisplayIcon")
        };
        let policy = if k == 3 {
            CleanupPolicy::IconPathToParentDir
        } else {
            CleanupPolicy::DirectoryPath
        };
        match store.read(&tuple) {
            Some(raw) => {
                match cleanup(raw.as_str(), policy) {
                    Some(found) => {
                        if !found.as_str().is_empty() {
                            return Some(found);
                        }
                    },
                    None => {},
                }
            },
            None => {},
        }
        i = i + 1;
    }
    None
}

/// The directory query returns the cleaned value of the first try that gives a
/// non-empty one: a result is not empty and comes from a try before which no
/// try gives anything, and there is no result exactly when no try gives
/// anything.
pub proof fn law_directory_first_nonempty(values: Map<TupleModel, Seq<char>>, from: int)
    requires
        0 <= from <= DIRECTORY_TRIES,
    ensures
        match desktop_path_from(values, from) {
            Some(found) => found.len() > 0 && exists|i: int|
                from <= i < DIRECTORY_TRIES && #[trigger] directory_yield(values, i) == Some(
                    found,
                ) && forall|j: int| from <= j < i ==> directory_yield(values, j) is None,
            None => forall|i: int|
                from <= i < DIRECTORY_TRIES ==> directory_yield(values, i) is None,
        },
    decreases DIRECTORY_TRIES - from,
{
    if from < DIRECTORY_TRIES && directory_yield(values, from) is None {
        law_directory_first_nonempty(values, from + 1);
        match desktop_path_from(values, from + 1) {
            Some(found) => {
                let i = choose|i: int|
                    from + 1 <= i < DIRECTORY_TRIES && #[trigger] directory_yield(values, i)
                        == Some(found) && forall|j: int|
                        from + 1 <= j < i ==> directory_yield(values, j) is None;
                assert(forall|j: int| from <= j < i ==> directory_yield(values, j) is None);
            },
            None => {},
        }
    }
}

/// What stands behind the first try that gives a directory does not count: two
/// stores that agree on the tries up to one that gives a directory in the
/// first give the same directory, however they differ behind it.
pub proof fn law_directory_later_values_do_not_count(
    first: Map<TupleModel, Seq<char>>,
    second: Map<TupleModel, Seq<char>>,
    from: int,
    hit: int,
)
    requires
        0 <= from <= hit < DIRECTORY_TRIES,
        directory_yield(first, hit) is Some,
        forall|i: int|
            from <= i <= hit ==> value_at(first, #[trigger] directory_tuple(i)) == value_at(
                second,
                directory_tuple(i),
            ),
    ensures
        desktop_path_from(first, from) == desktop_path_from(second, from),
    decreases hit - from,
{
    assert(value_at(first, directory_tuple(from)) == value_at(second, directory_tuple(from)));
    if from < hit && directory_yield(first, from) is None {
        law_directory_later_values_do_not_count(first, second, from + 1, hit);
    }
}

/// The three version-style values of a place, in the order of the search.
pub open spec fn version_tuples(place: int) -> Seq<TupleModel> {
    seq![
        tuple_at(place, "DisplayVersion"@),
        tuple_at(place, "Version"@),
        tuple_at(place, "ProductVersion"@),
    ]
}

/// The version that the first place from `from` on gives that gives one.
pub open spec fn desktop_version_from(values: Map<TupleModel, Seq<char>>, from: int) -> Option<
    Seq<char>,
>
    decreases COMPANION_PLACES - from,
{
    if from < 0 || from >= COMPANION_PLACES {
        None
    } else if resolved(values, version_tuples(from), CleanupPolicy::RawVersion) is Some {
        resolved(values, version_tuples(from), CleanupPolicy::RawVersion)
    } else {
        desktop_version_from(values, from + 1)
    }
}

/// The companion application's version as its installer wrote it: the places
/// are searched in order, in each the three version-style values.
pub fn get_desktop_version(store: &ConfigStore) -> (r: Option<String>)
    ensures
        text_of(r) == desktop_version_from(store@, 0),
{
    let mut place: usize = 0;
    while place < COMPANION_PLACES
        invariant
            place <= COMPANION_PLACES,
            desktop_version_from(store@, place as int) == desktop_version_from(store@, 0),
        decreases COMPANION_PLACES - place,
    {
        let mut tuples: Vec<SearchTuple> = Vec::new();
        tuples.push(place_tuple(place, "DisplayVersion"));
        tuples.push(place_tuple(place, "Version"));
        tuples.push(place_tuple(place, "ProductVersion"));
        proof {
            assert(models(tuples@) =~= version_tuples(place as int));
        }
        let version = resolve(store, &tuples, CleanupPolicy::RawVersion);
        if version.is_some() {
            return version;
        }
        place = place + 1;
    }
    None
}

/// The eighteen tuples of the version query as one list: scope outermost, then
/// key path, then value name.
pub open spec fn version_search() -> Seq<TupleModel> {
    version_tuples(0) + version_tuples(1) + version_tuples(2) + version_tuples(3)
        + version_tuples(4) + version_tuples(5)
}

/// The version query is one first-match search over `version_search`.
pub proof fn law_version_query_is_one_search(values: Map<TupleModel, Seq<char>>)
    ensures
        desktop_version_from(values, 0) == resolved(
            values,
            version_search(),
            CleanupPolicy::RawVersion,
        ),
{
    let policy = CleanupPolicy::RawVersion;
    let upto4 = version_tuples(0) + version_tuples(1) + version_tuples(2) + version_tuples(3)
        + version_tuples(4);
    let upto3 = version_tuples(0) + version_tuples(1) + version_tuples(2) + version_tuples(3);
    let upto2 = version_tuples(0) + version_tuples(1) + version_tuples(2);
    let upto1 = version_tuples(0) + version_tuples(1);
    law_search_in_sequence(values, upto4, version_tuples(5), policy);
    law_search_in_sequence(values, upto3, version_tuples(4), policy);
    law_search_in_sequence(values, upto2, version_tuples(3), policy);
    law_search_in_sequence(values, upto1, version_tuples(2), policy);
    law_search_in_sequence(values, version_tuples(0), version_tuples(1), policy);
    reveal_with_fuel(desktop_version_from, 7);
}

/// The eight values that some query reads at a place.
pub open spec fn place_tuples(place: int) -> Seq<TupleModel> {
    seq![
        tuple_at(place, "InstallLocation"@),
        tuple_at(place, "InstallPath"@),
        tuple_at(place, "InstallDir"@),
        tuple_at(place, "DisplayIcon"@),
        tuple_at(place, "DisplayVersion"@),
        tuple_at(place, "Version"@),
        tuple_at(place, "ProductVersion"@),
        tuple_at(place, "MainBinaryName"@),
    ]
}

/// The game's two tuples, then the values of the first `places` places.
pub open spec fn searched_upto(places: int) -> Seq<TupleModel>
    decreases places,
{
    if places <= 0 {
        game_root_tuples()
    } else {
        searched_upto(places - 1) + place_tuples(places - 1)
    }
}

/// Every address that a query of this library reads. A store that holds the
/// values at these addresses answers every query.
pub fn searched_tuples() -> (r: Vec<SearchTuple>)
    ensures
        models(r@) == searched_upto(COMPANION_PLACES as int),
{
    let mut out: Vec<SearchTuple> = Vec::new();
    out.push(SearchTuple::new(Scope::Machine, GAME_PRIMARY_KEY, "InstallLocation"));
    out.push(SearchTuple::new(Scope::Machine, GAME_FALLBACK_KEY, "InstallPath"));
    proof {
        assert(models(out@) =~= searched_upto(0));
    }
    let mut place: usize = 0;
    while place < COMPANION_PLACES
        invariant
            place <= COMPANION_PLACES,
            models(out@) == searched_upto(place as int),
        decreases COMPANION_PLACES - place,
    {
        let ghost before = models(out@);
        out.push(place_tuple(place, "InstallLocation"));
        out.push(place_tuple(place, "InstallPath"));
        out.push(place_tuple(place, "InstallDir"));
        out.push(place_tuple(place, "DisplayIcon"));
        out.push(place_tuple(place, "DisplayVersion"));
        out.push(place_tuple(place, "Version"));
        out.push(place_tuple(place, "ProductVersion"));
        out.push(place_tuple(place, "MainBinaryName"));
        proof {
            assert(models(out@) =~= before + place_tuples(place as int));
        }
        place = place + 1;
    }
    out
}

/// Whether two stores hold the same at every address that a query reads.
pub open spec fn agree_where_searched(
    first: Map<TupleModel, Seq<char>>,
    second: Map<TupleModel, Seq<char>>,
) -> bool {
    forall|i: int|
        0 <= i < searched_upto(COMPANION_PLACES as int).len() ==> value_at(
            first,
            #[trigger] searched_upto(COMPANION_PLACES as int)[i],
        ) == value_at(second, searched_upto(COMPANION_PLACES as int)[i])
}

/// Where in `searched_upto` the game's tuples and the values of a place stand.
pub proof fn lemma_searched_layout(places: int, place: int, k: int)
    requires
        0 <= place < places,
        0 <= k < 8,
    ensures
        searched_upto(places).len() == 2 + 8 * places,
        searched_upto(places)[0] == game_root_tuples()[0],
        searched_upto(places)[1] == game_root_tuples()[1],
        searched_upto(places)[2 + 8 * place + k] == place_tuples(place)[k],
    decreases places,
{
    if places == 1 {
        assert(searched_upto(0) == game_root_tuples());
    } else if place < places - 1 {
        lemma_searched_layout(places - 1, place, k);
    } else {
        lemma_searched_layout(places - 1, place - 1, k);
    }
}

/// Stores that agree where the queries read agree on each value of each place
/// and on the game's two values.
pub proof fn lemma_agree_at_place(
    first: Map<TupleModel, Seq<char>>,
    second: Map<TupleModel, Seq<char>>,
    place: int,
)
    requires
        agree_where_searched(first, second),
        0 <= place < COMPANION_PLACES,
    ensures
        forall|k: int|
            0 <= k < 8 ==> value_at(first, #[trigger] place_tuples(place)[k]) == value_at(
                second,
                place_tuples(place)[k],
            ),
        forall|k: int|
            0 <= k < 2 ==> value_at(first, #[trigger] game_root_tuples()[k]) == value_at(
                second,
                game_root_tuples()[k],
            ),
{
    let all = searched_upto(COMPANION_PLACES as int);
    assert forall|k: int| 0 <= k < 8 implies value_at(first, #[trigger] place_tuples(place)[k])
        == value_at(second, place_tuples(place)[k]) by {
        lemma_searched_layout(COMPANION_PLACES as int, place, k);
        assert(all[2 + 8 * place + k] == place_tuples(place)[k]);
    }
    lemma_searched_layout(COMPANION_PLACES as int, place, 0);
    assert(all[0] == game_root_tuples()[0]);
    assert(all[1] == game_root_tuples()[1]);
}

/// Stores that agree where the queries read give the same for each try of the
/// directory query and the same version at each place.
pub proof fn lemma_place_answers_agree(
    first: Map<TupleModel, Seq<char>>,
    second: Map<TupleModel, Seq<char>>,
    place: int,
)
    requires
        agree_where_searched(first, second),
        0 <= place < COMPANION_PLACES,
    ensures
        forall|k: int|
            0 <= k < 4 ==> #[trigger] directory_yield(first, 4 * place + k) == directory_yield(
                second,
                4 * place + k,
            ),
        resolved(first, version_tuples(place), CleanupPolicy::RawVersion) == resolved(
            second,
            version_tuples(place),
            CleanupPolicy::RawVersion,
        ),
{
    lemma_agree_at_place(first, second, place);
    let here = place_tuples(place);
    assert forall|k: int| 0 <= k < 4 implies #[trigger] directory_yield(first, 4 * place + k)
        == directory_yield(second, 4 * place + k) by {
        assert((4 * place + k) / 4 == place && (4 * place + k) % 4 == k);
        assert(directory_tuple(4 * place + k) == here[k]);
    }
    assert(version_tuples(place)[0] == here[4]);
    assert(version_tuples(place)[1] == here[5]);
    assert(version_tuples(place)[2] == here[6]);
    law_only_searched_values_count(
        first,
        second,
        version_tuples(place),
        CleanupPolicy::RawVersion,
    );
}

/// Stores that give the same at every try from `from` on give the same
/// directory from there.
pub proof fn lemma_same_tries_same_directory(
    first: Map<TupleModel, Seq<char>>,
    second: Map<TupleModel, Seq<char>>,
    from: int,
)
    requires
        0 <= from <= DIRECTORY_TRIES,
        forall|i: int|
            from <= i < DIRECTORY_TRIES ==> #[trigger] directory_yield(first, i)
                == directory_yield(second, i),
    ensures
        desktop_path_from(first, from) == desktop_path_from(second, from),
    decreases DIRECTORY_TRIES - from,
{
    if from < DIRECTORY_TRIES {
        lemma_same_tries_same_directory(first, second, from + 1);
    }
}

/// A store that holds the values at the addresses of `searched_tuples` answers
/// the three queries as the whole configuration store does.
pub proof fn law_searched_values_answer_queries(
    first: Map<TupleModel, Seq<char>>,
    second: Map<TupleModel, Seq<char>>,
)
    requires
        agree_where_searched(first, second),
    ensures
        wow_path(first) == wow_path(second),
        desktop_path_from(first, 0) == desktop_path_from(second, 0),
        desktop_version_from(first, 0) == desktop_version_from(second, 0),
{
    lemma_agree_at_place(first, second, 0);
    law_only_searched_values_count(
        first,
        second,
        game_root_tuples(),
        CleanupPolicy::DirectoryPath,
    );
    lemma_place_answers_agree(first, second, 0);
    lemma_place_answers_agree(first, second, 1);
    lemma_place_answers_agree(first, second, 2);
    lemma_place_answers_agree(first, second, 3);
    lemma_place_answers_agree(first, second, 4);
    lemma_place_answers_agree(first, second, 5);
    assert forall|i: int| 0 <= i < DIRECTORY_TRIES implies #[trigger] directory_yield(first, i)
        == directory_yield(second, i) by {
        assert(i == 4 * (i / 4) + i % 4);
        assert(directory_yield(first, 4 * (i / 4) + i % 4) == directory_yield(
            second,
            4 * (i / 4) + i % 4,
        ));
    }
    lemma_same_tries_same_directory(first, second, 0);
    reveal_with_fuel(desktop_version_from, 7);
}

} // verus!
