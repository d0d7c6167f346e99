//! Which executable of the companion application is started: the candidates
//! that the store names, and the first of them that is a file.

use vstd::prelude::*;
use vstd::string::*;
use crate::locator::{
    COMPANION_PLACES, agree_where_searched, lemma_agree_at_place, place_tuple, place_tuples,
    tuple_at,
};
use crate::resolver::{unquoted_path, unquoted_range};
use crate::store::{ConfigStore, TupleModel, value_at};
use crate::text::{CharClass, copy_range, trim, trim_end, trim_end_in, trim_start_in};

verus! {

/// A path that may be the companion application's executable.
#[derive(Clone, Debug, PartialEq, Eq)]
pub enum ExecutableCandidate {
    /// A file path, as the icon's value gives it.
    File(String),
    /// A file named `binary` in the directory `directory`.
    InDirectory { directory: String, binary: String },
}

/// An `ExecutableCandidate` as a mathematical value.
pub ghost enum CandidateModel {
    File(Seq<char>),
    InDirectory { directory: Seq<char>, binary: Seq<char> },
}

impl View for ExecutableCandidate {
    type V = CandidateModel;

    open spec fn view(&self) -> CandidateModel {
        match self {
            ExecutableCandidate::File(path) => CandidateModel::File(path@),
            ExecutableCandidate::InDirectory { directory, binary } => CandidateModel::InDirectory {
                directory: directory@,
                binary: binary@,
            },
        }
    }
}

impl ExecutableCandidate {
    /// A copy of the candidate.
    pub fn duplicate(&self) -> (r: ExecutableCandidate)
        ensures
            r@ == self@,
    {
        match self {
            ExecutableCandidate::File(path) => ExecutableCandidate::File(path.clone()),
            ExecutableCandidate::InDirectory { directory, binary } => {
                ExecutableCandidate::InDirectory {
                    directory: directory.clone(),
                    binary: binary.clone(),
                }
            },
        }
    }
}

/// The candidates of a vector as mathematical values.
pub open spec fn candidate_models(candidates: Seq<ExecutableCandidate>) -> Seq<CandidateModel> {
    candidates.map_values(|c: ExecutableCandidate| c@)
}

/// A raw directory value as the directory of a binary: without quotes around it
/// and without trailing separators.
pub open spec fn binary_root(raw: Seq<char>) -> Seq<char> {
    trim_end(trim(raw, CharClass::Quote), CharClass::Separator)
}

/// The candidate that the icon's value of a place gives, if the value is there.
pub open spec fn icon_candidate(values: Map<TupleModel, Seq<char>>, place: int) -> Seq<
    CandidateModel,
> {
    match value_at(values, tuple_at(place, "DisplayIcon"@)) {
        Some(raw) => seq![CandidateModel::File(unquoted_path(raw))],
        None => seq![],
    }
}

/// The candidate that one directory-style value of a place gives for a binary,
/// if the value is there.
pub open spec fn directory_candidate(
    values: Map<TupleModel, Seq<char>>,
    place: int,
    value_name: Seq<char>,
    binary: Seq<char>,
) -> Seq<CandidateModel> {
    match value_at(values, tuple_at(place, value_name)) {
        Some(raw) => seq![CandidateModel::InDirectory { directory: binary_root(raw), binary }],
        None => seq![],
    }
}

/// The candidates that the binary's name gives with the directory-style values
/// of a place, if the name is there.
pub open spec fn binary_candidates(values: Map<TupleModel, Seq<char>>, place: int) -> Seq<
    CandidateModel,
> {
    match value_at(values, tuple_at(place, "MainBinaryName"@)) {
        Some(binary) => directory_candidate(values, place, "InstallLocation"@, binary)
            + directory_candidate(values, place, "InstallPath"@, binary) + directory_candidate(
            values,
            place,
            "InstallDir"@,
            binary,
        ),
        None => seq![],
    }
}

/// The candidates of the first `places` places, in the order in which they are
/// tried: in each place the icon's path, then the binary in each directory.
pub open spec fn candidates_upto(values: Map<TupleModel, Seq<char>>, places: int) -> Seq<
    CandidateModel,
>
    decreases places,
{
    if places <= 0 {
        seq![]
    } else {
        candidates_upto(values, places - 1) + icon_candidate(values, places - 1)
            + binary_candidates(values, places - 1)
    }
}

/// All candidates that the store names.
pub open spec fn all_candidates(values: Map<TupleModel, Seq<char>>) -> Seq<CandidateModel> {
    candidates_upto(values, COMPANION_PLACES as int)
}

/// Whether the `i`-th candidate was found to be a file. A candidate without a
/// flag counts as missing.
pub open spec fn is_file_at(is_file: Seq<bool>, i: int) -> bool {
    0 <= i < is_file.len() && is_file[i]
}

fn push_directory_candidate(
    out: &mut Vec<ExecutableCandidate>,
    store: &ConfigStore,
    place: usize,
    value_name: &str,
    binary: &String,
)
    requires
        place < COMPANION_PLACES,
    ensures
        candidate_models(final(out)@) == candidate_models(old(out)@) + directory_candidate(
            store@,
            place as int,
            value_name@,
            binary@,
        ),
{
    let ghost before = out@;
    match store.read(&place_tuple(place, value_name)) {
        Some(raw) => {
            let n: usize = raw.as_str().unicode_len();
            proof {
                assert(raw@.subrange(0, n as int) =~= raw@);
            }
            let start: usize = trim_start_in(raw.as_str(), 0, n, CharClass::Quote);
            let end: usize = trim_end_in(raw.as_str(), start, n, CharClass::Quote);
            let last: usize = trim_end_in(raw.as_str(), start, end, CharClass::Separator);
            let directory = copy_range(raw.as_str(), start, last);
            out.push(ExecutableCandidate::InDirectory { directory, binary: binary.clone() });
            proof {
                assert(candidate_models(out@) =~= candidate_models(before) + directory_candidate(
                    store@,
                    place as int,
                    value_name@,
                    binary@,
                ));
            }
        },
        None => {
            proof {
                assert(candidate_models(out@) =~= candidate_models(before) + directory_candidate(
                    store@,
                    place as int,
                    value_name@,
                    binary@,
                ));
            }
        },
    }
}

fn push_place_candidates(out: &mut Vec<ExecutableCandidate>, store: &ConfigStore, place: usize)
    requires
        place < COMPANION_PLACES,
    ensures
        candidate_models(final(out)@) == candidate_models(old(out)@) + icon_candidate(
            store@,
            place as int,
        ) + binary_candidates(store@, place as int),
{
    let ghost before = candidate_models(out@);
    match store.read(&place_tuple(place, "DisplayIcon")) {
        Some(raw) => {
            let (start, end) = unquoted_range(raw.as_str());
            out.push(ExecutableCandidate::File(copy_range(raw.as_str(), start, end)));
        },
        None => {},
    }
    let ghost with_icon = candidate_models(out@);
    proof {
        assert(with_icon =~= before + icon_candidate(store@, place as int));
    }
    match store.read(&place_tuple(place, "MainBinaryName")) {
        Some(binary) => {
            push_directory_candidate(out, store, place, "InstallLocation", &binary);
            push_directory_candidate(out, store, place, "InstallPath", &binary);
            push_directory_candidate(out, store, place, "InstallDir", &binary);
            proof {
                assert(candidate_models(out@) =~= with_icon + binary_candidates(
                    store@,
                    place as int,
                ));
            }
        },
        None => {
            proof {
                assert(candidate_models(out@) =~= with_icon + binary_candidates(
                    store@,
                    place as int,
                ));
            }
        },
    }
}

/// The paths that may be the companion application's executable, in the order
/// in which they are to be tried.
pub fn exe_candidates(store: &ConfigStore) -> (r: Vec<ExecutableCandidate>)
    ensures
        candidate_models(r@) == all_candidates(store@),
{
    let mut out: Vec<ExecutableCandidate> = Vec::new();
    let mut place: usize = 0;
    proof {
        assert(candidate_models(out@) =~= candidates_upto(store@, 0));
    }
    while place < COMPANION_PLACES
        invariant
            place <= COMPANION_PLACES,
            candidate_models(out@) == candidates_upto(store@, place as int),
        decreases COMPANION_PLACES - place,
    {
        push_place_candidates(&mut out, store, place);
        place = place + 1;
    }
    out
}

/// The first candidate that was found to be a file. `is_file` holds, for each
/// candidate of `exe_candidates` in its order, whether a file stands at its
/// path. A candidate that is no file is never returned.
pub fn find_desktop_exe(store: &ConfigStore, is_file: &Vec<bool>) -> (r: Option<
    ExecutableCandidate,
>)
    ensures
        match r {
            Some(found) => exists|i: int|
                0 <= i < all_candidates(store@).len() && is_file_at(is_file@, i) && found@
                    == #[trigger] all_candidates(store@)[i] && forall|j: int|
                    0 <= j < i ==> !is_file_at(is_file@, j),
            None => forall|i: int|
                0 <= i < all_candidates(store@).len() ==> !is_file_at(is_file@, i),
        },
{
    let candidates = exe_candidates(store);
    let mut i: usize = 0;
    while i < candidates.len() && i < is_file.len()
        invariant
            i <= candidates@.len(),
            candidate_models(candidates@) == all_candidates(store@),
            forall|j: int| 0 <= j < i ==> !is_file_at(is_file@, j),
        decreases candidates@.len() - i,
    {
        if is_file[i] {
            let found = candidates[i].duplicate();
            proof {
                assert(candidate_models(candidates@)[i as int] == candidates@[i as int]@);
            }
            return Some(found);
        }
        i = i + 1;
    }
    None
}

/// Why the companion application was not started.
#[derive(Clone, Debug, PartialEq, Eq)]
pub enum LaunchError {
    /// No candidate is a file.
    NotFound,
    /// The operating system refused to start the process.
    SpawnFailed(String),
}

impl LaunchError {
    /// The message that the caller shows.
    pub fn message(&self) -> (r: String)
        ensures
            r@ == match self {
                LaunchError::NotFound => "Desktop app not found"@,
                LaunchError::SpawnFailed(detail) => "Failed to launch desktop app: "@ + detail@,
            },
    {
        match self {
            LaunchError::NotFound => "Desktop app not found".to_owned(),
            LaunchError::SpawnFailed(detail) => "Failed to launch desktop app: ".to_owned().concat(
                detail.as_str(),
            ),
        }
    }
}

/// The executable to start, once and without waiting for it: the first
/// candidate that is a file, or `NotFound` where none is.
pub fn launch_desktop_app(store: &ConfigStore, is_file: &Vec<bool>) -> (r: Result<
    ExecutableCandidate,
    LaunchError,
>)
    ensures
        match r {
            Ok(found) => exists|i: int|
                0 <= i < all_candidates(store@).len() && is_file_at(is_file@, i) && found@
                    == #[trigger] all_candidates(store@)[i] && forall|j: int|
                    0 <= j < i ==> !is_file_at(is_file@, j),
            Err(e) => e is NotFound && forall|i: int|
                0 <= i < all_candidates(store@).len() ==> !is_file_at(is_file@, i),
        },
{
    match find_desktop_exe(store, is_file) {
        Some(found) => Ok(found),
        None => Err(LaunchError::NotFound),
    }
}

/// The outcome of a launch once the process was asked for: `spawn_error` holds
/// what the operating system said where it refused.
pub fn launch_outcome(spawn_error: Option<String>) -> (r: Result<(), LaunchError>)
    ensures
        match spawn_error {
            Some(detail) => r == Err::<(), LaunchError>(LaunchError::SpawnFailed(detail)),
            None => r is Ok,
        },
{
    match spawn_error {
        Some(detail) => Err(LaunchError::SpawnFailed(detail)),
        None => Ok(()),
    }
}

/// A store that holds the values at the addresses of `searched_tuples` names
/// the same candidates as the whole configuration store does.
pub proof fn law_searched_values_name_candidates(
    first: Map<TupleModel, Seq<char>>,
    second: Map<TupleModel, Seq<char>>,
)
    requires
        agree_where_searched(first, second),
    ensures
        all_candidates(first) == all_candidates(second),
{
    assert forall|place: int| 0 <= place < COMPANION_PLACES implies icon_candidate(first, place)
        == icon_candidate(second, place) && binary_candidates(first, place)
        == binary_candidates(second, place) by {
        lemma_agree_at_place(first, second, place);
        let here = place_tuples(place);
        assert(tuple_at(place, "InstallLocation"@) == here[0]);
        assert(tuple_at(place, "InstallPath"@) == here[1]);
        assert(tuple_at(place, "InstallDir"@) == here[2]);
        assert(tuple_at(place, "DisplayIcon"@) == here[3]);
        assert(tuple_at(place, "MainBinaryName"@) == here[7]);
    }
    reveal_with_fuel(candidates_upto, 7);
}

} // verus!
