//! Persisted run state: where it lives on disk, what it holds, and in which
//! order runs are searched for the latest one.
use vstd::prelude::*;
use crate::clock::{DateTimeFields, Timestamp};
use crate::protocol::{fields_before, lemma_run_ids_order_by_time, run_id_text};
use crate::text::{contains_text, less_than, lemma_text_less_asymmetric, lemma_text_less_transitive, occurs_at, path_join, path_joined, text_less};

verus! {

broadcast use vstd::seq_lib::group_to_multiset_ensures;

/// Persisted run state.
pub struct RunState {
    pub run_id: String,
    pub profile: String,
    pub sandbox_name: String,
    pub inference: InferenceState,
    pub timestamp: Timestamp,
}

/// The inference route a run set up.
#[derive(Debug, Clone)]
pub struct InferenceState {
    pub provider_type: String,
    pub provider_name: String,
    pub endpoint: String,
    pub model: String,
    pub credential_env: Option<String>,
}

/// `~/.nemoclaw/state/runs` under the home directory `home`.
pub open spec fn state_root(home: Seq<char>) -> Seq<char> {
    path_joined(path_joined(path_joined(home, ".nemoclaw"@), "state"@), "runs"@)
}

/// The home directory, or the current directory `.` when there is none.
pub open spec fn home_or_current(home: Option<Seq<char>>) -> Seq<char> {
    match home {
        Some(h) => h,
        None => "."@,
    }
}

/// The directory of a run under the state root of `home`.
pub open spec fn run_path(home: Seq<char>, run_id: Seq<char>) -> Seq<char> {
    path_joined(state_root(home), run_id)
}

/// The user's home directory, as text.
///
/// Trusted: calls `dirs::home_dir`, which reads the environment (`$HOME`, else
/// the password database) and may find none. Nothing is stated of the result.
/// Paths are text in this library, so a home directory that is not valid UTF-8
/// comes back with `to_string_lossy`'s replacement characters.
#[verifier::external_body]
fn home_dir() -> (h: Option<String>)
{
    match dirs::home_dir() {
        Some(p) => Some(p.to_string_lossy().into_owned()),
        None => None,
    }
}

/// Whether a file or directory exists at `path`.
///
/// Trusted: calls `std::path::Path::exists`, which asks the file system;
/// nothing is stated of the answer.
#[verifier::external_body]
fn path_exists(path: &str) -> (r: bool)
{
    std::path::Path::new(path).exists()
}

/// The state directory root for the home directory `home` (`.` when there is none).
pub fn state_dir_in(home: Option<&str>) -> (p: String)
    ensures
        p@ == state_root(home_or_current(
            match home {
                Some(h) => Some(h@),
                None => None,
            },
        )),
{
    let base = match home {
        Some(h) => path_join(h, ".nemoclaw"),
        None => path_join(".", ".nemoclaw"),
    };
    let state = path_join(base.as_str(), "state");
    path_join(state.as_str(), "runs")
}

/// The directory of a run, under the home directory `home`.
pub fn run_dir_in(home: Option<&str>, run_id: &str) -> (p: String)
    ensures
        p@ == run_path(
            home_or_current(
                match home {
                    Some(h) => Some(h@),
                    None => None,
                },
            ),
            run_id@,
        ),
{
    let root = state_dir_in(home);
    path_join(root.as_str(), run_id)
}

/// Get the state directory root: `~/.nemoclaw/state/runs/`.
pub fn state_dir() -> (p: String)
    ensures
        exists|home: Seq<char>| p@ == state_root(home),
{
    let home = home_dir();
    match &home {
        Some(h) => state_dir_in(Some(h.as_str())),
        None => state_dir_in(None),
    }
}

/// Get the directory for a specific run.
pub fn run_dir(run_id: &str) -> (p: String)
    ensures
        exists|home: Seq<char>| p@ == run_path(home, run_id@),
{
    let home = home_dir();
    match &home {
        Some(h) => run_dir_in(Some(h.as_str()), run_id),
        None => run_dir_in(None, run_id),
    }
}

/// The view of an optional home directory.
pub open spec fn home_view(home: Option<&str>) -> Option<Seq<char>> {
    match home {
        Some(h) => Some(h@),
        None => None,
    }
}

/// The file that holds the saved state of a run, under the home directory `home`.
pub fn plan_file_in(home: Option<&str>, run_id: &str) -> (p: String)
    ensures
        p@ == path_joined(run_path(home_or_current(home_view(home)), run_id@), "plan.json"@),
{
    let dir = run_dir_in(home, run_id);
    path_join(dir.as_str(), "plan.json")
}

/// The run-state marker of a run, under the home directory `home`.
pub fn rolled_back_marker_in(home: Option<&str>, run_id: &str) -> (p: String)
    ensures
        p@ == path_joined(run_path(home_or_current(home_view(home)), run_id@), "rolled_back"@),
{
    let dir = run_dir_in(home, run_id);
    path_join(dir.as_str(), "rolled_back")
}

/// The file that holds the saved state of a run.
pub fn plan_file(run_id: &str) -> (p: String)
    ensures
        exists|home: Seq<char>| p@ == path_joined(run_path(home, run_id@), "plan.json"@),
{
    let home = home_dir();
    match &home {
        Some(h) => plan_file_in(Some(h.as_str()), run_id),
        None => plan_file_in(None, run_id),
    }
}

/// The file whose presence marks a run as rolled back.
pub fn rolled_back_marker(run_id: &str) -> (p: String)
    ensures
        exists|home: Seq<char>| p@ == path_joined(run_path(home, run_id@), "rolled_back"@),
{
    let home = home_dir();
    match &home {
        Some(h) => rolled_back_marker_in(Some(h.as_str()), run_id),
        None => rolled_back_marker_in(None, run_id),
    }
}

/// Law: for one home directory, a run's saved state and its rolled-back marker
/// are files directly inside that run's directory, and different files.
pub proof fn lemma_run_files_in_run_dir(home: Seq<char>, run_id: Seq<char>)
    ensures
        ({
            let dir = run_path(home, run_id);
            let plan = path_joined(dir, "plan.json"@);
            let marker = path_joined(dir, "rolled_back"@);
            &&& plan.len() > dir.len() && plan.take(dir.len() as int) == dir
            &&& marker.len() > dir.len() && marker.take(dir.len() as int) == dir
            &&& plan != marker
        }),
{
    reveal_strlit("plan.json");
    reveal_strlit("rolled_back");
    let dir = run_path(home, run_id);
    let plan = path_joined(dir, "plan.json"@);
    let marker = path_joined(dir, "rolled_back"@);
    let dl = dir.len() as int;
    assert(plan.take(dl) =~= dir);
    assert(marker.take(dl) =~= dir);
    if dir.len() == 0 || dir.last() == '/' {
        assert(plan[dl] == 'p' && marker[dl] == 'r');
    } else {
        assert(plan[dl + 1] == 'p' && marker[dl + 1] == 'r');
    }
}

/// Check if a run has been rolled back: whether its marker file exists.
pub fn is_rolled_back(run_id: &str) -> bool {
    let marker = rolled_back_marker(run_id);
    path_exists(marker.as_str())
}

/// Law: the directory of a run contains the run id.
pub proof fn lemma_run_dir_contains_run_id(home: Seq<char>, run_id: Seq<char>)
    ensures
        contains_text(run_path(home, run_id), run_id),
{
    let root = state_root(home);
    let p = run_path(home, run_id);
    let rl = root.len() as int;
    let il = run_id.len() as int;
    if run_id.len() > 0 && run_id[0] == '/' {
        assert(p.subrange(0, il) =~= run_id);
        assert(occurs_at(p, run_id, 0));
    } else if root.len() == 0 || root.last() == '/' {
        assert(p.subrange(rl, rl + il) =~= run_id);
        assert(occurs_at(p, run_id, rl));
    } else {
        assert(p.subrange(rl + 1, rl + 1 + il) =~= run_id);
        assert(occurs_at(p, run_id, rl + 1));
    }
}

/// The texts are in descending order: none comes before a later one.
pub open spec fn descending(names: Seq<Seq<char>>) -> bool {
    forall|i: int, j: int|
        0 <= i < j < names.len() ==> !text_less(#[trigger] names[i], #[trigger] names[j])
}

/// Run directory names in the order they are tried for the latest run: sorted,
/// then reversed, so the greatest name comes first.
pub fn newest_first(names: Vec<String>) -> (sorted: Vec<String>)
    ensures
        descending(sorted.deep_view()),
        sorted.deep_view().to_multiset() == names.deep_view().to_multiset(),
{
    let mut sorted: Vec<String> = Vec::new();
    let mut k: usize = 0;
    while k < names.len()
        invariant
            k <= names@.len(),
            descending(sorted.deep_view()),
            sorted.deep_view().to_multiset() == names.deep_view().take(k as int).to_multiset(),
        decreases names@.len() - k,
    {
        let name = names[k].clone();
        // The first position whose name sorts before the new one.
        let mut p: usize = 0;
        while p < sorted.len() && !less_than(sorted[p].as_str(), name.as_str())
            invariant
                p <= sorted@.len(),
                forall|i: int| 0 <= i < p ==> !text_less(sorted.deep_view()[i], name@),
            decreases sorted@.len() - p,
        {
            p = p + 1;
        }
        let ghost old_view = sorted.deep_view();
        sorted.insert(p, name);
        proof {
            let nv = names[k as int]@;
            assert(sorted.deep_view() =~= old_view.insert(p as int, nv));
            assert forall|i: int, j: int|
                0 <= i < j < sorted.deep_view().len() implies !text_less(
                #[trigger] sorted.deep_view()[i],
                #[trigger] sorted.deep_view()[j],
            ) by {
                let s = sorted.deep_view();
                if j < p {
                    assert(s[i] == old_view[i] && s[j] == old_view[j]);
                } else if j == p {
                    assert(s[i] == old_view[i]);
                } else if i > p {
                    assert(s[i] == old_view[i - 1] && s[j] == old_view[j - 1]);
                } else if i == p {
                    // old_view[p] sorts before the new name; later ones are not above it.
                    assert(s[j] == old_view[j - 1]);
                    assert(text_less(old_view[p as int], nv));
                    if text_less(nv, s[j]) {
                        if j - 1 == p {
                            lemma_text_less_asymmetric(nv, old_view[p as int]);
                        } else {
                            assert(!text_less(old_view[p as int], old_view[j - 1]));
                            lemma_text_less_transitive(old_view[p as int], nv, old_view[j - 1]);
                        }
                    }
                } else {
                    // i < p < j
                    assert(s[i] == old_view[i] && s[j] == old_view[j - 1]);
                }
            }
            assert(names.deep_view().take(k + 1) =~= names.deep_view().take(k as int).push(nv));
        }
        k = k + 1;
    }
    assert(names.deep_view().take(names@.len() as int) =~= names.deep_view());
    sorted
}

/// Law: in the order `newest_first` gives, a run made in a later second comes
/// before one made in an earlier second (years 0 to 9999), whatever the random
/// parts of their ids.
pub proof fn lemma_newer_run_tried_first(
    names: Seq<Seq<char>>,
    i: int,
    j: int,
    f1: DateTimeFields,
    hex1: Seq<char>,
    f2: DateTimeFields,
    hex2: Seq<char>,
)
    requires
        descending(names),
        0 <= i < names.len(),
        0 <= j < names.len(),
        names[i] == run_id_text(f1, hex1),
        names[j] == run_id_text(f2, hex2),
        f1.in_range(),
        f2.in_range(),
        0 <= f1.year <= 9999,
        0 <= f2.year <= 9999,
        fields_before(f1, f2),
    ensures
        j < i,
{
    lemma_run_ids_order_by_time(f1, hex1, f2, hex2);
    lemma_text_less_asymmetric(names[i], names[j]);
    if i < j {
        assert(!text_less(names[i], names[j]));
    }
}

} // verus!
