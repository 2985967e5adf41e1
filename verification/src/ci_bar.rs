//! The bar that shows the state of a repository's CI runs: which runs are
//! tracked, and everything that is shown of one, as plain text and numbers.

use vstd::prelude::*;

use crate::path::{path_key, same_path_text, PathKey};
use crate::text::{
    chars_of, decimal, digit, push_decimal, push_text, str_eq, string_of, strings,
};

verus! {

/// How many heads of one repository are tracked at once.
pub const MAX_CI_TRACKED_HEADS: usize = 3;

/// The state of a run as a whole.
#[derive(Debug, Clone, Copy, PartialEq, Eq, Structural)]
pub enum CiRunStatus {
    Queued,
    Running,
    Success,
    Failure,
    Cancelled,
}

/// The state of one workflow, job or step.
#[derive(Debug, Clone, Copy, PartialEq, Eq, Structural)]
pub enum CiWorkflowStatus {
    Queued,
    InProgress,
    Completed,
}

/// How a workflow, job or step ended.
#[derive(Debug, Clone, Copy, PartialEq, Eq, Structural)]
pub enum CiRunConclusion {
    Success,
    Failure,
    Cancelled,
}

/// A workflow of a run.
#[derive(Debug, PartialEq, Eq)]
pub struct CiWorkflowRun {
    pub run_id: u64,
    pub name: String,
    pub status: CiWorkflowStatus,
    pub conclusion: Option<CiRunConclusion>,
    pub started_at_epoch_secs: Option<u64>,
    pub updated_at_epoch_secs: Option<u64>,
}

/// The run of one head.
#[derive(Debug, PartialEq, Eq)]
pub struct CiRunState {
    pub repository: String,
    pub head_sha: String,
    pub branch: String,
    pub workflows: Vec<CiWorkflowRun>,
    pub rollup: CiRunStatus,
    pub stale: bool,
}

/// A change to the tracked runs.
#[derive(Debug, PartialEq, Eq)]
pub enum CiRunDelta {
    /// The run of a head, in full.
    Put(CiRunState),
    /// A head is no longer tracked.
    Cleared { head_sha: String },
}

/// A step of a job.
#[derive(Debug, PartialEq, Eq)]
pub struct CiJobStep {
    pub name: String,
    pub status: CiWorkflowStatus,
    pub conclusion: Option<CiRunConclusion>,
}

/// A job of a workflow.
#[derive(Debug, PartialEq, Eq)]
pub struct CiJob {
    pub job_id: u64,
    pub workflow_run_id: u64,
    pub workflow_name: String,
    pub name: String,
    pub status: CiWorkflowStatus,
    pub conclusion: Option<CiRunConclusion>,
    pub started_at_epoch_secs: Option<u64>,
    pub completed_at_epoch_secs: Option<u64>,
    pub steps: Vec<CiJobStep>,
}

/// The jobs of the run of one head.
#[derive(Debug, PartialEq, Eq)]
pub struct CiRunDetails {
    pub head_sha: String,
    pub jobs: Vec<CiJob>,
}

/// Whether a run has stopped moving.
pub open spec fn is_terminal(rollup: CiRunStatus) -> bool {
    rollup == CiRunStatus::Success || rollup == CiRunStatus::Failure || rollup
        == CiRunStatus::Cancelled
}

/// Whether a run has stopped moving.
pub fn terminal(rollup: CiRunStatus) -> (r: bool)
    ensures
        r == is_terminal(rollup),
{
    match rollup {
        CiRunStatus::Success => true,
        CiRunStatus::Failure => true,
        CiRunStatus::Cancelled => true,
        CiRunStatus::Queued => false,
        CiRunStatus::Running => false,
    }
}

// ---- The tracked runs ----

/// The place of a head; the number of heads where it is not there.
pub open spec fn head_place(heads: Seq<CiRunState>, head: Seq<char>) -> int
    decreases heads.len(),
{
    if heads.len() == 0 {
        0
    } else if heads[0].head_sha@ == head {
        0
    } else {
        1 + head_place(heads.skip(1), head)
    }
}

/// Whether a head is there.
pub open spec fn has_head(heads: Seq<CiRunState>, head: Seq<char>) -> bool {
    head_place(heads, head) < heads.len()
}

proof fn head_place_bounds(heads: Seq<CiRunState>, head: Seq<char>)
    ensures
        0 <= head_place(heads, head) <= heads.len(),
        has_head(heads, head) ==> heads[head_place(heads, head)].head_sha@ == head,
        forall|i: int|
            0 <= i < head_place(heads, head) ==> (#[trigger] heads[i]).head_sha@ != head,
    decreases heads.len(),
{
    if heads.len() > 0 && heads[0].head_sha@ != head {
        head_place_bounds(heads.skip(1), head);
        let n = head_place(heads.skip(1), head);
        if n < heads.skip(1).len() {
            assert(heads[n + 1] == heads.skip(1)[n]);
        }
        assert forall|i: int| 0 <= i < head_place(heads, head) implies (
        #[trigger] heads[i]).head_sha@ != head by {
            if i > 0 {
                assert(heads[i] == heads.skip(1)[i - 1]);
            }
        }
    }
}

proof fn head_place_unique(heads: Seq<CiRunState>, head: Seq<char>, n: int)
    requires
        0 <= n <= heads.len(),
        n < heads.len() ==> heads[n].head_sha@ == head,
        forall|i: int| 0 <= i < n ==> (#[trigger] heads[i]).head_sha@ != head,
    ensures
        head_place(heads, head) == n,
{
    head_place_bounds(heads, head);
    let m = head_place(heads, head);
    if m < n {
        assert(heads[m].head_sha@ != head);
    }
    if n < m {
        assert(heads[n].head_sha@ != head);
    }
}

/// The runs that a predicate holds of, in order.
pub open spec fn heads_where(heads: Seq<CiRunState>, keep: spec_fn(CiRunState) -> bool) -> Seq<
    CiRunState,
>
    decreases heads.len(),
{
    if heads.len() == 0 {
        Seq::empty()
    } else {
        let front = heads_where(heads.drop_last(), keep);
        if keep(heads.last()) {
            front.push(heads.last())
        } else {
            front
        }
    }
}

proof fn heads_where_members(heads: Seq<CiRunState>, keep: spec_fn(CiRunState) -> bool)
    ensures
        heads_where(heads, keep).len() <= heads.len(),
        forall|i: int|
            0 <= i < heads_where(heads, keep).len() ==> {
                &&& keep(#[trigger] heads_where(heads, keep)[i])
                &&& heads.contains(heads_where(heads, keep)[i])
            },
        forall|j: int|
            0 <= j < heads.len() && keep(#[trigger] heads[j]) ==> heads_where(
                heads,
                keep,
            ).contains(heads[j]),
    decreases heads.len(),
{
    if heads.len() > 0 {
        let d = heads.drop_last();
        heads_where_members(d, keep);
        let front = heads_where(d, keep);
        let all = heads_where(heads, keep);
        assert forall|i: int| 0 <= i < all.len() implies ({
            &&& keep(#[trigger] all[i])
            &&& heads.contains(all[i])
        }) by {
            if i < front.len() {
                assert(all[i] == front[i]);
                let j = choose|j: int| 0 <= j < d.len() && d[j] == front[i];
                assert(heads[j] == front[i]);
            } else {
                assert(all[i] == heads[heads.len() - 1]);
            }
        }
        assert forall|j: int|
            0 <= j < heads.len() && keep(#[trigger] heads[j]) implies all.contains(heads[j]) by {
            if j < heads.len() - 1 {
                assert(d[j] == heads[j]);
                let i = choose|i: int| 0 <= i < front.len() && front[i] == heads[j];
                assert(all[i] == heads[j]);
            } else {
                assert(all[front.len() as int] == heads[j]);
            }
        }
    }
}

/// The runs that have not stopped moving.
pub open spec fn still_moving() -> spec_fn(CiRunState) -> bool {
    |h: CiRunState| !is_terminal(h.rollup)
}

/// The runs of another head.
pub open spec fn other_head(head: Seq<char>) -> spec_fn(CiRunState) -> bool {
    |h: CiRunState| h.head_sha@ != head
}

/// No head is there twice.
pub open spec fn heads_distinct(heads: Seq<CiRunState>) -> bool {
    forall|i: int, j: int|
        0 <= i < j < heads.len() ==> (#[trigger] heads[i]).head_sha@ != (
        #[trigger] heads[j]).head_sha@
}

proof fn heads_where_distinct(heads: Seq<CiRunState>, keep: spec_fn(CiRunState) -> bool)
    requires
        heads_distinct(heads),
    ensures
        heads_distinct(heads_where(heads, keep)),
    decreases heads.len(),
{
    if heads.len() > 0 {
        let d = heads.drop_last();
        assert(heads_distinct(d)) by {
            assert forall|i: int, j: int| 0 <= i < j < d.len() implies (
            #[trigger] d[i]).head_sha@ != (#[trigger] d[j]).head_sha@ by {
                assert(d[i] == heads[i] && d[j] == heads[j]);
            }
        }
        heads_where_distinct(d, keep);
        heads_where_members(d, keep);
        let front = heads_where(d, keep);
        assert forall|i: int| 0 <= i < front.len() implies (#[trigger] front[i]).head_sha@
            != heads.last().head_sha@ by {
            let k = choose|k: int| 0 <= k < d.len() && d[k] == front[i];
            assert(heads[k] == front[i]);
            assert(heads[k].head_sha@ != heads[heads.len() - 1].head_sha@);
        }
    }
}

/// The runs of a repository after one more: the run of a head that is tracked
/// already takes its place; a new head goes first, the finished runs make way,
/// and of what is then left the newest stay.
pub open spec fn with_run(heads: Seq<CiRunState>, run: CiRunState) -> Seq<CiRunState> {
    if has_head(heads, run.head_sha@) {
        heads.update(head_place(heads, run.head_sha@), run)
    } else {
        let stacked = seq![run] + heads_where(heads, still_moving());
        if stacked.len() <= MAX_CI_TRACKED_HEADS {
            stacked
        } else {
            stacked.take(MAX_CI_TRACKED_HEADS as int)
        }
    }
}

/// The runs of a repository without a head.
pub open spec fn without_run(heads: Seq<CiRunState>, head: Seq<char>) -> Seq<CiRunState> {
    heads_where(heads, other_head(head))
}

/// A repository and its tracked runs, newest first.
#[derive(Debug)]
pub struct RootRuns {
    root: String,
    heads: Vec<CiRunState>,
}

/// The details of one head of a repository.
#[derive(Debug)]
pub struct RootDetails {
    root: String,
    details: CiRunDetails,
}

impl RootRuns {
    /// What the path of the repository amounts to.
    pub closed spec fn key(&self) -> PathKey {
        path_key(self.root@)
    }
}

impl RootDetails {
    /// What the path of the repository amounts to.
    pub closed spec fn key(&self) -> PathKey {
        path_key(self.root@)
    }
}

/// The place of a repository; the number of repositories where it is not there.
pub closed spec fn root_place(states: Seq<RootRuns>, root: PathKey) -> int
    decreases states.len(),
{
    if states.len() == 0 {
        0
    } else if states[0].key() == root {
        0
    } else {
        1 + root_place(states.skip(1), root)
    }
}

proof fn root_place_bounds(states: Seq<RootRuns>, root: PathKey)
    ensures
        0 <= root_place(states, root) <= states.len(),
        root_place(states, root) < states.len() ==> states[root_place(states, root)].key() == root,
        forall|i: int|
            0 <= i < root_place(states, root) ==> (#[trigger] states[i]).key() != root,
    decreases states.len(),
{
    if states.len() > 0 && states[0].key() != root {
        root_place_bounds(states.skip(1), root);
        let n = root_place(states.skip(1), root);
        if n < states.skip(1).len() {
            assert(states[n + 1] == states.skip(1)[n]);
        }
        assert forall|i: int| 0 <= i < root_place(states, root) implies (
        #[trigger] states[i]).key() != root by {
            if i > 0 {
                assert(states[i] == states.skip(1)[i - 1]);
            }
        }
    }
}

proof fn root_place_unique(states: Seq<RootRuns>, root: PathKey, n: int)
    requires
        0 <= n <= states.len(),
        n < states.len() ==> states[n].key() == root,
        forall|i: int| 0 <= i < n ==> (#[trigger] states[i]).key() != root,
    ensures
        root_place(states, root) == n,
{
    root_place_bounds(states, root);
    let m = root_place(states, root);
    if m < n {
        assert(states[m].key() != root);
    }
    if n < m {
        assert(states[n].key() != root);
    }
}

spec fn heads_in(states: Seq<RootRuns>, root: PathKey) -> Seq<CiRunState> {
    let n = root_place(states, root);
    if n < states.len() {
        states[n].heads@
    } else {
        Seq::empty()
    }
}

spec fn detail_place(details: Seq<RootDetails>, root: PathKey, head: Seq<char>) -> int
    decreases details.len(),
{
    if details.len() == 0 {
        0
    } else if details[0].key() == root && details[0].details.head_sha@ == head {
        0
    } else {
        1 + detail_place(details.skip(1), root, head)
    }
}

proof fn detail_place_bounds(details: Seq<RootDetails>, root: PathKey, head: Seq<char>)
    ensures
        0 <= detail_place(details, root, head) <= details.len(),
        detail_place(details, root, head) < details.len() ==> details[detail_place(
            details,
            root,
            head,
        )].key() == root && details[detail_place(details, root, head)].details.head_sha@ == head,
        forall|i: int|
            0 <= i < detail_place(details, root, head) ==> !((#[trigger] details[i]).key() == root
                && details[i].details.head_sha@ == head),
    decreases details.len(),
{
    if details.len() > 0 && !(details[0].key() == root && details[0].details.head_sha@ == head) {
        detail_place_bounds(details.skip(1), root, head);
        let n = detail_place(details.skip(1), root, head);
        if n < details.skip(1).len() {
            assert(details[n + 1] == details.skip(1)[n]);
        }
        assert forall|i: int| 0 <= i < detail_place(details, root, head) implies !((
        #[trigger] details[i]).key() == root && details[i].details.head_sha@ == head) by {
            if i > 0 {
                assert(details[i] == details.skip(1)[i - 1]);
            }
        }
    }
}

proof fn detail_place_unique(details: Seq<RootDetails>, root: PathKey, head: Seq<char>, n: int)
    requires
        0 <= n <= details.len(),
        n < details.len() ==> details[n].key() == root && details[n].details.head_sha@ == head,
        forall|i: int|
            0 <= i < n ==> !((#[trigger] details[i]).key() == root && details[i].details.head_sha@
                == head),
    ensures
        detail_place(details, root, head) == n,
{
    detail_place_bounds(details, root, head);
    let m = detail_place(details, root, head);
    if m < n {
        assert(!(details[m].key() == root && details[m].details.head_sha@ == head));
    }
    if n < m {
        assert(!(details[n].key() == root && details[n].details.head_sha@ == head));
    }
}

spec fn detail_in(details: Seq<RootDetails>, root: PathKey, head: Seq<char>) -> Option<
    CiRunDetails,
> {
    let n = detail_place(details, root, head);
    if n < details.len() {
        Some(details[n].details)
    } else {
        None
    }
}

/// The tracked runs of all repositories, and the details of those that were
/// opened.
#[derive(Debug)]
pub struct CiRunBars {
    states: Vec<RootRuns>,
    details: Vec<RootDetails>,
}

impl CiRunBars {
    /// The tracked runs of a repository, newest first.
    pub closed spec fn heads(&self, root: PathKey) -> Seq<CiRunState> {
        heads_in(self.states@, root)
    }

    /// The details of a head, where there are any.
    pub closed spec fn detail(&self, root: PathKey, head: Seq<char>) -> Option<CiRunDetails> {
        detail_in(self.details@, root, head)
    }

    /// A repository has at most [`MAX_CI_TRACKED_HEADS`] tracked runs and no head
    /// twice; details belong to their head, and the head is tracked.
    pub closed spec fn wf(&self) -> bool {
        &&& roots_distinct(self.states@)
        &&& forall|root: PathKey|
            (#[trigger] self.heads(root)).len() <= MAX_CI_TRACKED_HEADS && heads_distinct(
                self.heads(root),
            )
        &&& forall|root: PathKey, head: Seq<char>|
            (#[trigger] self.detail(root, head)) is Some ==> has_head(self.heads(root), head)
                && self.detail(root, head)->0.head_sha@ == head
    }

    /// No runs.
    pub fn new() -> (r: Self)
        ensures
            r.wf(),
            forall|root: PathKey| (#[trigger] r.heads(root)).len() == 0,
            forall|root: PathKey, head: Seq<char>| (#[trigger] r.detail(root, head)) is None,
    {
        CiRunBars { states: Vec::new(), details: Vec::new() }
    }

    fn find_root(&self, root: &str) -> (r: usize)
        ensures
            r == root_place(self.states@, path_key(root@)),
            r <= self.states@.len(),
    {
        let mut i: usize = 0;
        while i < self.states.len() && !same_path_text(self.states[i].root.as_str(), root)
            invariant
                i <= self.states@.len(),
                forall|k: int| 0 <= k < i ==> (#[trigger] self.states@[k]).key() != path_key(root@),
            decreases self.states@.len() - i,
        {
            i += 1;
        }
        proof {
            root_place_unique(self.states@, path_key(root@), i as int);
        }
        i
    }

    /// The tracked runs of a repository, newest first.
    pub fn get(&self, repo_root: &str) -> (r: &[CiRunState])
        ensures
            r@ == self.heads(path_key(repo_root@)),
    {
        let n: usize = self.find_root(repo_root);
        if n < self.states.len() {
            self.states[n].heads.as_slice()
        } else {
            &[]
        }
    }

    /// The details of exactly this head.
    pub fn details(&self, repo_root: &str, head_sha: &str) -> (r: Option<&CiRunDetails>)
        ensures
            match r {
                Some(details) => self.detail(path_key(repo_root@), head_sha@) == Some(*details),
                None => self.detail(path_key(repo_root@), head_sha@) is None,
            },
    {
        let mut i: usize = 0;
        while i < self.details.len() && !(same_path_text(self.details[i].root.as_str(), repo_root)
            && str_eq(self.details[i].details.head_sha.as_str(), head_sha))
            invariant
                i <= self.details@.len(),
                forall|k: int|
                    0 <= k < i ==> !((#[trigger] self.details@[k]).key() == path_key(repo_root@)
                        && self.details@[k].details.head_sha@ == head_sha@),
            decreases self.details@.len() - i,
        {
            i += 1;
        }
        proof {
            detail_place_unique(self.details@, path_key(repo_root@), head_sha@, i as int);
        }
        if i < self.details.len() {
            Some(&self.details[i].details)
        } else {
            None
        }
    }
}

// ---- Changing the tracked runs ----

fn find_head(heads: &Vec<CiRunState>, head: &str) -> (r: usize)
    ensures
        r == head_place(heads@, head@),
        r <= heads@.len(),
{
    let mut i: usize = 0;
    while i < heads.len() && !str_eq(heads[i].head_sha.as_str(), head)
        invariant
            i <= heads@.len(),
            forall|k: int| 0 <= k < i ==> (#[trigger] heads@[k]).head_sha@ != head@,
        decreases heads@.len() - i,
    {
        i += 1;
    }
    proof {
        head_place_unique(heads@, head@, i as int);
    }
    i
}

/// Drops the runs that have stopped moving.
fn retain_moving(heads: &mut Vec<CiRunState>)
    ensures
        final(heads)@ == heads_where(old(heads)@, still_moving()),
{
    let ghost all = heads@;
    let ghost keep = still_moving();
    let ghost mut j: int = 0;
    let mut i: usize = 0;
    proof {
        assert(all.take(0) =~= Seq::<CiRunState>::empty());
        assert(all.skip(0) =~= all);
        assert(heads_where(all.take(0), keep) + all.skip(0) =~= all);
    }
    while i < heads.len()
        invariant
            0 <= j <= all.len(),
            keep == still_moving(),
            heads@ == heads_where(all.take(j), keep) + all.skip(j),
            i == heads_where(all.take(j), keep).len(),
        decreases all.len() - j,
    {
        proof {
            assert(all.take(j + 1).drop_last() =~= all.take(j));
            assert(heads@[i as int] == all.skip(j)[0]);
            assert(all.skip(j)[0] == all[j]);
        }
        if terminal(heads[i].rollup) {
            let ghost before = heads@;
            heads.remove(i);
            proof {
                assert(heads@ =~= heads_where(all.take(j + 1), keep) + all.skip(j + 1));
            }
        } else {
            i += 1;
            proof {
                assert(heads@ =~= heads_where(all.take(j + 1), keep) + all.skip(j + 1));
            }
        }
        proof {
            j = j + 1;
        }
    }
    proof {
        assert(all.take(all.len() as int) =~= all);
        assert(heads@ =~= heads_where(all, keep));
    }
}

/// Drops the run of a head.
fn drop_head(heads: &mut Vec<CiRunState>, head: &str)
    ensures
        final(heads)@ == without_run(old(heads)@, head@),
{
    let ghost all = heads@;
    let ghost keep = other_head(head@);
    let ghost mut j: int = 0;
    let mut i: usize = 0;
    proof {
        assert(all.take(0) =~= Seq::<CiRunState>::empty());
        assert(all.skip(0) =~= all);
        assert(heads_where(all.take(0), keep) + all.skip(0) =~= all);
    }
    while i < heads.len()
        invariant
            0 <= j <= all.len(),
            keep == other_head(head@),
            heads@ == heads_where(all.take(j), keep) + all.skip(j),
            i == heads_where(all.take(j), keep).len(),
        decreases all.len() - j,
    {
        proof {
            assert(all.take(j + 1).drop_last() =~= all.take(j));
            assert(heads@[i as int] == all.skip(j)[0]);
            assert(all.skip(j)[0] == all[j]);
        }
        if str_eq(heads[i].head_sha.as_str(), head) {
            heads.remove(i);
            proof {
                assert(heads@ =~= heads_where(all.take(j + 1), keep) + all.skip(j + 1));
            }
        } else {
            i += 1;
            proof {
                assert(heads@ =~= heads_where(all.take(j + 1), keep) + all.skip(j + 1));
            }
        }
        proof {
            j = j + 1;
        }
    }
    proof {
        assert(all.take(all.len() as int) =~= all);
        assert(heads@ =~= heads_where(all, keep));
    }
}

/// Adds a run by the rule of [`with_run`]; says whether its head is new.
fn put_run(heads: &mut Vec<CiRunState>, run: CiRunState) -> (new: bool)
    ensures
        final(heads)@ == with_run(old(heads)@, run),
        new == !has_head(old(heads)@, run.head_sha@),
{
    let n: usize = find_head(heads, run.head_sha.as_str());
    if n < heads.len() {
        heads.set(n, run);
        return false;
    }
    let ghost moving = heads_where(heads@, still_moving());
    retain_moving(heads);
    heads.insert(0, run);
    proof {
        assert(heads@ =~= seq![run] + moving);
    }
    if heads.len() > MAX_CI_TRACKED_HEADS {
        heads.truncate(MAX_CI_TRACKED_HEADS);
    }
    proof {
        assert(heads@ =~= with_run(old(heads)@, run));
    }
    true
}

proof fn with_run_sound(heads: Seq<CiRunState>, run: CiRunState)
    requires
        heads.len() <= MAX_CI_TRACKED_HEADS,
        heads_distinct(heads),
    ensures
        with_run(heads, run).len() <= MAX_CI_TRACKED_HEADS,
        with_run(heads, run).len() > 0,
        heads_distinct(with_run(heads, run)),
        has_head(with_run(heads, run), run.head_sha@),
{
    head_place_bounds(heads, run.head_sha@);
    let keep = still_moving();
    heads_where_distinct(heads, keep);
    heads_where_members(heads, keep);
    let out = with_run(heads, run);
    if has_head(heads, run.head_sha@) {
        let n = head_place(heads, run.head_sha@);
        assert forall|i: int| 0 <= i < n implies (#[trigger] out[i]).head_sha@
            != run.head_sha@ by {
            assert(heads[i].head_sha@ != run.head_sha@);
        }
        head_place_unique(out, run.head_sha@, n);
        assert forall|i: int, j: int| 0 <= i < j < out.len() implies (#[trigger] out[i]).head_sha@
            != (#[trigger] out[j]).head_sha@ by {
            assert(heads[i].head_sha@ != heads[j].head_sha@);
        }
    } else {
        let moving = heads_where(heads, keep);
        assert forall|i: int| 0 <= i < moving.len() implies (#[trigger] moving[i]).head_sha@
            != run.head_sha@ by {
            let k = choose|k: int| 0 <= k < heads.len() && heads[k] == moving[i];
            assert(heads[k].head_sha@ != run.head_sha@);
        }
        assert forall|i: int, j: int| 0 <= i < j < out.len() implies (#[trigger] out[i]).head_sha@
            != (#[trigger] out[j]).head_sha@ by {
            assert(out[j] == moving[j - 1]);
            if i > 0 {
                assert(out[i] == moving[i - 1]);
            }
        }
        head_place_unique(out, run.head_sha@, 0);
    }
}

proof fn without_run_sound(heads: Seq<CiRunState>, head: Seq<char>)
    requires
        heads.len() <= MAX_CI_TRACKED_HEADS,
        heads_distinct(heads),
    ensures
        without_run(heads, head).len() <= MAX_CI_TRACKED_HEADS,
        heads_distinct(without_run(heads, head)),
        !has_head(without_run(heads, head), head),
        forall|other: Seq<char>|
            other != head ==> has_head(without_run(heads, head), other) == #[trigger] has_head(
                heads,
                other,
            ),
{
    let keep = other_head(head);
    heads_where_members(heads, keep);
    heads_where_distinct(heads, keep);
    let out = without_run(heads, head);
    head_place_bounds(out, head);
    if has_head(out, head) {
        assert(keep(out[head_place(out, head)]));
    }
    assert forall|other: Seq<char>| other != head implies has_head(out, other)
        == #[trigger] has_head(heads, other) by {
        head_place_bounds(heads, other);
        head_place_bounds(out, other);
        if has_head(heads, other) {
            let k = head_place(heads, other);
            assert(keep(heads[k]));
            let i = choose|i: int| 0 <= i < out.len() && out[i] == heads[k];
            assert(out[i].head_sha@ == other);
            if !has_head(out, other) {
                assert(out[i].head_sha@ != other);
            }
        }
        if has_head(out, other) {
            let k = head_place(out, other);
            let i = choose|i: int| 0 <= i < heads.len() && heads[i] == out[k];
            assert(heads[i].head_sha@ == other);
            if !has_head(heads, other) {
                assert(heads[i].head_sha@ != other);
            }
        }
    }
}

/// Details of another repository, or of a tracked head.
spec fn visible_in(root: PathKey, heads: Seq<CiRunState>) -> spec_fn(
    PathKey,
    Seq<char>,
) -> bool {
    |r: PathKey, h: Seq<char>| r != root || has_head(heads, h)
}

/// Details of anything but one head.
spec fn other_detail(root: PathKey, head: Seq<char>) -> spec_fn(PathKey, Seq<char>) -> bool {
    |r: PathKey, h: Seq<char>| r != root || h != head
}

/// The details whose repository and head a predicate holds of.
spec fn details_where(
    details: Seq<RootDetails>,
    keep: spec_fn(PathKey, Seq<char>) -> bool,
) -> Seq<RootDetails>
    decreases details.len(),
{
    if details.len() == 0 {
        Seq::empty()
    } else if keep(details[0].key(), details[0].details.head_sha@) {
        seq![details[0]] + details_where(details.skip(1), keep)
    } else {
        details_where(details.skip(1), keep)
    }
}

proof fn detail_in_where(
    details: Seq<RootDetails>,
    keep: spec_fn(PathKey, Seq<char>) -> bool,
    root: PathKey,
    head: Seq<char>,
)
    ensures
        detail_in(details_where(details, keep), root, head) == if keep(root, head) {
            detail_in(details, root, head)
        } else {
            None
        },
    decreases details.len(),
{
    if details.len() > 0 {
        detail_in_where(details.skip(1), keep, root, head);
        let rest = details_where(details.skip(1), keep);
        detail_place_bounds(details.skip(1), root, head);
        detail_place_bounds(rest, root, head);
        if keep(details[0].key(), details[0].details.head_sha@) {
            let out = seq![details[0]] + rest;
            assert(out.skip(1) =~= rest);
            assert(out[0] == details[0]);
        }
    }
}

proof fn details_where_concat(
    a: Seq<RootDetails>,
    b: Seq<RootDetails>,
    keep: spec_fn(PathKey, Seq<char>) -> bool,
)
    ensures
        details_where(a + b, keep) == details_where(a, keep) + details_where(b, keep),
    decreases a.len(),
{
    if a.len() == 0 {
        assert(a + b =~= b);
        assert(details_where(a, keep) + details_where(b, keep) =~= details_where(b, keep));
    } else {
        details_where_concat(a.skip(1), b, keep);
        assert((a + b).skip(1) =~= a.skip(1) + b);
        assert(details_where(a + b, keep) =~= details_where(a, keep) + details_where(b, keep));
    }
}

/// Drops the details of a repository's heads that are not tracked.
fn retain_visible(details: &mut Vec<RootDetails>, root: &str, heads: &Vec<CiRunState>)
    ensures
        final(details)@ == details_where(
            old(details)@,
            visible_in(path_key(root@), heads@),
        ),
{
    let ghost all = details@;
    let ghost keep = visible_in(path_key(root@), heads@);
    let ghost mut j: int = 0;
    let mut i: usize = 0;
    proof {
        assert(all.take(0) =~= Seq::<RootDetails>::empty());
        assert(all.skip(0) =~= all);
        assert(details_where(all.take(0), keep) + all.skip(0) =~= all);
    }
    while i < details.len()
        invariant
            0 <= j <= all.len(),
            keep == visible_in(path_key(root@), heads@),
            details@ == details_where(all.take(j), keep) + all.skip(j),
            i == details_where(all.take(j), keep).len(),
        decreases all.len() - j,
    {
        let ghost one = seq![all[j]];
        proof {
            assert(all.take(j + 1) =~= all.take(j) + one);
            details_where_concat(all.take(j), one, keep);
            assert(one.skip(1) =~= Seq::<RootDetails>::empty());
            assert(details_where(one.skip(1), keep) =~= Seq::<RootDetails>::empty());
            assert(details@[i as int] == all.skip(j)[0]);
            assert(all.skip(j)[0] == all[j]);
        }
        let visible = !same_path_text(details[i].root.as_str(), root) || find_head(
            heads,
            details[i].details.head_sha.as_str(),
        ) < heads.len();
        if !visible {
            details.remove(i);
            proof {
                assert(details@ =~= details_where(all.take(j + 1), keep) + all.skip(j + 1));
            }
        } else {
            i += 1;
            proof {
                assert(details_where(one, keep) =~= one);
                assert(details@ =~= details_where(all.take(j + 1), keep) + all.skip(j + 1));
            }
        }
        proof {
            j = j + 1;
        }
    }
    proof {
        assert(all.take(all.len() as int) =~= all);
        assert(details@ =~= details_where(all, keep));
    }
}

/// Drops the details of one head.
fn drop_detail(details: &mut Vec<RootDetails>, root: &str, head: &str)
    ensures
        final(details)@ == details_where(
            old(details)@,
            other_detail(path_key(root@), head@),
        ),
{
    let ghost all = details@;
    let ghost keep = other_detail(path_key(root@), head@);
    let ghost mut j: int = 0;
    let mut i: usize = 0;
    proof {
        assert(all.take(0) =~= Seq::<RootDetails>::empty());
        assert(all.skip(0) =~= all);
        assert(details_where(all.take(0), keep) + all.skip(0) =~= all);
    }
    while i < details.len()
        invariant
            0 <= j <= all.len(),
            keep == other_detail(path_key(root@), head@),
            details@ == details_where(all.take(j), keep) + all.skip(j),
            i == details_where(all.take(j), keep).len(),
        decreases all.len() - j,
    {
        let ghost one = seq![all[j]];
        proof {
            assert(all.take(j + 1) =~= all.take(j) + one);
            details_where_concat(all.take(j), one, keep);
            assert(one.skip(1) =~= Seq::<RootDetails>::empty());
            assert(details_where(one.skip(1), keep) =~= Seq::<RootDetails>::empty());
            assert(details@[i as int] == all.skip(j)[0]);
            assert(all.skip(j)[0] == all[j]);
        }
        if same_path_text(details[i].root.as_str(), root) && str_eq(
            details[i].details.head_sha.as_str(),
            head,
        ) {
            details.remove(i);
            proof {
                assert(details@ =~= details_where(all.take(j + 1), keep) + all.skip(j + 1));
            }
        } else {
            i += 1;
            proof {
                assert(details_where(one, keep) =~= one);
                assert(details@ =~= details_where(all.take(j + 1), keep) + all.skip(j + 1));
            }
        }
        proof {
            j = j + 1;
        }
    }
    proof {
        assert(all.take(all.len() as int) =~= all);
        assert(details@ =~= details_where(all, keep));
    }
}

impl CiRunBars {
    /// What the tracked runs and details become by a change.
    pub open spec fn applied(
        before: CiRunBars,
        root: PathKey,
        delta: CiRunDelta,
        after: CiRunBars,
    ) -> bool {
        match delta {
            CiRunDelta::Put(run) => {
                &&& after.heads(root) == with_run(before.heads(root), run)
                &&& forall|other: PathKey|
                    other != root ==> #[trigger] after.heads(other) == before.heads(other)
                &&& forall|r: PathKey, h: Seq<char>|
                    #[trigger] after.detail(r, h) == if r != root || has_head(
                        after.heads(root),
                        h,
                    ) {
                        before.detail(r, h)
                    } else {
                        None
                    }
            },
            CiRunDelta::Cleared { head_sha } => {
                &&& after.heads(root) == without_run(before.heads(root), head_sha@)
                &&& forall|other: PathKey|
                    other != root ==> #[trigger] after.heads(other) == before.heads(other)
                &&& forall|r: PathKey, h: Seq<char>|
                    #[trigger] after.detail(r, h) == if r != root || h != head_sha@ {
                        before.detail(r, h)
                    } else {
                        None
                    }
            },
        }
    }

    /// Applies a change to the runs of a repository. Details of heads that are
    /// no longer tracked go with them.
    pub fn apply(&mut self, repo_root: &str, delta: CiRunDelta)
        requires
            old(self).wf(),
        ensures
            final(self).wf(),
            Self::applied(*old(self), path_key(repo_root@), delta, *final(self)),
    {
        let ghost root = path_key(repo_root@);
        let ghost start = *self;
        match delta {
            CiRunDelta::Put(run) => {
                let n: usize = self.find_root(repo_root);
                proof {
                    root_place_bounds(self.states@, root);
                }
                if n >= self.states.len() {
                    self.states.push(RootRuns { root: repo_root.to_owned(), heads: Vec::new() });
                    proof {
                        assert(self.states@.drop_last() =~= start.states@);
                    }
                }
                let ghost before = self.states@;
                proof {
                    root_place_unique(before, root, n as int);
                    assert(before[n as int].heads@ =~= start.heads(root));
                    assert forall|other: PathKey| other != root implies heads_in(before, other)
                        == start.heads(other) by {
                        heads_in_push(start.states@, before, root, other);
                    }
                    with_run_sound(start.heads(root), run);
                }
                let mut heads: Vec<CiRunState> = Vec::new();
                core::mem::swap(&mut self.states[n].heads, &mut heads);
                let new = put_run(&mut heads, run);
                if new {
                    retain_visible(&mut self.details, repo_root, &heads);
                }
                let ghost placed = heads@;
                core::mem::swap(&mut self.states[n].heads, &mut heads);
                proof {
                    assert(self.states@ =~= before.update(n as int, self.states@[n as int]));
                    assert(self.states@[n as int].key() == root);
                    heads_in_update(before, n as int, self.states@[n as int], root);
                    assert(self.heads(root) == placed);
                    if new {
                        let keep = visible_in(root, placed);
                        assert forall|r: PathKey, h: Seq<char>| #[trigger]
                            self.detail(r, h) == if r != root || has_head(placed, h) {
                                start.detail(r, h)
                            } else {
                                None
                            } by {
                            detail_in_where(start.details@, keep, r, h);
                        }
                    } else {
                        updating_keeps_heads(start.heads(root), run);
                    }
                    Self::still_sound(start, root, *self);
                }
            },
            CiRunDelta::Cleared { head_sha } => {
                let n: usize = self.find_root(repo_root);
                proof {
                    root_place_bounds(self.states@, root);
                    without_run_sound(start.heads(root), head_sha@);
                }
                if n < self.states.len() {
                    let ghost before = self.states@;
                    let mut heads: Vec<CiRunState> = Vec::new();
                    core::mem::swap(&mut self.states[n].heads, &mut heads);
                    drop_head(&mut heads, head_sha.as_str());
                    let ghost placed = heads@;
                    let empty = heads.len() == 0;
                    core::mem::swap(&mut self.states[n].heads, &mut heads);
                    let ghost between = self.states@;
                    proof {
                        assert(between =~= before.update(n as int, between[n as int]));
                        heads_in_update(before, n as int, between[n as int], root);
                    }
                    if empty {
                        self.states.remove(n);
                        proof {
                            assert(placed =~= Seq::<CiRunState>::empty());
                            heads_in_remove(between, n as int, root);
                        }
                    }
                } else {
                    proof {
                        assert(start.heads(root) =~= Seq::<CiRunState>::empty());
                        assert(without_run(start.heads(root), head_sha@) =~= start.heads(root));
                    }
                }
                drop_detail(&mut self.details, repo_root, head_sha.as_str());
                proof {
                    let keep = other_detail(root, head_sha@);
                    assert forall|r: PathKey, h: Seq<char>| #[trigger]
                        self.detail(r, h) == if r != root || h != head_sha@ {
                            start.detail(r, h)
                        } else {
                            None
                        } by {
                        detail_in_where(start.details@, keep, r, h);
                    }
                    Self::still_sound(start, root, *self);
                }
            },
        }
    }

    proof fn still_sound(before: CiRunBars, root: PathKey, after: CiRunBars)
        requires
            before.wf(),
            roots_distinct(after.states@),
            after.heads(root).len() <= MAX_CI_TRACKED_HEADS,
            heads_distinct(after.heads(root)),
            forall|other: PathKey|
                other != root ==> #[trigger] after.heads(other) == before.heads(other),
            forall|r: PathKey, h: Seq<char>|
                (#[trigger] after.detail(r, h)) is Some ==> after.detail(r, h) == before.detail(
                    r,
                    h,
                ) && (r == root ==> has_head(after.heads(root), h)),
        ensures
            after.wf(),
    {
        assert forall|r: PathKey| (#[trigger] after.heads(r)).len() <= MAX_CI_TRACKED_HEADS
            && heads_distinct(after.heads(r)) by {
            if r != root {
                assert(after.heads(r) == before.heads(r));
            }
        }
        assert forall|r: PathKey, h: Seq<char>| (
        #[trigger] after.detail(r, h)) is Some implies has_head(after.heads(r), h)
            && after.detail(r, h)->0.head_sha@ == h by {
            assert(before.detail(r, h) is Some);
            if r != root {
                assert(after.heads(r) == before.heads(r));
            }
        }
    }

    /// Keeps the details of a head, where that head is tracked.
    pub fn apply_details(&mut self, repo_root: &str, details: CiRunDetails)
        requires
            old(self).wf(),
        ensures
            final(self).wf(),
            forall|root: PathKey| #[trigger] final(self).heads(root) == old(self).heads(root),
            forall|r: PathKey, h: Seq<char>|
                #[trigger] final(self).detail(r, h) == if r == path_key(repo_root@) && h
                    == details.head_sha@ && has_head(old(self).heads(r), h) {
                    Some(details)
                } else {
                    old(self).detail(r, h)
                },
    {
        let ghost root = path_key(repo_root@);
        let ghost head = details.head_sha@;
        let ghost start = *self;
        let n: usize = self.find_root(repo_root);
        proof {
            root_place_bounds(self.states@, root);
        }
        if n >= self.states.len() {
            proof {
                assert(!has_head(start.heads(root), head));
            }
            return;
        }
        if find_head(&self.states[n].heads, details.head_sha.as_str())
            >= self.states[n].heads.len() {
            return;
        }
        let ghost kept = details;
        let mut i: usize = 0;
        while i < self.details.len() && !(same_path_text(self.details[i].root.as_str(), repo_root)
            && str_eq(self.details[i].details.head_sha.as_str(), details.head_sha.as_str()))
            invariant
                i <= self.details@.len(),
                self.details == start.details,
                self.states == start.states,
                head == details.head_sha@,
                forall|k: int|
                    0 <= k < i ==> !((#[trigger] self.details@[k]).key() == path_key(repo_root@)
                        && self.details@[k].details.head_sha@ == head),
            decreases self.details@.len() - i,
        {
            i += 1;
        }
        let entry = RootDetails { root: repo_root.to_owned(), details };
        let ghost model = entry;
        if i < self.details.len() {
            self.details.set(i, entry);
        } else {
            self.details.push(entry);
        }
        proof {
            assert forall|r: PathKey, h: Seq<char>| #[trigger]
                self.detail(r, h) == if r == root && h == head {
                    Some(kept)
                } else {
                    start.detail(r, h)
                } by {
                detail_in_put(start.details@, i as int, model, self.details@, r, h);
            }
            assert(forall|r: PathKey| #[trigger] self.heads(r) == start.heads(r));
            assert forall|r: PathKey, h: Seq<char>| (
            #[trigger] self.detail(r, h)) is Some implies has_head(self.heads(r), h)
                && self.detail(r, h)->0.head_sha@ == h by {
                if !(r == root && h == head) {
                    assert(start.detail(r, h) is Some);
                }
            }
        }
    }
}

/// No repository is there twice.
spec fn roots_distinct(states: Seq<RootRuns>) -> bool {
    forall|i: int, j: int|
        0 <= i < j < states.len() ==> (#[trigger] states[i]).key() != (
        #[trigger] states[j]).key()
}

proof fn heads_in_push(
    before: Seq<RootRuns>,
    after: Seq<RootRuns>,
    root: PathKey,
    other: PathKey,
)
    requires
        other != root,
        after == before || (after.len() == before.len() + 1 && after.drop_last() == before
            && after.last().key() == root),
    ensures
        heads_in(after, other) == heads_in(before, other),
{
    root_place_bounds(before, other);
    let n = root_place(before, other);
    if after != before {
        assert forall|i: int| 0 <= i < before.len() implies #[trigger] after[i] == before[i] by {
            assert(after.drop_last()[i] == after[i]);
        }
        if n < before.len() {
            root_place_unique(after, other, n);
        } else {
            root_place_unique(after, other, after.len() as int);
        }
    }
}

proof fn heads_in_update(states: Seq<RootRuns>, n: int, entry: RootRuns, root: PathKey)
    requires
        0 <= n < states.len(),
        n == root_place(states, root),
        entry.key() == root,
    ensures
        heads_in(states.update(n, entry), root) == entry.heads@,
        forall|other: PathKey|
            other != root ==> #[trigger] heads_in(states.update(n, entry), other) == heads_in(
                states,
                other,
            ),
        roots_distinct(states) ==> roots_distinct(states.update(n, entry)),
{
    root_place_bounds(states, root);
    let after = states.update(n, entry);
    assert forall|i: int| 0 <= i < states.len() implies (#[trigger] after[i]).key()
        == states[i].key() by {}
    assert forall|i: int| 0 <= i < n implies (#[trigger] after[i]).key() != root by {
        assert(states[i].key() != root);
    }
    root_place_unique(after, root, n);
    assert forall|other: PathKey| other != root implies #[trigger] heads_in(after, other)
        == heads_in(states, other) by {
        root_place_bounds(states, other);
        let m = root_place(states, other);
        assert forall|i: int| 0 <= i < m implies (#[trigger] after[i]).key() != other by {
            assert(states[i].key() != other);
        }
        root_place_unique(after, other, m);
    }
    if roots_distinct(states) {
        assert forall|i: int, j: int| 0 <= i < j < after.len() implies (#[trigger] after[i]).key()
            != (#[trigger] after[j]).key() by {
            assert(states[i].key() != states[j].key());
        }
    }
}

proof fn heads_in_remove(states: Seq<RootRuns>, n: int, root: PathKey)
    requires
        0 <= n < states.len(),
        states[n].key() == root,
        roots_distinct(states),
    ensures
        heads_in(states.remove(n), root) == Seq::<CiRunState>::empty(),
        forall|other: PathKey|
            other != root ==> #[trigger] heads_in(states.remove(n), other) == heads_in(
                states,
                other,
            ),
        roots_distinct(states.remove(n)),
{
    let after = states.remove(n);
    assert forall|i: int| 0 <= i < after.len() implies #[trigger] after[i] == states[if i < n {
        i
    } else {
        i + 1
    }] by {}
    assert forall|i: int| 0 <= i < after.len() implies (#[trigger] after[i]).key() != root by {
        if i < n {
            assert(states[i].key() != states[n].key());
        } else {
            assert(states[n].key() != states[i + 1].key());
        }
    }
    root_place_unique(after, root, after.len() as int);
    assert forall|other: PathKey| other != root implies #[trigger] heads_in(after, other)
        == heads_in(states, other) by {
        root_place_bounds(states, other);
        let m = root_place(states, other);
        let k = if m > n {
            m - 1
        } else {
            m
        };
        assert forall|i: int| 0 <= i < k implies (#[trigger] after[i]).key() != other by {
            if i < n {
                assert(states[i].key() != other);
            } else {
                assert(states[i + 1].key() != other);
            }
        }
        root_place_unique(after, other, k);
    }
    assert forall|i: int, j: int| 0 <= i < j < after.len() implies (#[trigger] after[i]).key() != (
    #[trigger] after[j]).key() by {
        let a = if i < n {
            i
        } else {
            i + 1
        };
        let b = if j < n {
            j
        } else {
            j + 1
        };
        assert(states[a].key() != states[b].key());
    }
}

/// A run that takes the place of another of the same head changes no head.
proof fn updating_keeps_heads(heads: Seq<CiRunState>, run: CiRunState)
    requires
        has_head(heads, run.head_sha@),
    ensures
        forall|h: Seq<char>| #[trigger] has_head(with_run(heads, run), h) == has_head(heads, h),
{
    head_place_bounds(heads, run.head_sha@);
    let n = head_place(heads, run.head_sha@);
    let out = with_run(heads, run);
    assert forall|h: Seq<char>| #[trigger] has_head(out, h) == has_head(heads, h) by {
        head_place_bounds(heads, h);
        let m = head_place(heads, h);
        assert forall|i: int| 0 <= i < m implies (#[trigger] out[i]).head_sha@ != h by {
            assert(heads[i].head_sha@ != h);
        }
        head_place_unique(out, h, m);
    }
}

proof fn detail_in_put(
    before: Seq<RootDetails>,
    i: int,
    entry: RootDetails,
    after: Seq<RootDetails>,
    root: PathKey,
    head: Seq<char>,
)
    requires
        0 <= i <= before.len(),
        forall|k: int|
            0 <= k < i ==> !((#[trigger] before[k]).key() == entry.key()
                && before[k].details.head_sha@ == entry.details.head_sha@),
        i < before.len() ==> before[i].key() == entry.key() && before[i].details.head_sha@
            == entry.details.head_sha@ && after == before.update(i, entry),
        i == before.len() ==> after == before.push(entry),
    ensures
        detail_in(after, root, head) == if root == entry.key() && head == entry.details.head_sha@ {
            Some(entry.details)
        } else {
            detail_in(before, root, head)
        },
{
    detail_place_bounds(before, root, head);
    let m = detail_place(before, root, head);
    if root == entry.key() && head == entry.details.head_sha@ {
        assert forall|k: int| 0 <= k < i implies !((#[trigger] after[k]).key() == root
            && after[k].details.head_sha@ == head) by {
            assert(before[k] == after[k]);
        }
        detail_place_unique(after, root, head, i);
    } else {
        let k = if m == before.len() {
            after.len() as int
        } else {
            m
        };
        assert forall|j: int| 0 <= j < k implies !((#[trigger] after[j]).key() == root
            && after[j].details.head_sha@ == head) by {
            if j != i {
                assert(before[j] == after[j]);
            }
        }
        detail_place_unique(after, root, head, k);
    }
}

/// What always holds of the tracked runs: their number is bounded, each head is
/// there once, and details are kept of tracked heads only.
pub proof fn tracked_runs_are_bounded(bars: CiRunBars, root: PathKey, head: Seq<char>)
    requires
        bars.wf(),
    ensures
        bars.heads(root).len() <= MAX_CI_TRACKED_HEADS,
        heads_distinct(bars.heads(root)),
        bars.detail(root, head) is Some ==> has_head(bars.heads(root), head) && bars.detail(
            root,
            head,
        )->0.head_sha@ == head,
{
    assert(bars.heads(root).len() <= MAX_CI_TRACKED_HEADS);
}

/// A new head goes first and drives out finished runs only, as long as there is
/// room: every run that still moves stays.
pub proof fn moving_runs_make_room_for_none_but_the_oldest(
    heads: Seq<CiRunState>,
    run: CiRunState,
    i: int,
)
    requires
        !has_head(heads, run.head_sha@),
        0 <= i < heads.len(),
        !is_terminal(heads[i].rollup),
        heads_where(heads, still_moving()).len() < MAX_CI_TRACKED_HEADS,
    ensures
        with_run(heads, run)[0] == run,
        with_run(heads, run).contains(heads[i]),
{
    heads_where_members(heads, still_moving());
    let moving = heads_where(heads, still_moving());
    assert(still_moving()(heads[i]));
    let k = choose|k: int| 0 <= k < moving.len() && moving[k] == heads[i];
    assert(with_run(heads, run)[k + 1] == heads[i]);
}

/// An update of a head that is tracked already reorders nothing.
pub proof fn updates_do_not_reorder(heads: Seq<CiRunState>, run: CiRunState, i: int)
    requires
        has_head(heads, run.head_sha@),
        0 <= i < heads.len(),
    ensures
        with_run(heads, run).len() == heads.len(),
        with_run(heads, run)[i].head_sha@ == heads[i].head_sha@,
{
    head_place_bounds(heads, run.head_sha@);
}

// ---- What is shown of a run ----

/// Whether the user may act on a run.
#[derive(Debug, Clone, Copy, PartialEq, Eq, Structural)]
pub enum CiActionMode {
    Owner,
    ReadOnly,
}

/// The state of one workflow or job, as it is shown.
#[derive(Debug, Clone, Copy, PartialEq, Eq, Structural)]
pub enum TraceCellKind {
    Queued,
    Active,
    Success,
    Failure,
    Cancelled,
}

impl TraceCellKind {
    /// The sign that stands for the state, so that colour is never the only cue.
    pub open spec fn sign(self) -> Seq<char> {
        match self {
            TraceCellKind::Queued => "◌"@,
            TraceCellKind::Active => "◐"@,
            TraceCellKind::Success => "✓"@,
            TraceCellKind::Failure => "✕"@,
            TraceCellKind::Cancelled => "⊘"@,
        }
    }

    /// The sign that stands for the state.
    pub fn glyph(self) -> (r: &'static str)
        ensures
            r@ == self.sign(),
    {
        match self {
            TraceCellKind::Queued => "◌",
            TraceCellKind::Active => "◐",
            TraceCellKind::Success => "✓",
            TraceCellKind::Failure => "✕",
            TraceCellKind::Cancelled => "⊘",
        }
    }

    /// The word that stands for the state.
    pub open spec fn word(self) -> Seq<char> {
        match self {
            TraceCellKind::Queued => "queued"@,
            TraceCellKind::Active => "running"@,
            TraceCellKind::Success => "passed"@,
            TraceCellKind::Failure => "failed"@,
            TraceCellKind::Cancelled => "cancelled"@,
        }
    }

    fn state_word(self) -> (r: &'static str)
        ensures
            r@ == self.word(),
    {
        match self {
            TraceCellKind::Queued => "queued",
            TraceCellKind::Active => "running",
            TraceCellKind::Success => "passed",
            TraceCellKind::Failure => "failed",
            TraceCellKind::Cancelled => "cancelled",
        }
    }
}

/// The state that a status and a conclusion come to. What is completed without a
/// conclusion counts as cancelled.
pub open spec fn kind_of(
    status: CiWorkflowStatus,
    conclusion: Option<CiRunConclusion>,
) -> TraceCellKind {
    match status {
        CiWorkflowStatus::Queued => TraceCellKind::Queued,
        CiWorkflowStatus::InProgress => TraceCellKind::Active,
        CiWorkflowStatus::Completed => match conclusion {
            Some(CiRunConclusion::Success) => TraceCellKind::Success,
            Some(CiRunConclusion::Failure) => TraceCellKind::Failure,
            Some(CiRunConclusion::Cancelled) => TraceCellKind::Cancelled,
            None => TraceCellKind::Cancelled,
        },
    }
}

fn cell_kind(status: CiWorkflowStatus, conclusion: Option<CiRunConclusion>) -> (r: TraceCellKind)
    ensures
        r == kind_of(status, conclusion),
{
    match status {
        CiWorkflowStatus::Queued => TraceCellKind::Queued,
        CiWorkflowStatus::InProgress => TraceCellKind::Active,
        CiWorkflowStatus::Completed => match conclusion {
            Some(CiRunConclusion::Success) => TraceCellKind::Success,
            Some(CiRunConclusion::Failure) => TraceCellKind::Failure,
            Some(CiRunConclusion::Cancelled) => TraceCellKind::Cancelled,
            None => TraceCellKind::Cancelled,
        },
    }
}

/// One workflow, as it is shown in the bar.
#[derive(Debug, PartialEq, Eq)]
pub struct TraceCellModel {
    pub run_id: u64,
    pub name: String,
    pub kind: TraceCellKind,
    pub glyph: &'static str,
}

/// What a cell amounts to.
pub struct CellView {
    pub run_id: u64,
    pub name: Seq<char>,
    pub kind: TraceCellKind,
    pub glyph: Seq<char>,
}

impl View for TraceCellModel {
    type V = CellView;

    open spec fn view(&self) -> CellView {
        CellView {
            run_id: self.run_id,
            name: self.name@,
            kind: self.kind,
            glyph: self.glyph@,
        }
    }
}

/// The cell of a workflow.
pub open spec fn cell_of(workflow: CiWorkflowRun) -> CellView {
    let kind = kind_of(workflow.status, workflow.conclusion);
    CellView { run_id: workflow.run_id, name: workflow.name@, kind, glyph: kind.sign() }
}

impl TraceCellModel {
    /// The cell of a workflow.
    pub fn from_workflow(workflow: &CiWorkflowRun) -> (r: Self)
        ensures
            r@ == cell_of(*workflow),
    {
        let kind = cell_kind(workflow.status, workflow.conclusion);
        TraceCellModel {
            run_id: workflow.run_id,
            name: workflow.name.clone(),
            kind,
            glyph: kind.glyph(),
        }
    }
}

/// The tone in which the state of a run is shown.
#[derive(Debug, Clone, Copy, PartialEq, Eq, Structural)]
pub enum CiTone {
    Running,
    Success,
    Failure,
    Cancelled,
    Stale,
}

/// The sign, the word and the tone of a run. A run that is out of date is shown
/// as nothing else.
pub open spec fn label_of(rollup: CiRunStatus, stale: bool) -> (Seq<char>, Seq<char>, CiTone) {
    if stale {
        ("!"@, "stale"@, CiTone::Stale)
    } else {
        match rollup {
            CiRunStatus::Queued => ("◌"@, "queued"@, CiTone::Running),
            CiRunStatus::Running => ("◐"@, "running"@, CiTone::Running),
            CiRunStatus::Success => ("✓"@, "passed"@, CiTone::Success),
            CiRunStatus::Failure => ("✕"@, "failed"@, CiTone::Failure),
            CiRunStatus::Cancelled => ("⊘"@, "cancelled"@, CiTone::Cancelled),
        }
    }
}

fn state_label(state: &CiRunState) -> (r: (&'static str, &'static str, CiTone))
    ensures
        (r.0@, r.1@, r.2) == label_of(state.rollup, state.stale),
{
    if state.stale {
        return ("!", "stale", CiTone::Stale);
    }
    match state.rollup {
        CiRunStatus::Queued => ("◌", "queued", CiTone::Running),
        CiRunStatus::Running => ("◐", "running", CiTone::Running),
        CiRunStatus::Success => ("✓", "passed", CiTone::Success),
        CiRunStatus::Failure => ("✕", "failed", CiTone::Failure),
        CiRunStatus::Cancelled => ("⊘", "cancelled", CiTone::Cancelled),
    }
}

/// A number below a hundred with two digits.
pub open spec fn two_digits(n: nat) -> Seq<char> {
    if n < 10 {
        "0"@ + decimal(n)
    } else {
        decimal(n)
    }
}

/// A time span: minutes and seconds below an hour, hours and minutes from there.
pub open spec fn duration_text(seconds: nat) -> Seq<char> {
    if seconds < 3600 {
        decimal(seconds / 60) + "m "@ + two_digits(seconds % 60) + "s"@
    } else {
        decimal(seconds / 3600) + "h "@ + two_digits((seconds % 3600) / 60) + "m"@
    }
}

fn push_two_digits(s: &mut String, n: u64)
    ensures
        final(s)@ == old(s)@ + two_digits(n as nat),
{
    if n < 10 {
        push_text(s, "0");
    }
    push_decimal(s, n);
    proof {
        assert(s@ =~= old(s)@ + two_digits(n as nat));
    }
}

/// A time span in words.
pub fn duration_label(seconds: u64) -> (r: String)
    ensures
        r@ == duration_text(seconds as nat),
{
    let mut s = String::new();
    if seconds < 3600 {
        push_decimal(&mut s, seconds / 60);
        push_text(&mut s, "m ");
        push_two_digits(&mut s, seconds % 60);
        push_text(&mut s, "s");
    } else {
        push_decimal(&mut s, seconds / 3600);
        push_text(&mut s, "h ");
        push_two_digits(&mut s, (seconds % 3600) / 60);
        push_text(&mut s, "m");
    }
    proof {
        assert(s@ =~= duration_text(seconds as nat));
    }
    s
}

/// The smaller of two times, where there are two.
pub open spec fn earlier(a: Option<u64>, b: Option<u64>) -> Option<u64> {
    match (a, b) {
        (Some(x), Some(y)) => Some(if x <= y {
            x
        } else {
            y
        }),
        (Some(x), None) => Some(x),
        (None, y) => y,
    }
}

/// The larger of two times, where there are two.
pub open spec fn later(a: Option<u64>, b: Option<u64>) -> Option<u64> {
    match (a, b) {
        (Some(x), Some(y)) => Some(if x >= y {
            x
        } else {
            y
        }),
        (Some(x), None) => Some(x),
        (None, y) => y,
    }
}

fn earlier_of(a: Option<u64>, b: Option<u64>) -> (r: Option<u64>)
    ensures
        r == earlier(a, b),
{
    match a {
        None => b,
        Some(x) => match b {
            None => Some(x),
            Some(y) => Some(if x <= y {
                x
            } else {
                y
            }),
        },
    }
}

fn later_of(a: Option<u64>, b: Option<u64>) -> (r: Option<u64>)
    ensures
        r == later(a, b),
{
    match a {
        None => b,
        Some(x) => match b {
            None => Some(x),
            Some(y) => Some(if x >= y {
                x
            } else {
                y
            }),
        },
    }
}

/// When the first workflow started.
pub open spec fn first_start(workflows: Seq<CiWorkflowRun>) -> Option<u64>
    decreases workflows.len(),
{
    if workflows.len() == 0 {
        None
    } else {
        earlier(first_start(workflows.drop_last()), workflows.last().started_at_epoch_secs)
    }
}

/// When a workflow was last updated.
pub open spec fn last_update(workflows: Seq<CiWorkflowRun>) -> Option<u64>
    decreases workflows.len(),
{
    if workflows.len() == 0 {
        None
    } else {
        later(last_update(workflows.drop_last()), workflows.last().updated_at_epoch_secs)
    }
}

/// A difference that stops at zero.
pub open spec fn span(start: u64, end: u64) -> nat {
    if end >= start {
        (end - start) as nat
    } else {
        0
    }
}

/// How long a run has taken: until now while it moves, and until its last update
/// once it has stopped or is out of date.
pub open spec fn elapsed_text(state: CiRunState, now: u64) -> Seq<char> {
    match first_start(state.workflows@) {
        None => "queued"@,
        Some(start) => {
            let end = if is_terminal(state.rollup) || state.stale {
                match last_update(state.workflows@) {
                    Some(end) => end,
                    None => start,
                }
            } else {
                now
            };
            duration_text(span(start, end))
        },
    }
}

/// How long a run has taken.
pub fn elapsed_label(state: &CiRunState, now: u64) -> (r: String)
    ensures
        r@ == elapsed_text(*state, now),
{
    let ghost all = state.workflows@;
    let mut start: Option<u64> = None;
    let mut end: Option<u64> = None;
    let mut i: usize = 0;
    proof {
        assert(all.take(0) =~= Seq::<CiWorkflowRun>::empty());
    }
    while i < state.workflows.len()
        invariant
            i <= state.workflows@.len(),
            all == state.workflows@,
            start == first_start(all.take(i as int)),
            end == last_update(all.take(i as int)),
        decreases state.workflows@.len() - i,
    {
        proof {
            assert(all.take(i + 1).drop_last() =~= all.take(i as int));
        }
        start = earlier_of(start, state.workflows[i].started_at_epoch_secs);
        end = later_of(end, state.workflows[i].updated_at_epoch_secs);
        i += 1;
    }
    proof {
        assert(all.take(all.len() as int) =~= all);
    }
    match start {
        None => "queued".to_owned(),
        Some(start) => {
            let end = if terminal(state.rollup) || state.stale {
                match end {
                    Some(end) => end,
                    None => start,
                }
            } else {
                now
            };
            duration_label(end.saturating_sub(start))
        },
    }
}

/// The place of the first workflow that a predicate holds of, where there is one.
pub open spec fn first_where(
    workflows: Seq<CiWorkflowRun>,
    pick: spec_fn(CiWorkflowRun) -> bool,
) -> Option<int>
    decreases workflows.len(),
{
    if workflows.len() == 0 {
        None
    } else if first_where(workflows.drop_last(), pick) is Some {
        first_where(workflows.drop_last(), pick)
    } else if pick(workflows.last()) {
        Some(workflows.len() - 1)
    } else {
        None
    }
}

/// The workflows that failed.
pub open spec fn failed() -> spec_fn(CiWorkflowRun) -> bool {
    |w: CiWorkflowRun| w.conclusion == Some(CiRunConclusion::Failure)
}

/// The workflows that are under way.
pub open spec fn under_way() -> spec_fn(CiWorkflowRun) -> bool {
    |w: CiWorkflowRun| w.status == CiWorkflowStatus::InProgress
}

/// The place of the workflow to open: the first that failed, or else the first
/// that is under way, or else the first.
pub open spec fn preferred(workflows: Seq<CiWorkflowRun>) -> Option<int> {
    if first_where(workflows, failed()) is Some {
        first_where(workflows, failed())
    } else if first_where(workflows, under_way()) is Some {
        first_where(workflows, under_way())
    } else if workflows.len() > 0 {
        Some(0int)
    } else {
        None
    }
}

proof fn first_where_bounds(workflows: Seq<CiWorkflowRun>, pick: spec_fn(CiWorkflowRun) -> bool)
    ensures
        first_where(workflows, pick) matches Some(n) ==> 0 <= n < workflows.len(),
    decreases workflows.len(),
{
    if workflows.len() > 0 {
        first_where_bounds(workflows.drop_last(), pick);
    }
}

fn preferred_run(workflows: &Vec<CiWorkflowRun>) -> (r: Option<usize>)
    ensures
        match r {
            Some(n) => n < workflows@.len() && preferred(workflows@) == Some(n as int),
            None => preferred(workflows@) is None,
        },
{
    let ghost all = workflows@;
    let mut failure: Option<usize> = None;
    let mut moving: Option<usize> = None;
    let mut i: usize = 0;
    proof {
        assert(all.take(0) =~= Seq::<CiWorkflowRun>::empty());
    }
    while i < workflows.len()
        invariant
            i <= workflows@.len(),
            all == workflows@,
            match failure {
                Some(n) => n < i && first_where(all.take(i as int), failed()) == Some(n as int),
                None => first_where(all.take(i as int), failed()) is None,
            },
            match moving {
                Some(n) => n < i && first_where(all.take(i as int), under_way()) == Some(n as int),
                None => first_where(all.take(i as int), under_way()) is None,
            },
        decreases workflows@.len() - i,
    {
        proof {
            assert(all.take(i + 1).drop_last() =~= all.take(i as int));
            assert(all.take(i + 1).last() == all[i as int]);
        }
        let is_failure = match workflows[i].conclusion {
            Some(CiRunConclusion::Failure) => true,
            _ => false,
        };
        if failure.is_none() && is_failure {
            failure = Some(i);
        }
        if moving.is_none() && workflows[i].status == CiWorkflowStatus::InProgress {
            moving = Some(i);
        }
        i += 1;
    }
    proof {
        assert(all.take(all.len() as int) =~= all);
    }
    if failure.is_some() {
        failure
    } else if moving.is_some() {
        moving
    } else if workflows.len() > 0 {
        Some(0)
    } else {
        None
    }
}

/// The bar of a run. Everything that is shown is in it.
#[derive(Debug, PartialEq, Eq)]
pub struct CiBarModel {
    pub state_glyph: &'static str,
    pub state_word: &'static str,
    pub tone: CiTone,
    pub cells: Vec<TraceCellModel>,
    pub hidden_cells: usize,
    pub branch: String,
    pub short_sha: String,
    pub elapsed: String,
    pub completed: usize,
    pub total: usize,
    pub motion: bool,
    pub action_mode: CiActionMode,
    pub open_url: Option<String>,
    pub head_sha: String,
    pub accessibility_label: String,
}

/// What cells amount to.
pub open spec fn cell_views(cells: Seq<TraceCellModel>) -> Seq<CellView> {
    Seq::new(cells.len(), |i: int| cells[i]@)
}

/// The cells of the workflows that a user may have to act on.
pub open spec fn urgent_cells(workflows: Seq<CiWorkflowRun>) -> Seq<CellView>
    decreases workflows.len(),
{
    if workflows.len() == 0 {
        Seq::empty()
    } else {
        let front = urgent_cells(workflows.drop_last());
        let cell = cell_of(workflows.last());
        if cell.kind == TraceCellKind::Active || cell.kind == TraceCellKind::Failure {
            front.push(cell)
        } else {
            front
        }
    }
}

/// The cells that are shown: of up to six workflows all, and of more the first
/// five that are under way or failed.
pub open spec fn shown_cells(workflows: Seq<CiWorkflowRun>) -> Seq<CellView> {
    if workflows.len() <= 6 {
        Seq::new(workflows.len(), |i: int| cell_of(workflows[i]))
    } else if urgent_cells(workflows).len() <= 5 {
        urgent_cells(workflows)
    } else {
        urgent_cells(workflows).take(5)
    }
}

/// How many workflows are completed.
pub open spec fn completed_count(workflows: Seq<CiWorkflowRun>) -> nat
    decreases workflows.len(),
{
    if workflows.len() == 0 {
        0
    } else {
        completed_count(workflows.drop_last()) + (if workflows.last().status
            == CiWorkflowStatus::Completed {
            1nat
        } else {
            0
        })
    }
}

/// The first seven characters of a head.
pub open spec fn short_head(head: Seq<char>) -> Seq<char> {
    if head.len() <= 7 {
        head
    } else {
        head.take(7)
    }
}

/// What a screen reader says of a run.
pub open spec fn spoken_label(state: CiRunState) -> Seq<char> {
    "CI "@ + label_of(state.rollup, state.stale).1 + ": "@ + state.branch@ + " at "@ + short_head(
        state.head_sha@,
    ) + ", "@ + decimal(completed_count(state.workflows@)) + " of "@ + decimal(
        state.workflows@.len(),
    ) + " workflows complete"@
}

/// The page of a workflow.
pub open spec fn run_url(repository: Seq<char>, run_id: u64) -> Seq<char> {
    "https://github.com/"@ + repository + "/actions/runs/"@ + decimal(run_id as nat)
}

/// The page to open for a run: its owner's only.
pub open spec fn open_url(state: CiRunState, owner_controls: bool) -> Option<Seq<char>> {
    match preferred(state.workflows@) {
        Some(n) if owner_controls => Some(
            run_url(state.repository@, state.workflows@[n].run_id),
        ),
        _ => None,
    }
}

fn shown_cells_of(workflows: &Vec<CiWorkflowRun>) -> (r: Vec<TraceCellModel>)
    ensures
        cell_views(r@) == shown_cells(workflows@),
        r@.len() <= workflows@.len(),
{
    let ghost all = workflows@;
    let mut cells: Vec<TraceCellModel> = Vec::new();
    let mut i: usize = 0;
    if workflows.len() <= 6 {
        while i < workflows.len()
            invariant
                i <= workflows@.len(),
                all == workflows@,
                cell_views(cells@) == Seq::new(i as nat, |k: int| cell_of(all[k])),
            decreases workflows@.len() - i,
        {
            let ghost before = cell_views(cells@);
            cells.push(TraceCellModel::from_workflow(&workflows[i]));
            i += 1;
            proof {
                assert(cell_views(cells@) =~= before.push(cell_of(all[i - 1])));
                assert(cell_views(cells@) =~= Seq::new(i as nat, |k: int| cell_of(all[k])));
            }
        }
        return cells;
    }
    proof {
        assert(all.take(0) =~= Seq::<CiWorkflowRun>::empty());
        assert(cell_views(cells@) =~= Seq::<CellView>::empty());
    }
    while i < workflows.len() && cells.len() < 5
        invariant
            i <= workflows@.len(),
            all == workflows@,
            cells@.len() <= 5,
            cells@.len() <= i,
            cell_views(cells@) == urgent_cells(all.take(i as int)),
        decreases workflows@.len() - i,
    {
        let ghost before = cell_views(cells@);
        proof {
            assert(all.take(i + 1).drop_last() =~= all.take(i as int));
            assert(all.take(i + 1).last() == all[i as int]);
        }
        let cell = TraceCellModel::from_workflow(&workflows[i]);
        if cell.kind == TraceCellKind::Active || cell.kind == TraceCellKind::Failure {
            cells.push(cell);
            proof {
                assert(cell_views(cells@) =~= before.push(cell_of(all[i as int])));
            }
        }
        i += 1;
    }
    proof {
        urgent_cells_prefix(all, i as int);
        if i == all.len() {
            assert(all.take(i as int) =~= all);
        } else {
            assert(urgent_cells(all).take(5) =~= urgent_cells(all.take(i as int)));
            if urgent_cells(all).len() <= 5 {
                assert(urgent_cells(all) =~= urgent_cells(all).take(5));
            }
        }
    }
    cells
}

proof fn urgent_cells_prefix(workflows: Seq<CiWorkflowRun>, n: int)
    requires
        0 <= n <= workflows.len(),
    ensures
        urgent_cells(workflows.take(n)).len() <= urgent_cells(workflows).len(),
        urgent_cells(workflows).take(urgent_cells(workflows.take(n)).len() as int) == urgent_cells(
            workflows.take(n),
        ),
    decreases workflows.len(),
{
    if n == workflows.len() {
        assert(workflows.take(n) =~= workflows);
        assert(urgent_cells(workflows).take(urgent_cells(workflows).len() as int) =~= urgent_cells(
            workflows,
        ));
    } else {
        urgent_cells_prefix(workflows.drop_last(), n);
        assert(workflows.drop_last().take(n) =~= workflows.take(n));
        let k = urgent_cells(workflows.take(n)).len() as int;
        assert(urgent_cells(workflows).take(k) =~= urgent_cells(workflows.drop_last()).take(k));
    }
}

impl CiBarModel {
    /// The bar of a run at the time `now`, in seconds.
    pub fn build(state: &CiRunState, now: u64, owner_controls: bool) -> (r: Self)
        ensures
            (r.state_glyph@, r.state_word@, r.tone) == label_of(state.rollup, state.stale),
            cell_views(r.cells@) == shown_cells(state.workflows@),
            r.hidden_cells == state.workflows@.len() - shown_cells(state.workflows@).len(),
            r.branch@ == state.branch@,
            r.short_sha@ == short_head(state.head_sha@),
            r.elapsed@ == elapsed_text(*state, now),
            r.completed == completed_count(state.workflows@),
            r.total == state.workflows@.len(),
            r.motion == (state.rollup == CiRunStatus::Running && !state.stale),
            r.action_mode == if owner_controls {
                CiActionMode::Owner
            } else {
                CiActionMode::ReadOnly
            },
            match r.open_url {
                Some(url) => open_url(*state, owner_controls) == Some(url@),
                None => open_url(*state, owner_controls) is None,
            },
            r.head_sha@ == state.head_sha@,
            r.accessibility_label@ == spoken_label(*state),
    {
        let (state_glyph, state_word, tone) = state_label(state);
        let cells = shown_cells_of(&state.workflows);
        let hidden_cells: usize = state.workflows.len() - cells.len();
        let ghost all = state.workflows@;
        let mut completed: usize = 0;
        let mut i: usize = 0;
        proof {
            assert(all.take(0) =~= Seq::<CiWorkflowRun>::empty());
            assert(cell_views(cells@).len() == cells@.len());
        }
        while i < state.workflows.len()
            invariant
                i <= state.workflows@.len(),
                all == state.workflows@,
                completed <= i,
                completed == completed_count(all.take(i as int)),
            decreases state.workflows@.len() - i,
        {
            proof {
                assert(all.take(i + 1).drop_last() =~= all.take(i as int));
                assert(all.take(i + 1).last() == all[i as int]);
            }
            if state.workflows[i].status == CiWorkflowStatus::Completed {
                completed += 1;
            }
            i += 1;
        }
        proof {
            assert(all.take(all.len() as int) =~= all);
        }
        let total: usize = state.workflows.len();
        let action_mode = if owner_controls {
            CiActionMode::Owner
        } else {
            CiActionMode::ReadOnly
        };
        let open_url = match preferred_run(&state.workflows) {
            Some(n) => if owner_controls {
                let mut url = String::new();
                push_text(&mut url, "https://github.com/");
                push_text(&mut url, state.repository.as_str());
                push_text(&mut url, "/actions/runs/");
                push_decimal(&mut url, state.workflows[n].run_id);
                proof {
                    assert(url@ =~= run_url(
                        state.repository@,
                        state.workflows@[n as int].run_id,
                    ));
                }
                Some(url)
            } else {
                None
            },
            None => None,
        };
        let elapsed = elapsed_label(state, now);
        let chars = chars_of(state.head_sha.as_str());
        let short_sha = if chars.len() <= 7 {
            state.head_sha.clone()
        } else {
            let part = vstd::slice::slice_subrange(chars.as_slice(), 0, 7);
            proof {
                assert(part@ =~= state.head_sha@.take(7));
            }
            string_of(part)
        };
        let mut accessibility_label = String::new();
        push_text(&mut accessibility_label, "CI ");
        push_text(&mut accessibility_label, state_word);
        push_text(&mut accessibility_label, ": ");
        push_text(&mut accessibility_label, state.branch.as_str());
        push_text(&mut accessibility_label, " at ");
        push_text(&mut accessibility_label, short_sha.as_str());
        push_text(&mut accessibility_label, ", ");
        push_decimal(&mut accessibility_label, completed as u64);
        push_text(&mut accessibility_label, " of ");
        push_decimal(&mut accessibility_label, total as u64);
        push_text(&mut accessibility_label, " workflows complete");
        proof {
            assert(accessibility_label@ =~= spoken_label(*state));
        }
        CiBarModel {
            state_glyph,
            state_word,
            tone,
            cells,
            hidden_cells,
            branch: state.branch.clone(),
            short_sha,
            elapsed,
            completed,
            total,
            motion: state.rollup == CiRunStatus::Running && !state.stale,
            action_mode,
            open_url,
            head_sha: state.head_sha.clone(),
            accessibility_label,
        }
    }
}

// ---- The trace of a run's jobs ----

/// One job on the time axis.
#[derive(Debug, PartialEq, Eq)]
pub struct CiTraceRowModel {
    pub job_id: u64,
    pub name: String,
    pub workflow_name: String,
    pub kind: TraceCellKind,
    pub glyph: &'static str,
    pub state_word: &'static str,
    pub current_step: String,
    pub elapsed: String,
    /// Where the bar starts on the axis, in ten-thousandths.
    pub left: u16,
    /// How long the bar is, in ten-thousandths of the axis.
    pub width: u16,
    pub accessibility_label: String,
}

/// What a row amounts to.
pub struct RowView {
    pub job_id: u64,
    pub name: Seq<char>,
    pub workflow_name: Seq<char>,
    pub kind: TraceCellKind,
    pub glyph: Seq<char>,
    pub state_word: Seq<char>,
    pub current_step: Seq<char>,
    pub elapsed: Seq<char>,
    pub left: int,
    pub width: int,
    pub accessibility_label: Seq<char>,
}

impl View for CiTraceRowModel {
    type V = RowView;

    open spec fn view(&self) -> RowView {
        RowView {
            job_id: self.job_id,
            name: self.name@,
            workflow_name: self.workflow_name@,
            kind: self.kind,
            glyph: self.glyph@,
            state_word: self.state_word@,
            current_step: self.current_step@,
            elapsed: self.elapsed@,
            left: self.left as int,
            width: self.width as int,
            accessibility_label: self.accessibility_label@,
        }
    }
}

/// What rows amount to.
pub open spec fn row_views(rows: Seq<CiTraceRowModel>) -> Seq<RowView> {
    Seq::new(rows.len(), |i: int| rows[i]@)
}

/// A time span as a part of the axis, in ten-thousandths, at most all of it.
pub open spec fn basis_points(seconds: nat, axis_seconds: nat) -> nat {
    let scaled = if seconds * 10_000 > u64::MAX {
        u64::MAX as nat
    } else {
        seconds * 10_000
    };
    let points = scaled / (if axis_seconds == 0 {
        1
    } else {
        axis_seconds
    });
    if points > 10_000 {
        10_000
    } else {
        points
    }
}

/// A time span as a part of the axis.
pub fn axis_basis_points(seconds: u64, axis_seconds: u64) -> (r: u16)
    ensures
        r == basis_points(seconds as nat, axis_seconds as nat),
        r <= 10_000,
{
    let scaled = match seconds.checked_mul(10_000) {
        Some(scaled) => scaled,
        None => u64::MAX,
    };
    let axis = if axis_seconds == 0 {
        1
    } else {
        axis_seconds
    };
    let points: u64 = scaled / axis;
    if points > 10_000 {
        10_000
    } else {
        points as u16
    }
}

/// The first step that is under way, or else the last that is completed.
pub open spec fn current_step(steps: Seq<CiJobStep>) -> Option<Seq<char>> {
    if step_under_way(steps) is Some {
        step_under_way(steps)
    } else {
        last_completed_step(steps)
    }
}

/// The first step that is under way.
pub open spec fn step_under_way(steps: Seq<CiJobStep>) -> Option<Seq<char>>
    decreases steps.len(),
{
    if steps.len() == 0 {
        None
    } else if step_under_way(steps.drop_last()) is Some {
        step_under_way(steps.drop_last())
    } else if steps.last().status == CiWorkflowStatus::InProgress {
        Some(steps.last().name@)
    } else {
        None
    }
}

/// The last step that is completed.
pub open spec fn last_completed_step(steps: Seq<CiJobStep>) -> Option<Seq<char>>
    decreases steps.len(),
{
    if steps.len() == 0 {
        None
    } else if steps.last().status == CiWorkflowStatus::Completed {
        Some(steps.last().name@)
    } else {
        last_completed_step(steps.drop_last())
    }
}

fn current_step_of(steps: &Vec<CiJobStep>) -> (r: Option<usize>)
    ensures
        match r {
            Some(n) => n < steps@.len() && current_step(steps@) == Some(steps@[n as int].name@),
            None => current_step(steps@) is None,
        },
{
    let ghost all = steps@;
    let mut moving: Option<usize> = None;
    let mut done: Option<usize> = None;
    let mut i: usize = 0;
    proof {
        assert(all.take(0) =~= Seq::<CiJobStep>::empty());
    }
    while i < steps.len()
        invariant
            i <= steps@.len(),
            all == steps@,
            match moving {
                Some(n) => n < i && step_under_way(all.take(i as int)) == Some(all[n as int].name@),
                None => step_under_way(all.take(i as int)) is None,
            },
            match done {
                Some(n) => n < i && last_completed_step(all.take(i as int)) == Some(
                    all[n as int].name@,
                ),
                None => last_completed_step(all.take(i as int)) is None,
            },
        decreases steps@.len() - i,
    {
        proof {
            assert(all.take(i + 1).drop_last() =~= all.take(i as int));
            assert(all.take(i + 1).last() == all[i as int]);
        }
        if moving.is_none() && steps[i].status == CiWorkflowStatus::InProgress {
            moving = Some(i);
        }
        if steps[i].status == CiWorkflowStatus::Completed {
            done = Some(i);
        }
        i += 1;
    }
    proof {
        assert(all.take(all.len() as int) =~= all);
    }
    if moving.is_some() {
        moving
    } else {
        done
    }
}

/// The time in an option, or another.
pub open spec fn or_else(a: Option<u64>, b: u64) -> u64 {
    match a {
        Some(t) => t,
        None => b,
    }
}

/// The later of two times.
pub open spec fn at_least(a: u64, b: u64) -> u64 {
    if a >= b {
        a
    } else {
        b
    }
}

/// The row of a job on an axis that starts at `origin`. What has not started
/// starts now, and what has not ended ends now; a job that is queued takes up a
/// minute, any other at least a sliver; and no bar leaves the axis.
pub open spec fn row_of(job: CiJob, origin: u64, axis_seconds: u64, now: u64) -> RowView {
    let kind = kind_of(job.status, job.conclusion);
    let start = at_least(or_else(job.started_at_epoch_secs, now), origin);
    let end = at_least(or_else(job.completed_at_epoch_secs, now), start);
    let left = basis_points(span(origin, start), axis_seconds as nat) as int;
    let room = 10_000 - left;
    let natural = if kind == TraceCellKind::Queued {
        basis_points(60, axis_seconds as nat) as int
    } else if basis_points(span(start, end), axis_seconds as nat) < 1 {
        1
    } else {
        basis_points(span(start, end), axis_seconds as nat) as int
    };
    let step = match current_step(job.steps@) {
        Some(name) => name,
        None => kind.word(),
    };
    let elapsed = match job.started_at_epoch_secs {
        Some(started) => duration_text(span(started, end)),
        None => "—"@,
    };
    RowView {
        job_id: job.job_id,
        name: job.name@,
        workflow_name: job.workflow_name@,
        kind,
        glyph: kind.sign(),
        state_word: kind.word(),
        current_step: step,
        elapsed,
        left,
        width: if natural <= room {
            natural
        } else {
            room
        },
        accessibility_label: kind.sign() + " job "@ + job.name@ + ", workflow "@
            + job.workflow_name@ + ", "@ + kind.word() + ", step "@ + step + ", elapsed "@
            + elapsed,
    }
}

fn trace_row(job: &CiJob, origin: u64, axis_seconds: u64, now: u64) -> (r: CiTraceRowModel)
    ensures
        r@ == row_of(*job, origin, axis_seconds, now),
{
    let kind = cell_kind(job.status, job.conclusion);
    let state_word = kind.state_word();
    let begun = match job.started_at_epoch_secs {
        Some(t) => t,
        None => now,
    };
    let start = if begun >= origin {
        begun
    } else {
        origin
    };
    let ended = match job.completed_at_epoch_secs {
        Some(t) => t,
        None => now,
    };
    let end = if ended >= start {
        ended
    } else {
        start
    };
    let left: u16 = axis_basis_points(start.saturating_sub(origin), axis_seconds);
    let room: u16 = 10_000 - left;
    let natural: u16 = if kind == TraceCellKind::Queued {
        axis_basis_points(60, axis_seconds)
    } else {
        let points: u16 = axis_basis_points(end.saturating_sub(start), axis_seconds);
        if points < 1 {
            1
        } else {
            points
        }
    };
    let width: u16 = if natural <= room {
        natural
    } else {
        room
    };
    let current_step = match current_step_of(&job.steps) {
        Some(n) => job.steps[n].name.clone(),
        None => state_word.to_owned(),
    };
    let elapsed = match job.started_at_epoch_secs {
        Some(started) => duration_label(end.saturating_sub(started)),
        None => "—".to_owned(),
    };
    let glyph = kind.glyph();
    let mut label = String::new();
    push_text(&mut label, glyph);
    push_text(&mut label, " job ");
    push_text(&mut label, job.name.as_str());
    push_text(&mut label, ", workflow ");
    push_text(&mut label, job.workflow_name.as_str());
    push_text(&mut label, ", ");
    push_text(&mut label, state_word);
    push_text(&mut label, ", step ");
    push_text(&mut label, current_step.as_str());
    push_text(&mut label, ", elapsed ");
    push_text(&mut label, elapsed.as_str());
    proof {
        assert(label@ =~= row_of(*job, origin, axis_seconds, now).accessibility_label);
    }
    CiTraceRowModel {
        job_id: job.job_id,
        name: job.name.clone(),
        workflow_name: job.workflow_name.clone(),
        kind,
        glyph,
        state_word,
        current_step,
        elapsed,
        left,
        width,
        accessibility_label: label,
    }
}

/// When the first job started.
pub open spec fn first_job_start(jobs: Seq<CiJob>) -> Option<u64>
    decreases jobs.len(),
{
    if jobs.len() == 0 {
        None
    } else {
        earlier(first_job_start(jobs.drop_last()), jobs.last().started_at_epoch_secs)
    }
}

/// When the last job ended.
pub open spec fn last_job_end(jobs: Seq<CiJob>) -> Option<u64>
    decreases jobs.len(),
{
    if jobs.len() == 0 {
        None
    } else {
        later(last_job_end(jobs.drop_last()), jobs.last().completed_at_epoch_secs)
    }
}

/// Whether some job is not completed.
pub open spec fn any_unfinished(jobs: Seq<CiJob>) -> bool {
    exists|i: int| 0 <= i < jobs.len() && (#[trigger] jobs[i]).status
        != CiWorkflowStatus::Completed
}

/// Whether some job is under way.
pub open spec fn any_moving(jobs: Seq<CiJob>) -> bool {
    exists|i: int| 0 <= i < jobs.len() && (#[trigger] jobs[i]).status
        == CiWorkflowStatus::InProgress
}

/// Where the axis starts: with the first job, or now where none has started.
pub open spec fn axis_origin(jobs: Seq<CiJob>, now: u64) -> u64 {
    or_else(first_job_start(jobs), now)
}

/// Where the axis ends: now while some job is not completed, and else with the
/// last.
pub open spec fn axis_end(jobs: Seq<CiJob>, now: u64) -> u64 {
    if any_unfinished(jobs) {
        now
    } else {
        or_else(last_job_end(jobs), axis_origin(jobs, now))
    }
}

/// The length of the axis in whole minutes, at least four.
pub open spec fn axis_minutes(jobs: Seq<CiJob>, now: u64) -> nat {
    let minutes = (span(axis_origin(jobs, now), axis_end(jobs, now)) + 59) / 60;
    if minutes < 4 {
        4
    } else {
        minutes
    }
}

/// The length of the axis in seconds.
pub open spec fn axis_length(jobs: Seq<CiJob>, now: u64) -> u64 {
    let seconds = axis_minutes(jobs, now) * 60;
    if seconds > u64::MAX {
        u64::MAX
    } else {
        seconds as u64
    }
}

/// The jobs of a run on one time axis.
#[derive(Debug, PartialEq, Eq)]
pub struct CiTraceModel {
    pub axis_labels: Vec<String>,
    pub rows: Vec<CiTraceRowModel>,
    pub motion: bool,
    pub accessibility_label: String,
}

/// The label of a minute on the axis.
pub open spec fn minute_label(minute: nat) -> Seq<char> {
    decimal(minute) + "m"@
}

impl CiTraceModel {
    /// The trace of a run's jobs at the time `now`, in seconds.
    pub fn build(details: &CiRunDetails, now: u64, stale: bool) -> (r: Self)
        requires
            axis_minutes(details.jobs@, now) < usize::MAX,
        ensures
            r.axis_labels@.len() == axis_minutes(details.jobs@, now) + 1,
            forall|m: int|
                0 <= m < r.axis_labels@.len() ==> (#[trigger] r.axis_labels@[m])@ == minute_label(
                    m as nat,
                ),
            row_views(r.rows@) == Seq::new(
                details.jobs@.len(),
                |i: int|
                    row_of(
                        details.jobs@[i],
                        axis_origin(details.jobs@, now),
                        axis_length(details.jobs@, now),
                        now,
                    ),
            ),
            r.motion == (!stale && any_moving(details.jobs@)),
            r.accessibility_label@ == "CI job trace, "@ + decimal(details.jobs@.len()) + " jobs"@,
    {
        let ghost all = details.jobs@;
        let mut first: Option<u64> = None;
        let mut last: Option<u64> = None;
        let mut unfinished = false;
        let mut moving = false;
        let mut i: usize = 0;
        proof {
            assert(all.take(0) =~= Seq::<CiJob>::empty());
        }
        while i < details.jobs.len()
            invariant
                i <= details.jobs@.len(),
                all == details.jobs@,
                first == first_job_start(all.take(i as int)),
                last == last_job_end(all.take(i as int)),
                unfinished == exists|k: int|
                    0 <= k < i && (#[trigger] all[k]).status != CiWorkflowStatus::Completed,
                moving == exists|k: int|
                    0 <= k < i && (#[trigger] all[k]).status == CiWorkflowStatus::InProgress,
            decreases details.jobs@.len() - i,
        {
            proof {
                assert(all.take(i + 1).drop_last() =~= all.take(i as int));
                assert(all.take(i + 1).last() == all[i as int]);
            }
            first = earlier_of(first, details.jobs[i].started_at_epoch_secs);
            last = later_of(last, details.jobs[i].completed_at_epoch_secs);
            if details.jobs[i].status != CiWorkflowStatus::Completed {
                unfinished = true;
            }
            if details.jobs[i].status == CiWorkflowStatus::InProgress {
                moving = true;
            }
            i += 1;
        }
        proof {
            assert(all.take(all.len() as int) =~= all);
        }
        let origin = match first {
            Some(t) => t,
            None => now,
        };
        let end = if unfinished {
            now
        } else {
            match last {
                Some(t) => t,
                None => origin,
            }
        };
        let seconds: u64 = end.saturating_sub(origin);
        let whole: u64 = if seconds % 60 == 0 {
            seconds / 60
        } else {
            seconds / 60 + 1
        };
        let minutes: u64 = if whole < 4 {
            4
        } else {
            whole
        };
        proof {
            assert(minutes == axis_minutes(all, now));
        }
        let axis_seconds: u64 = match minutes.checked_mul(60) {
            Some(length) => length,
            None => u64::MAX,
        };
        let mut rows: Vec<CiTraceRowModel> = Vec::new();
        let ghost spec_row = |k: int|
            row_of(all[k], axis_origin(all, now), axis_length(all, now), now);
        let mut j: usize = 0;
        while j < details.jobs.len()
            invariant
                j <= details.jobs@.len(),
                all == details.jobs@,
                origin == axis_origin(all, now),
                axis_seconds == axis_length(all, now),
                spec_row == (|k: int|
                    row_of(all[k], axis_origin(all, now), axis_length(all, now), now)),
                row_views(rows@) == Seq::new(j as nat, spec_row),
            decreases details.jobs@.len() - j,
        {
            let ghost before = row_views(rows@);
            let row = trace_row(&details.jobs[j], origin, axis_seconds, now);
            let ghost view = row@;
            rows.push(row);
            j += 1;
            proof {
                assert(row_views(rows@) =~= before.push(view));
                assert(row_views(rows@) =~= Seq::new(j as nat, spec_row));
            }
        }
        let mut axis_labels: Vec<String> = Vec::new();
        let mut m: u64 = 0;
        while m <= minutes
            invariant
                m <= minutes + 1,
                minutes < usize::MAX,
                minutes < u64::MAX,
                axis_labels@.len() == m,
                forall|k: int|
                    0 <= k < m ==> (#[trigger] axis_labels@[k])@ == minute_label(k as nat),
            decreases minutes + 1 - m,
        {
            let mut label = String::new();
            push_decimal(&mut label, m);
            push_text(&mut label, "m");
            proof {
                assert(label@ =~= minute_label(m as nat));
            }
            axis_labels.push(label);
            m += 1;
        }
        let mut accessibility_label = String::new();
        push_text(&mut accessibility_label, "CI job trace, ");
        push_decimal(&mut accessibility_label, rows.len() as u64);
        push_text(&mut accessibility_label, " jobs");
        proof {
            assert(row_views(rows@).len() == rows@.len());
            assert(accessibility_label@ =~= "CI job trace, "@ + decimal(all.len()) + " jobs"@);
            assert(row_views(rows@) =~= Seq::new(
                all.len(),
                |i: int| row_of(all[i], axis_origin(all, now), axis_length(all, now), now),
            ));
        }
        CiTraceModel { axis_labels, rows, motion: !stale && moving, accessibility_label }
    }

    /// How many rows are counted for the height of the panel.
    pub fn counted_rows(&self) -> (r: u16)
        ensures
            r == if self.rows@.len() > u16::MAX {
                u16::MAX as nat
            } else {
                self.rows@.len()
            },
    {
        if self.rows.len() > u16::MAX as usize {
            u16::MAX
        } else {
            self.rows.len() as u16
        }
    }

    /// How many parts the labels divide the axis into, as far as it is counted.
    pub open spec fn steps(&self) -> int {
        if self.axis_labels@.len() == 0 {
            0
        } else if self.axis_labels@.len() - 1 > u16::MAX {
            u16::MAX as int
        } else {
            self.axis_labels@.len() - 1
        }
    }

    /// How many parts the grid lines divide a row into.
    pub fn grid_steps(&self) -> (r: u16)
        ensures
            r == self.steps(),
    {
        let steps: usize = self.axis_labels.len().saturating_sub(1);
        if steps > u16::MAX as usize {
            u16::MAX
        } else {
            steps as u16
        }
    }
}

/// A bar never leaves the axis, and only a job without any room is invisible.
pub proof fn bars_stay_on_the_axis(job: CiJob, origin: u64, axis_seconds: u64, now: u64)
    ensures
        ({
            let row = row_of(job, origin, axis_seconds, now);
            &&& 0 <= row.left
            &&& 0 <= row.width
            &&& row.left + row.width <= 10_000
            &&& row.kind != TraceCellKind::Queued && row.left < 10_000 ==> row.width >= 1
        }),
{
}

/// Every state has a sign and a word, and what is spoken of a job holds the word:
/// colour is never the only cue.
pub proof fn states_are_told_without_colour(kind: TraceCellKind)
    ensures
        kind.sign().len() > 0,
        kind.word().len() > 0,
{
    reveal_strlit("◌");
    reveal_strlit("◐");
    reveal_strlit("✓");
    reveal_strlit("✕");
    reveal_strlit("⊘");
    reveal_strlit("queued");
    reveal_strlit("running");
    reveal_strlit("passed");
    reveal_strlit("failed");
    reveal_strlit("cancelled");
}

// ---- How it is drawn ----

/// A colour of the bar, by its part.
#[derive(Debug, Clone, Copy, PartialEq, Eq, Structural)]
pub enum CiColor {
    Text,
    Muted,
    Running,
    Success,
    Failure,
    Cancelled,
    Stale,
    Accent,
}

/// The colour of a tone.
pub open spec fn tone_color_of(tone: CiTone) -> CiColor {
    match tone {
        CiTone::Running => CiColor::Running,
        CiTone::Success => CiColor::Success,
        CiTone::Failure => CiColor::Failure,
        CiTone::Cancelled => CiColor::Cancelled,
        CiTone::Stale => CiColor::Stale,
    }
}

/// The colour of a tone.
pub fn tone_color(tone: CiTone) -> (r: CiColor)
    ensures
        r == tone_color_of(tone),
{
    match tone {
        CiTone::Running => CiColor::Running,
        CiTone::Success => CiColor::Success,
        CiTone::Failure => CiColor::Failure,
        CiTone::Cancelled => CiColor::Cancelled,
        CiTone::Stale => CiColor::Stale,
    }
}

/// The colour of the line under the bar, and how opaque it is in percent.
pub open spec fn underline_of(tone: CiTone) -> (CiColor, u8) {
    match tone {
        CiTone::Failure => (CiColor::Failure, 60u8),
        CiTone::Stale => (CiColor::Stale, 50u8),
        _ => (CiColor::Accent, 55u8),
    }
}

/// The colour of the line under the bar, and how opaque it is in percent.
pub fn underline_color(tone: CiTone) -> (r: (CiColor, u8))
    ensures
        r == underline_of(tone),
{
    match tone {
        CiTone::Failure => (CiColor::Failure, 60),
        CiTone::Stale => (CiColor::Stale, 50),
        _ => (CiColor::Accent, 55),
    }
}

/// The colour of a workflow's name.
pub open spec fn name_color_of(kind: TraceCellKind) -> CiColor {
    match kind {
        TraceCellKind::Active => CiColor::Text,
        TraceCellKind::Failure => CiColor::Failure,
        _ => CiColor::Muted,
    }
}

/// The colour of a workflow's name.
pub fn cell_name_color(kind: TraceCellKind) -> (r: CiColor)
    ensures
        r == name_color_of(kind),
{
    match kind {
        TraceCellKind::Active => CiColor::Text,
        TraceCellKind::Failure => CiColor::Failure,
        _ => CiColor::Muted,
    }
}

/// What fills a job's bar, or a workflow's track.
pub open spec fn fill_of(kind: TraceCellKind) -> Option<CiColor> {
    match kind {
        TraceCellKind::Queued => None,
        TraceCellKind::Active => Some(CiColor::Running),
        TraceCellKind::Success => Some(CiColor::Success),
        TraceCellKind::Failure => Some(CiColor::Failure),
        TraceCellKind::Cancelled => Some(CiColor::Cancelled),
    }
}

/// The colour that fills a workflow's track or a job's bar; what is queued is an
/// outline.
pub fn fill_color(kind: TraceCellKind) -> (r: Option<CiColor>)
    ensures
        r == fill_of(kind),
{
    match kind {
        TraceCellKind::Queued => None,
        TraceCellKind::Active => Some(CiColor::Running),
        TraceCellKind::Success => Some(CiColor::Success),
        TraceCellKind::Failure => Some(CiColor::Failure),
        TraceCellKind::Cancelled => Some(CiColor::Cancelled),
    }
}

impl CiBarModel {
    /// What a screen reader says of the button that opens the trace.
    pub fn toggle_label(&self, expanded: bool) -> (r: String)
        ensures
            r@ == self.accessibility_label@ + ". CI job trace is "@ + if expanded {
                "expanded"@
            } else {
                "collapsed"@
            },
    {
        let mut label = self.accessibility_label.clone();
        push_text(&mut label, ". CI job trace is ");
        if expanded {
            push_text(&mut label, "expanded");
        } else {
            push_text(&mut label, "collapsed");
        }
        label
    }

    /// The count of the workflows that are not shown, where there are any.
    pub fn hidden_label(&self) -> (r: Option<String>)
        ensures
            match r {
                Some(label) => self.hidden_cells > 0 && label@ == "+"@ + decimal(
                    self.hidden_cells as nat,
                ),
                None => self.hidden_cells == 0,
            },
    {
        if self.hidden_cells == 0 {
            return None;
        }
        let mut label = String::new();
        push_text(&mut label, "+");
        push_decimal(&mut label, self.hidden_cells as u64);
        proof {
            assert(label@ =~= "+"@ + decimal(self.hidden_cells as nat));
        }
        Some(label)
    }

    /// What stands after the branch: the head and the time taken.
    pub fn metadata_label(&self) -> (r: String)
        ensures
            r@ == " @ "@ + self.short_sha@ + " · "@ + self.elapsed@,
    {
        let mut label = String::new();
        push_text(&mut label, " @ ");
        push_text(&mut label, self.short_sha.as_str());
        push_text(&mut label, " · ");
        push_text(&mut label, self.elapsed.as_str());
        proof {
            assert(label@ =~= " @ "@ + self.short_sha@ + " · "@ + self.elapsed@);
        }
        label
    }
}

impl CiTraceRowModel {
    /// The title of the row.
    pub fn title(&self) -> (r: String)
        ensures
            r@ == self.glyph@ + " "@ + self.name@,
    {
        let mut label = self.glyph.to_owned();
        push_text(&mut label, " ");
        push_text(&mut label, self.name.as_str());
        label
    }

    /// What stands in the bar.
    pub fn caption(&self) -> (r: String)
        ensures
            r@ == self.glyph@ + " "@ + self.current_step@,
    {
        let mut label = self.glyph.to_owned();
        push_text(&mut label, " ");
        push_text(&mut label, self.current_step.as_str());
        label
    }
}

/// The leading edge of a job's bar.
#[derive(Debug, Clone, Copy, PartialEq, Eq, Structural)]
pub enum BarEdge {
    /// The job does not run.
    Hidden,
    /// The job runs, and nothing moves.
    Still,
    /// The job runs, and the edge moves.
    Moving,
}

/// The bar of a job: where it lies, in ten thousandths of the axis, and how it
/// looks.
#[derive(Debug)]
pub struct TraceBarElement {
    pub caption: String,
    pub left: u16,
    pub width: u16,
    /// What fills the bar; without it the bar is a dashed outline.
    pub fill: Option<CiColor>,
    /// The colour of the caption.
    pub text: CiColor,
    pub edge: BarEdge,
}

/// The edge of a job's bar.
pub open spec fn edge_of(kind: TraceCellKind, motion: bool, animated: bool) -> BarEdge {
    if kind != TraceCellKind::Active {
        BarEdge::Hidden
    } else if motion && animated {
        BarEdge::Moving
    } else {
        BarEdge::Still
    }
}

/// Whether a bar is that of a row.
pub open spec fn is_bar_of(
    bar: TraceBarElement,
    row: CiTraceRowModel,
    motion: bool,
    animated: bool,
) -> bool {
    &&& bar.caption@ == row.glyph@ + " "@ + row.current_step@
    &&& bar.left == row.left
    &&& bar.width == row.width
    &&& bar.fill == fill_of(row.kind)
    &&& bar.text == if row.kind == TraceCellKind::Queued {
        CiColor::Muted
    } else {
        CiColor::Text
    }
    &&& bar.edge == edge_of(row.kind, motion, animated)
}

/// The bar of a job. `motion` is whether the trace moves at all, and `animated`
/// whether the user wants it to.
pub fn trace_job_bar(row: &CiTraceRowModel, motion: bool, animated: bool) -> (r: TraceBarElement)
    ensures
        is_bar_of(r, *row, motion, animated),
{
    let (text, edge) = match row.kind {
        TraceCellKind::Queued => (CiColor::Muted, BarEdge::Hidden),
        TraceCellKind::Active => if motion && animated {
            (CiColor::Text, BarEdge::Moving)
        } else {
            (CiColor::Text, BarEdge::Still)
        },
        _ => (CiColor::Text, BarEdge::Hidden),
    };
    TraceBarElement {
        caption: row.caption(),
        left: row.left,
        width: row.width,
        fill: fill_color(row.kind),
        text,
        edge,
    }
}

/// A row of the trace as it is drawn.
#[derive(Debug)]
pub struct TraceRowElement {
    pub job_id: u64,
    pub title: String,
    pub workflow_name: String,
    /// Into how many parts the lines of the grid divide the row.
    pub grid_steps: u16,
    pub bar: TraceBarElement,
    pub elapsed: String,
    pub accessibility_label: String,
}

/// Whether an element is that of a row.
pub open spec fn is_row_of(
    element: TraceRowElement,
    row: CiTraceRowModel,
    model: CiTraceModel,
    animated: bool,
) -> bool {
    &&& element.job_id == row.job_id
    &&& element.title@ == row.glyph@ + " "@ + row.name@
    &&& element.workflow_name@ == row.workflow_name@
    &&& element.grid_steps == model.steps()
    &&& is_bar_of(element.bar, row, model.motion, animated)
    &&& element.elapsed@ == row.elapsed@
    &&& element.accessibility_label@ == row.accessibility_label@
}

/// A row of the trace as it is drawn.
pub fn trace_row_element(
    row: &CiTraceRowModel,
    model: &CiTraceModel,
    animated: bool,
) -> (r: TraceRowElement)
    ensures
        is_row_of(r, *row, *model, animated),
{
    TraceRowElement {
        job_id: row.job_id,
        title: row.title(),
        workflow_name: row.workflow_name.clone(),
        grid_steps: model.grid_steps(),
        bar: trace_job_bar(row, model.motion, animated),
        elapsed: row.elapsed.clone(),
        accessibility_label: row.accessibility_label.clone(),
    }
}

/// The panel under the bar.
#[derive(Debug)]
pub enum TracePanelElement {
    /// The jobs are not known yet.
    Loading { label: &'static str, text: &'static str },
    Trace { accessibility_label: String, axis_labels: Vec<String>, rows: Vec<TraceRowElement> },
}

/// Whether an element is that of a panel.
pub open spec fn is_panel_of(
    element: TracePanelElement,
    model: Option<&CiTraceModel>,
    animated: bool,
) -> bool {
    match (element, model) {
        (TracePanelElement::Loading { label, text }, None) => {
            label@ == "CI job trace loading"@ && text@ == "loading job trace…"@
        },
        (TracePanelElement::Trace { accessibility_label, axis_labels, rows }, Some(model)) => {
            &&& accessibility_label@ == model.accessibility_label@
            &&& strings(axis_labels@) == strings(model.axis_labels@)
            &&& rows@.len() == model.rows@.len()
            &&& forall|i: int|
                #![trigger rows@[i]]
                0 <= i < rows@.len() ==> is_row_of(rows@[i], model.rows@[i], *model, animated)
        },
        _ => false,
    }
}

/// The panel under the bar.
pub fn trace_panel(model: Option<&CiTraceModel>, animated: bool) -> (r: TracePanelElement)
    ensures
        is_panel_of(r, model, animated),
{
    let model = match model {
        Some(model) => model,
        None => {
            return TracePanelElement::Loading {
                label: "CI job trace loading",
                text: "loading job trace…",
            };
        },
    };
    let mut axis_labels: Vec<String> = Vec::new();
    let mut i: usize = 0;
    while i < model.axis_labels.len()
        invariant
            i <= model.axis_labels@.len(),
            axis_labels@.len() == i,
            forall|k: int|
                0 <= k < i ==> (#[trigger] axis_labels@[k])@ == model.axis_labels@[k]@,
        decreases model.axis_labels@.len() - i,
    {
        axis_labels.push(model.axis_labels[i].clone());
        i += 1;
    }
    let mut rows: Vec<TraceRowElement> = Vec::new();
    let mut i: usize = 0;
    while i < model.rows.len()
        invariant
            i <= model.rows@.len(),
            rows@.len() == i,
            forall|k: int|
                #![trigger rows@[k]]
                0 <= k < i ==> is_row_of(rows@[k], model.rows@[k], *model, animated),
        decreases model.rows@.len() - i,
    {
        rows.push(trace_row_element(&model.rows[i], model, animated));
        i += 1;
    }
    proof {
        assert(strings(axis_labels@) =~= strings(model.axis_labels@));
    }
    TracePanelElement::Trace {
        accessibility_label: model.accessibility_label.clone(),
        axis_labels,
        rows,
    }
}

/// The dot before the name of a workflow that runs.
#[derive(Debug, Clone, Copy, PartialEq, Eq, Structural)]
pub enum LiveDot {
    Hidden,
    Still,
    Pulsing,
}

/// A workflow in the bar: its name over its track.
#[derive(Debug)]
pub struct TraceCellElement {
    pub name: String,
    pub name_color: CiColor,
    pub dot: LiveDot,
    /// What fills the track; without it the track is a dashed line.
    pub track: Option<CiColor>,
    /// Whether light runs along the track.
    pub shimmers: bool,
}

/// Whether an element is that of a workflow.
pub open spec fn is_cell_of(
    element: TraceCellElement,
    cell: TraceCellModel,
    motion: bool,
) -> bool {
    let active = cell.kind == TraceCellKind::Active;
    &&& element.name@ == cell.name@
    &&& element.name_color == name_color_of(cell.kind)
    &&& element.dot == if !active {
        LiveDot::Hidden
    } else if motion {
        LiveDot::Pulsing
    } else {
        LiveDot::Still
    }
    &&& element.track == fill_of(cell.kind)
    &&& element.shimmers == (active && motion)
}

/// A workflow in the bar.
pub fn trace_cell(cell: &TraceCellModel, motion: bool) -> (r: TraceCellElement)
    ensures
        is_cell_of(r, *cell, motion),
{
    let active = cell.kind == TraceCellKind::Active;
    let dot = if !active {
        LiveDot::Hidden
    } else if motion {
        LiveDot::Pulsing
    } else {
        LiveDot::Still
    };
    TraceCellElement {
        name: cell.name.clone(),
        name_color: cell_name_color(cell.kind),
        dot,
        track: fill_color(cell.kind),
        shimmers: active && motion,
    }
}

/// What stands in place of the buttons in a window that is only viewed.
pub const VIEWING_TEXT: &'static str = "viewing · read-only";

/// What is said of the button that opens the run, and what stands on it.
pub const OPEN_LABEL: &'static str = "Open CI run";

pub const OPEN_TEXT: &'static str = "open ↗";

/// What is said of the button that dismisses the run, and what stands on it.
pub const DISMISS_LABEL: &'static str = "Dismiss CI run";

pub const DISMISS_TEXT: &'static str = "✕";

/// What the user can do with a run.
#[derive(Debug, Clone, Copy, PartialEq, Eq, Structural)]
pub enum ActionCluster {
    /// Nothing: the window is only viewed.
    Viewing,
    /// The buttons that are there.
    Buttons { open: bool, dismiss: bool },
}

/// What the user can do with a run, given the actions that the window has for it.
pub fn action_cluster(mode: CiActionMode, open: bool, dismiss: bool) -> (r: ActionCluster)
    ensures
        r == match mode {
            CiActionMode::ReadOnly => ActionCluster::Viewing,
            CiActionMode::Owner => ActionCluster::Buttons { open, dismiss },
        },
{
    match mode {
        CiActionMode::ReadOnly => ActionCluster::Viewing,
        CiActionMode::Owner => ActionCluster::Buttons { open, dismiss },
    }
}

/// What the window has for a run, and how it shows it.
#[derive(Debug, Clone, Copy, PartialEq, Eq, Structural)]
pub struct CiBarRender {
    pub expanded: bool,
    pub animated: bool,
    pub can_open: bool,
    pub can_dismiss: bool,
}

/// The bar as it is drawn, and the panel where it is open.
#[derive(Debug)]
pub struct CiBarScene {
    pub toggle_label: String,
    pub state: (&'static str, &'static str, CiColor),
    pub cells: Vec<TraceCellElement>,
    pub hidden: Option<String>,
    pub branch: String,
    pub metadata: String,
    pub actions: ActionCluster,
    /// The line under the bar, and how opaque it is in percent.
    pub underline: (CiColor, u8),
    pub panel: Option<TracePanelElement>,
}

/// Lays out the bar of a run, and its panel where it is open. `trace` is what is
/// known of the jobs.
pub fn render(
    model: &CiBarModel,
    trace: Option<&CiTraceModel>,
    how: CiBarRender,
) -> (r: CiBarScene)
    ensures
        r.toggle_label@ == model.accessibility_label@ + ". CI job trace is "@ + if how.expanded {
            "expanded"@
        } else {
            "collapsed"@
        },
        r.state.0@ == model.state_glyph@,
        r.state.1@ == model.state_word@,
        r.state.2 == tone_color_of(model.tone),
        r.cells@.len() == model.cells@.len(),
        forall|i: int|
            #![trigger r.cells@[i]]
            0 <= i < r.cells@.len() ==> is_cell_of(r.cells@[i], model.cells@[i], model.motion),
        match r.hidden {
            Some(label) => model.hidden_cells > 0 && label@ == "+"@ + decimal(
                model.hidden_cells as nat,
            ),
            None => model.hidden_cells == 0,
        },
        r.branch@ == model.branch@,
        r.metadata@ == " @ "@ + model.short_sha@ + " · "@ + model.elapsed@,
        r.actions == match model.action_mode {
            CiActionMode::ReadOnly => ActionCluster::Viewing,
            CiActionMode::Owner => ActionCluster::Buttons {
                open: how.can_open,
                dismiss: how.can_dismiss,
            },
        },
        r.underline == underline_of(model.tone),
        match r.panel {
            Some(panel) => how.expanded && is_panel_of(panel, trace, how.animated),
            None => !how.expanded,
        },
{
    let mut cells: Vec<TraceCellElement> = Vec::new();
    let mut i: usize = 0;
    while i < model.cells.len()
        invariant
            i <= model.cells@.len(),
            cells@.len() == i,
            forall|k: int|
                #![trigger cells@[k]]
                0 <= k < i ==> is_cell_of(cells@[k], model.cells@[k], model.motion),
        decreases model.cells@.len() - i,
    {
        cells.push(trace_cell(&model.cells[i], model.motion));
        i += 1;
    }
    let panel = if how.expanded {
        Some(trace_panel(trace, how.animated))
    } else {
        None
    };
    CiBarScene {
        toggle_label: model.toggle_label(how.expanded),
        state: (model.state_glyph, model.state_word, tone_color(model.tone)),
        cells,
        hidden: model.hidden_label(),
        branch: model.branch.clone(),
        metadata: model.metadata_label(),
        actions: action_cluster(model.action_mode, how.can_open, how.can_dismiss),
        underline: underline_color(model.tone),
        panel,
    }
}

// ---- What the bar and the trace are for ----

/// Whether a run is over: it passed, failed or was cancelled.
pub open spec fn run_is_over(state: CiRunState) -> bool {
    state.rollup == CiRunStatus::Success || state.rollup == CiRunStatus::Failure || state.rollup
        == CiRunStatus::Cancelled
}

/// The clock of a run that is over, or out of date, stands still: what is shown does
/// not depend on the time. With one workflow it is the time from its start to its
/// last update.
pub proof fn finished_clocks_stand_still(state: CiRunState, a: u64, b: u64)
    requires
        run_is_over(state) || state.stale,
    ensures
        elapsed_text(state, a) == elapsed_text(state, b),
        state.workflows@.len() == 1 ==> (state.workflows@[0].started_at_epoch_secs matches Some(s)
            ==> (state.workflows@[0].updated_at_epoch_secs matches Some(u) ==> u >= s
            ==> elapsed_text(state, a) == duration_text((u - s) as nat))),
{
    let w = state.workflows@;
    if w.len() == 1 {
        assert(w.drop_last() =~= Seq::<CiWorkflowRun>::empty());
        assert(first_start(w.drop_last()) is None);
        assert(last_update(w.drop_last()) is None);
    }
}

/// A run takes as long as from the earliest start of a workflow to the latest update
/// once it is over or out of date, and to now while it is not.
pub proof fn runs_last_from_first_to_last(state: CiRunState, start: u64, end: u64, now: u64)
    requires
        exists|i: int|
            0 <= i < state.workflows@.len() && (
            #[trigger] state.workflows@[i]).started_at_epoch_secs == Some(start),
        forall|i: int|
            0 <= i < state.workflows@.len() ==> ((
            #[trigger] state.workflows@[i]).started_at_epoch_secs matches Some(t) ==> start <= t),
        exists|i: int|
            0 <= i < state.workflows@.len() && (
            #[trigger] state.workflows@[i]).updated_at_epoch_secs == Some(end),
        forall|i: int|
            0 <= i < state.workflows@.len() ==> ((
            #[trigger] state.workflows@[i]).updated_at_epoch_secs matches Some(t) ==> t <= end),
    ensures
        (run_is_over(state) || state.stale) && start <= end ==> elapsed_text(state, now)
            == duration_text((end - start) as nat),
        !run_is_over(state) && !state.stale && start <= now ==> elapsed_text(state, now)
            == duration_text((now - start) as nat),
{
    first_start_is_the_earliest(state.workflows@);
    last_update_is_the_latest(state.workflows@);
}

/// A run none of whose workflows has started is queued.
pub proof fn unstarted_runs_are_queued(state: CiRunState, now: u64)
    requires
        forall|i: int|
            0 <= i < state.workflows@.len() ==> (
            #[trigger] state.workflows@[i]).started_at_epoch_secs is None,
    ensures
        elapsed_text(state, now) == "queued"@,
{
    first_start_is_the_earliest(state.workflows@);
}

proof fn first_start_is_the_earliest(w: Seq<CiWorkflowRun>)
    ensures
        first_start(w) matches Some(t) ==> (exists|i: int|
            0 <= i < w.len() && (#[trigger] w[i]).started_at_epoch_secs == Some(t)),
        forall|i: int|
            0 <= i < w.len() ==> ((#[trigger] w[i]).started_at_epoch_secs matches Some(t)
                ==> first_start(w) is Some && first_start(w)->0 <= t),
    decreases w.len(),
{
    if w.len() > 0 {
        let d = w.drop_last();
        first_start_is_the_earliest(d);
        assert(w.last() == w[w.len() - 1]);
        if first_start(w) is Some && first_start(w) != w.last().started_at_epoch_secs {
            let i = choose|i: int|
                0 <= i < d.len() && (#[trigger] d[i]).started_at_epoch_secs == first_start(d);
            assert(w[i] == d[i]);
        }
        assert forall|i: int| 0 <= i < w.len() implies ((
        #[trigger] w[i]).started_at_epoch_secs matches Some(t) ==> first_start(w) is Some
            && first_start(w)->0 <= t) by {
            if i < d.len() {
                assert(d[i] == w[i]);
            }
        }
    }
}

proof fn last_update_is_the_latest(w: Seq<CiWorkflowRun>)
    ensures
        last_update(w) matches Some(t) ==> (exists|i: int|
            0 <= i < w.len() && (#[trigger] w[i]).updated_at_epoch_secs == Some(t)),
        forall|i: int|
            0 <= i < w.len() ==> ((#[trigger] w[i]).updated_at_epoch_secs matches Some(t)
                ==> last_update(w) is Some && last_update(w)->0 >= t),
    decreases w.len(),
{
    if w.len() > 0 {
        let d = w.drop_last();
        last_update_is_the_latest(d);
        assert(w.last() == w[w.len() - 1]);
        if last_update(w) is Some && last_update(w) != w.last().updated_at_epoch_secs {
            let i = choose|i: int|
                0 <= i < d.len() && (#[trigger] d[i]).updated_at_epoch_secs == last_update(d);
            assert(w[i] == d[i]);
        }
        assert forall|i: int| 0 <= i < w.len() implies ((
        #[trigger] w[i]).updated_at_epoch_secs matches Some(t) ==> last_update(w) is Some
            && last_update(w)->0 >= t) by {
            if i < d.len() {
                assert(d[i] == w[i]);
            }
        }
    }
}

/// A time below an hour is written as minutes and two digits of seconds, a longer one
/// as hours and two digits of minutes.
pub proof fn durations_are_written(hours: nat, minutes: nat, seconds: nat)
    requires
        minutes < 60,
        seconds < 60,
    ensures
        duration_text(60 * minutes + seconds) == decimal(minutes) + seq!['m', ' '] + seq![
            digit(seconds / 10),
            digit(seconds % 10),
        ] + seq!['s'],
        hours > 0 ==> duration_text(3600 * hours + 60 * minutes + seconds) == decimal(hours) + seq![
            'h',
            ' ',
        ] + seq![digit(minutes / 10), digit(minutes % 10)] + seq!['m'],
{
    reveal_strlit("0");
    reveal_strlit("m ");
    reveal_strlit("h ");
    reveal_strlit("s");
    reveal_strlit("m");
    reveal_with_fuel(decimal, 2);
    let n = (60 * minutes + seconds) as nat;
    assert(n / 60 == minutes && n % 60 == seconds);
    assert(two_digits(seconds) =~= seq![digit(seconds / 10), digit(seconds % 10)]);
    assert(two_digits(minutes) =~= seq![digit(minutes / 10), digit(minutes % 10)]);
    assert(duration_text(n) =~= decimal(minutes) + seq!['m', ' '] + seq![
        digit(seconds / 10),
        digit(seconds % 10),
    ] + seq!['s']);
    if hours > 0 {
        let k = (3600 * hours + 60 * minutes + seconds) as nat;
        assert(k / 3600 == hours && (k % 3600) / 60 == minutes);
        assert(duration_text(k) =~= decimal(hours) + seq!['h', ' '] + seq![
            digit(minutes / 10),
            digit(minutes % 10),
        ] + seq!['m']);
    }
}

/// A workflow or job that waits or runs is shown so, whatever its conclusion says; one
/// that is completed is shown by its conclusion.
pub proof fn states_are_shown_as_they_are(conclusion: Option<CiRunConclusion>)
    ensures
        kind_of(CiWorkflowStatus::Queued, conclusion) == TraceCellKind::Queued,
        kind_of(CiWorkflowStatus::InProgress, conclusion) == TraceCellKind::Active,
        kind_of(CiWorkflowStatus::Completed, conclusion) == TraceCellKind::Success <==> conclusion
            == Some(CiRunConclusion::Success),
        kind_of(CiWorkflowStatus::Completed, conclusion) == TraceCellKind::Failure <==> conclusion
            == Some(CiRunConclusion::Failure),
        kind_of(CiWorkflowStatus::Completed, conclusion) == TraceCellKind::Cancelled
            <==> conclusion is None || conclusion == Some(CiRunConclusion::Cancelled),
{
}

/// The words, signs and tones of a run. One that is out of date is shown as that and
/// nothing else.
pub proof fn runs_are_shown_as_they_are(rollup: CiRunStatus)
    ensures
        label_of(rollup, true) == ("!"@, "stale"@, CiTone::Stale),
        label_of(CiRunStatus::Queued, false) == ("◌"@, "queued"@, CiTone::Running),
        label_of(CiRunStatus::Running, false) == ("◐"@, "running"@, CiTone::Running),
        label_of(CiRunStatus::Success, false) == ("✓"@, "passed"@, CiTone::Success),
        label_of(CiRunStatus::Failure, false) == ("✕"@, "failed"@, CiTone::Failure),
        label_of(CiRunStatus::Cancelled, false) == ("⊘"@, "cancelled"@, CiTone::Cancelled),
        TraceCellKind::Queued.sign() == "◌"@ && TraceCellKind::Queued.word() == "queued"@,
        TraceCellKind::Active.sign() == "◐"@ && TraceCellKind::Active.word() == "running"@,
        TraceCellKind::Success.sign() == "✓"@ && TraceCellKind::Success.word() == "passed"@,
        TraceCellKind::Failure.sign() == "✕"@ && TraceCellKind::Failure.word() == "failed"@,
        TraceCellKind::Cancelled.sign() == "⊘"@ && TraceCellKind::Cancelled.word()
            == "cancelled"@,
{
}

proof fn first_where_is_first(w: Seq<CiWorkflowRun>, pick: spec_fn(CiWorkflowRun) -> bool)
    ensures
        match first_where(w, pick) {
            Some(n) => 0 <= n < w.len() && pick(w[n]) && forall|i: int|
                0 <= i < n ==> !pick(#[trigger] w[i]),
            None => forall|i: int| 0 <= i < w.len() ==> !pick(#[trigger] w[i]),
        },
    decreases w.len(),
{
    if w.len() > 0 {
        let d = w.drop_last();
        first_where_is_first(d, pick);
        if let Some(n) = first_where(d, pick) {
            assert(d[n] == w[n]);
            assert forall|i: int| 0 <= i < n implies !pick(#[trigger] w[i]) by {
                assert(d[i] == w[i]);
            }
        } else {
            assert forall|i: int| 0 <= i < d.len() implies !pick(#[trigger] w[i]) by {
                assert(d[i] == w[i]);
            }
        }
    }
}

/// The page that is opened is that of the first workflow that failed; where none did,
/// of the first that is under way; and else of the first. Only the owner opens any.
pub proof fn failures_are_opened_first(state: CiRunState, n: int)
    requires
        0 <= n < state.workflows@.len(),
    ensures
        ({
            let w = state.workflows@;
            let url = Some(
                "https://github.com/"@ + state.repository@ + "/actions/runs/"@ + decimal(
                    w[n].run_id as nat,
                ),
            );
            let failed_at = |i: int| w[i].conclusion == Some(CiRunConclusion::Failure);
            let moving_at = |i: int| w[i].status == CiWorkflowStatus::InProgress;
            &&& open_url(state, false) is None
            &&& failed_at(n) && (forall|i: int|
                0 <= i < n ==> (#[trigger] w[i]).conclusion != Some(CiRunConclusion::Failure))
                ==> open_url(state, true) == url
            &&& moving_at(n) && (forall|i: int|
                0 <= i < w.len() ==> (#[trigger] w[i]).conclusion != Some(CiRunConclusion::Failure))
                && (forall|i: int|
                0 <= i < n ==> (#[trigger] w[i]).status != CiWorkflowStatus::InProgress)
                ==> open_url(state, true) == url
            &&& n == 0 && (forall|i: int|
                0 <= i < w.len() ==> (#[trigger] w[i]).conclusion != Some(CiRunConclusion::Failure)
                    && w[i].status != CiWorkflowStatus::InProgress) ==> open_url(state, true) == url
        }),
{
    let w = state.workflows@;
    first_where_is_first(w, failed());
    first_where_is_first(w, under_way());
    if let Some(k) = first_where(w, failed()) {
        assert(w[k].conclusion == Some(CiRunConclusion::Failure));
        if k > n {
            assert(!failed()(w[n]));
        }
    } else {
        assert(!failed()(w[n]));
        if let Some(k) = first_where(w, under_way()) {
            assert(w[k].status == CiWorkflowStatus::InProgress);
            if k > n {
                assert(!under_way()(w[n]));
            }
        } else {
            assert(!under_way()(w[n]));
        }
    }
}

/// Up to six workflows are all shown, in order. Of more, those that run or failed are,
/// in order and five at most.
pub proof fn crowded_bars_show_what_matters(workflows: Seq<CiWorkflowRun>, i: int)
    ensures
        workflows.len() <= 6 ==> shown_cells(workflows).len() == workflows.len(),
        workflows.len() <= 6 && 0 <= i < workflows.len() ==> {
            let cell = shown_cells(workflows)[i];
            &&& cell.run_id == workflows[i].run_id
            &&& cell.name == workflows[i].name@
            &&& cell.kind == kind_of(workflows[i].status, workflows[i].conclusion)
            &&& cell.glyph == cell.kind.sign()
        },
        workflows.len() > 6 ==> shown_cells(workflows).len() <= 5 && shown_cells(
            workflows,
        ).is_prefix_of(urgent_cells(workflows)),
        workflows.len() > 6 && urgent_cells(workflows).len() >= 5 ==> shown_cells(workflows).len()
            == 5,
        workflows.len() > 6 && urgent_cells(workflows).len() < 5 ==> shown_cells(workflows)
            == urgent_cells(workflows),
        0 <= i < urgent_cells(workflows).len() ==> urgent_cells(workflows)[i].kind
            == TraceCellKind::Active || urgent_cells(workflows)[i].kind == TraceCellKind::Failure,
    decreases workflows.len(),
{
    if workflows.len() > 0 {
        crowded_bars_show_what_matters(workflows.drop_last(), i);
    }
}

/// A workflow is counted as complete once it is, and shown among what matters where it
/// runs or failed.
pub proof fn one_more_workflow(workflows: Seq<CiWorkflowRun>, workflow: CiWorkflowRun)
    ensures
        completed_count(Seq::empty()) == 0,
        urgent_cells(Seq::empty()).len() == 0,
        completed_count(workflows.push(workflow)) == completed_count(workflows) + (if
        workflow.status == CiWorkflowStatus::Completed {
            1int
        } else {
            0
        }),
        urgent_cells(workflows.push(workflow)) == if workflow.status == CiWorkflowStatus::InProgress
            || (workflow.status == CiWorkflowStatus::Completed && workflow.conclusion == Some(
            CiRunConclusion::Failure,
        )) {
            urgent_cells(workflows).push(cell_of(workflow))
        } else {
            urgent_cells(workflows)
        },
{
    assert(workflows.push(workflow).drop_last() =~= workflows);
}

/// A head is shown by its first seven characters.
pub proof fn heads_are_shortened(head: Seq<char>)
    ensures
        short_head(head).is_prefix_of(head),
        short_head(head).len() == if head.len() < 7 {
            head.len()
        } else {
            7
        },
{
}

/// The run of a head that is tracked replaces the old one in its place, and touches no
/// other.
pub proof fn updates_replace_in_place(heads: Seq<CiRunState>, run: CiRunState, i: int)
    requires
        heads_distinct(heads),
        0 <= i < heads.len(),
        exists|k: int|
            0 <= k < heads.len() && (#[trigger] heads[k]).head_sha@ == run.head_sha@,
    ensures
        with_run(heads, run).len() == heads.len(),
        with_run(heads, run)[i] == if heads[i].head_sha@ == run.head_sha@ {
            run
        } else {
            heads[i]
        },
{
    head_place_bounds(heads, run.head_sha@);
    let k = choose|k: int|
        0 <= k < heads.len() && (#[trigger] heads[k]).head_sha@ == run.head_sha@;
    let n = head_place(heads, run.head_sha@);
    if k < n {
        assert(heads[k].head_sha@ != run.head_sha@);
    }
    assert(n < heads.len());
    if heads[i].head_sha@ == run.head_sha@ && i != n {
        assert(heads[n].head_sha@ == heads[i].head_sha@);
    }
}

/// A new head comes first. The runs that are over make way for it, and the oldest of
/// the others where more than three would be left.
pub proof fn new_heads_come_first(heads: Seq<CiRunState>, run: CiRunState, i: int)
    requires
        forall|k: int|
            0 <= k < heads.len() ==> (#[trigger] heads[k]).head_sha@ != run.head_sha@,
    ensures
        with_run(heads, run).len() >= 1,
        with_run(heads, run).len() <= 3,
        with_run(heads, run)[0] == run,
        1 <= i < with_run(heads, run).len() ==> !run_is_over(with_run(heads, run)[i])
            && heads.contains(with_run(heads, run)[i]),
        heads.len() >= 1 && !run_is_over(heads[0]) ==> with_run(heads, run).len() >= 2 && with_run(
            heads,
            run,
        )[1] == heads[0],
        heads.len() >= 2 && !run_is_over(heads[0]) && !run_is_over(heads[1]) ==> with_run(
            heads,
            run,
        ) == seq![run, heads[0], heads[1]],
{
    head_place_unique(heads, run.head_sha@, heads.len() as int);
    heads_where_members(heads, still_moving());
    let moving = heads_where(heads, still_moving());
    if heads.len() >= 1 && !run_is_over(heads[0]) {
        heads_where_keeps_the_front(heads, 1);
        assert(heads.take(1) =~= seq![heads[0]]);
        assert(moving[0] == moving.take(1)[0]);
    }
    if heads.len() >= 2 && !run_is_over(heads[0]) && !run_is_over(heads[1]) {
        heads_where_keeps_the_front(heads, 2);
        assert(moving[0] == moving.take(2)[0] && moving[1] == moving.take(2)[1]);
        assert(with_run(heads, run) =~= seq![run, heads[0], heads[1]]);
    }
    if 1 <= i < with_run(heads, run).len() {
        assert(with_run(heads, run)[i] == moving[i - 1]);
    }
}

proof fn heads_where_keeps_the_front(heads: Seq<CiRunState>, n: int)
    requires
        0 <= n <= heads.len(),
        forall|k: int| 0 <= k < n ==> !is_terminal((#[trigger] heads[k]).rollup),
    ensures
        heads_where(heads, still_moving()).len() >= n,
        heads_where(heads, still_moving()).take(n) == heads.take(n),
    decreases heads.len(),
{
    let all = heads_where(heads, still_moving());
    if heads.len() > 0 {
        let d = heads.drop_last();
        let front = heads_where(d, still_moving());
        if n == heads.len() {
            assert forall|k: int| 0 <= k < n - 1 implies !is_terminal((#[trigger] d[k]).rollup) by {
                assert(d[k] == heads[k]);
            }
            heads_where_keeps_the_front(d, n - 1);
            heads_where_members(d, still_moving());
            assert(front =~= front.take(n - 1));
            assert(!is_terminal(heads[n - 1].rollup));
            assert(front =~= d.take(n - 1));
            assert(all =~= heads.take(n));
        } else {
            assert forall|k: int| 0 <= k < n implies !is_terminal((#[trigger] d[k]).rollup) by {
                assert(d[k] == heads[k]);
            }
            heads_where_keeps_the_front(d, n);
            assert(all.take(n) =~= front.take(n));
            assert(heads.take(n) =~= d.take(n));
        }
    } else {
        assert(all.take(n) =~= heads.take(n));
    }
}

/// A cleared head is gone, and no other is.
pub proof fn cleared_heads_are_gone(heads: Seq<CiRunState>, head: Seq<char>, i: int)
    ensures
        0 <= i < without_run(heads, head).len() ==> without_run(heads, head)[i].head_sha@ != head
            && heads.contains(without_run(heads, head)[i]),
        0 <= i < heads.len() && heads[i].head_sha@ != head ==> without_run(heads, head).contains(
            heads[i],
        ),
{
    heads_where_members(heads, other_head(head));
    if 0 <= i < heads.len() && heads[i].head_sha@ != head {
        assert(other_head(head)(heads[i]));
    }
}

/// The step that is shown of a job is the first that is under way, or else the last
/// that is completed, or else there is none.
pub proof fn the_current_step(steps: Seq<CiJobStep>, n: int)
    requires
        0 <= n < steps.len(),
    ensures
        steps[n].status == CiWorkflowStatus::InProgress && (forall|i: int|
            0 <= i < n ==> (#[trigger] steps[i]).status != CiWorkflowStatus::InProgress)
            ==> current_step(steps) == Some(steps[n].name@),
        steps[n].status == CiWorkflowStatus::Completed && (forall|i: int|
            0 <= i < steps.len() ==> (#[trigger] steps[i]).status != CiWorkflowStatus::InProgress)
            && (forall|i: int|
            n < i < steps.len() ==> (#[trigger] steps[i]).status != CiWorkflowStatus::Completed)
            ==> current_step(steps) == Some(steps[n].name@),
        (forall|i: int|
            0 <= i < steps.len() ==> (#[trigger] steps[i]).status == CiWorkflowStatus::Queued)
            ==> current_step(steps) is None,
    decreases steps.len(),
{
    steps_are_found(steps, n);
}

proof fn steps_are_found(steps: Seq<CiJobStep>, n: int)
    ensures
        0 <= n < steps.len() && steps[n].status == CiWorkflowStatus::InProgress && (forall|i: int|
            0 <= i < n ==> (#[trigger] steps[i]).status != CiWorkflowStatus::InProgress)
            ==> step_under_way(steps) == Some(steps[n].name@),
        (forall|i: int|
            0 <= i < steps.len() ==> (#[trigger] steps[i]).status != CiWorkflowStatus::InProgress)
            ==> step_under_way(steps) is None,
        0 <= n < steps.len() && steps[n].status == CiWorkflowStatus::Completed && (forall|i: int|
            n < i < steps.len() ==> (#[trigger] steps[i]).status != CiWorkflowStatus::Completed)
            ==> last_completed_step(steps) == Some(steps[n].name@),
        (forall|i: int|
            0 <= i < steps.len() ==> (#[trigger] steps[i]).status != CiWorkflowStatus::Completed)
            ==> last_completed_step(steps) is None,
    decreases steps.len(),
{
    if steps.len() > 0 {
        let d = steps.drop_last();
        steps_are_found(d, n);
        assert(steps.last() == steps[steps.len() - 1]);
        assert(forall|i: int| 0 <= i < d.len() ==> #[trigger] d[i] == steps[i]);
    }
}

/// The place of a job on the axis: the bar starts where the job does and is as long as
/// the job, in ten-thousandths of the axis. A job that is over does not move on.
pub proof fn bars_tell_when_a_job_ran(
    job: CiJob,
    origin: u64,
    axis_seconds: u64,
    start: u64,
    end: u64,
    now: u64,
)
    requires
        job.status != CiWorkflowStatus::Queued,
        job.started_at_epoch_secs == Some(start),
        job.completed_at_epoch_secs == Some(end) || (job.completed_at_epoch_secs is None && end
            == now),
        origin <= start <= end,
        end - origin <= axis_seconds,
        0 < axis_seconds,
        axis_seconds * 10_000 <= u64::MAX,
    ensures
        ({
            let row = row_of(job, origin, axis_seconds, now);
            let part = |seconds: int| (seconds * 10_000) / (axis_seconds as int);
            &&& row.left == part(start - origin)
            &&& part(end - start) >= 1 && row.left + part(end - start) <= 10_000 ==> row.width
                == part(end - start)
            &&& part(end - start) < 1 && row.left < 10_000 ==> row.width == 1
            &&& row.elapsed == duration_text((end - start) as nat)
        }),
{
    let a = (start - origin) as int;
    let b = (end - start) as int;
    let axis = axis_seconds as int;
    parts_fit(a, axis);
    parts_fit(b, axis);
}

proof fn parts_fit(seconds: int, axis: int)
    requires
        0 <= seconds <= axis,
        0 < axis,
        axis * 10_000 <= u64::MAX,
    ensures
        0 <= (seconds * 10_000) / axis <= 10_000,
        seconds * 10_000 <= u64::MAX,
{
    assert(0 <= (seconds * 10_000) / axis <= 10_000) by (nonlinear_arith)
        requires
            0 <= seconds <= axis,
            0 < axis,
    ;
}

/// A job that waits has a bar of a minute, or of what is left of the axis; one that has
/// not started tells no time.
pub proof fn waiting_jobs_take_a_minute(job: CiJob, origin: u64, axis_seconds: u64, now: u64)
    requires
        job.status == CiWorkflowStatus::Queued,
        job.started_at_epoch_secs is None,
        origin <= now,
        60 <= axis_seconds,
        now - origin <= axis_seconds,
        axis_seconds * 10_000 <= u64::MAX,
    ensures
        ({
            let row = row_of(job, origin, axis_seconds, now);
            let part = |seconds: int| (seconds * 10_000) / (axis_seconds as int);
            &&& row.left == part(now - origin)
            &&& row.width == if row.left + part(60) <= 10_000 {
                part(60)
            } else {
                10_000 - row.left
            }
            &&& row.elapsed == "—"@
        }),
{
    parts_fit((now - origin) as int, axis_seconds as int);
    parts_fit(60, axis_seconds as int);
}

/// The axis is the shortest of whole minutes, four at least, that holds the time from
/// the first start of a job to the last end, or to now while a job is not completed.
pub proof fn the_axis_holds_all_jobs(jobs: Seq<CiJob>, now: u64, i: int)
    requires
        0 <= i < jobs.len(),
    ensures
        axis_minutes(jobs, now) >= 4,
        jobs[i].started_at_epoch_secs matches Some(t) ==> axis_origin(jobs, now) <= t,
        (forall|k: int|
            0 <= k < jobs.len() ==> (#[trigger] jobs[k]).started_at_epoch_secs is None)
            ==> axis_origin(jobs, now) == now,
        jobs[i].status != CiWorkflowStatus::Completed && axis_origin(jobs, now) <= now
            ==> axis_minutes(jobs, now) * 60 >= now - axis_origin(jobs, now) && (axis_minutes(
            jobs,
            now,
        ) > 4 ==> (axis_minutes(jobs, now) - 1) * 60 < now - axis_origin(jobs, now)),
        (forall|k: int|
            0 <= k < jobs.len() ==> (#[trigger] jobs[k]).status == CiWorkflowStatus::Completed)
            ==> (jobs[i].completed_at_epoch_secs matches Some(t) ==> t - axis_origin(jobs, now)
            <= axis_minutes(jobs, now) * 60),
{
    job_times_are_bounds(jobs);
    if jobs[i].status != CiWorkflowStatus::Completed {
        assert(any_unfinished(jobs));
    }
}

proof fn job_times_are_bounds(jobs: Seq<CiJob>)
    ensures
        first_job_start(jobs) matches Some(t) ==> (exists|i: int|
            0 <= i < jobs.len() && (#[trigger] jobs[i]).started_at_epoch_secs == Some(t)),
        forall|i: int|
            0 <= i < jobs.len() ==> ((#[trigger] jobs[i]).started_at_epoch_secs matches Some(t)
                ==> first_job_start(jobs) is Some && first_job_start(jobs)->0 <= t),
        forall|i: int|
            0 <= i < jobs.len() ==> ((#[trigger] jobs[i]).completed_at_epoch_secs matches Some(t)
                ==> last_job_end(jobs) is Some && last_job_end(jobs)->0 >= t),
    decreases jobs.len(),
{
    if jobs.len() > 0 {
        let d = jobs.drop_last();
        job_times_are_bounds(d);
        assert(jobs.last() == jobs[jobs.len() - 1]);
        if first_job_start(jobs) is Some && first_job_start(jobs)
            != jobs.last().started_at_epoch_secs {
            let i = choose|i: int|
                0 <= i < d.len() && (#[trigger] d[i]).started_at_epoch_secs == first_job_start(d);
            assert(jobs[i] == d[i]);
        }
        assert(forall|i: int| 0 <= i < d.len() ==> #[trigger] d[i] == jobs[i]);
        assert forall|i: int| 0 <= i < jobs.len() implies ((
        #[trigger] jobs[i]).started_at_epoch_secs matches Some(t) ==> first_job_start(jobs) is Some
            && first_job_start(jobs)->0 <= t) && (jobs[i].completed_at_epoch_secs matches Some(t)
            ==> last_job_end(jobs) is Some && last_job_end(jobs)->0 >= t) by {
            if i < d.len() {
                assert(d[i] == jobs[i]);
            }
        }
    }
}

/// What the bar shows of a run: its clock stands still once it is over, it moves only while
/// the run does, and only the owner may act on it.
pub proof fn bars_show_their_run(state: &CiRunState, now: u64, owner: bool, bar: CiBarModel)
    requires
        call_ensures(CiBarModel::build, (state, now, owner), bar),
    ensures
        bar.elapsed@ == elapsed_text(*state, now),
        run_is_over(*state) ==> bar.elapsed@ == elapsed_text(*state, 0),
        bar.motion <==> state.rollup == CiRunStatus::Running && !state.stale,
        bar.branch@ == state.branch@,
        bar.head_sha@ == state.head_sha@,
        bar.short_sha@ == short_head(state.head_sha@),
        bar.total == state.workflows@.len(),
        bar.completed == completed_count(state.workflows@),
        bar.cells@.len() + bar.hidden_cells == state.workflows@.len(),
        cell_views(bar.cells@) == shown_cells(state.workflows@),
        (bar.state_glyph@, bar.state_word@, bar.tone) == label_of(state.rollup, state.stale),
        bar.action_mode == CiActionMode::Owner <==> owner,
        bar.open_url is Some <==> owner && state.workflows@.len() > 0,
        bar.open_url matches Some(url) ==> Some(url@) == open_url(*state, true),
        bar.accessibility_label@ == "CI "@ + bar.state_word@ + ": "@ + bar.branch@ + " at "@
            + bar.short_sha@ + ", "@ + decimal(bar.completed as nat) + " of "@ + decimal(
            bar.total as nat,
        ) + " workflows complete"@,
{
    if run_is_over(*state) {
        finished_clocks_stand_still(*state, now, 0);
    }
    first_where_bounds(state.workflows@, failed());
    first_where_bounds(state.workflows@, under_way());
    assert(cell_views(bar.cells@).len() == bar.cells@.len());
}

/// What the trace shows: a row for each job, in order, on one axis that is labelled minute
/// by minute; it moves while a job does and the run is not out of date.
pub proof fn traces_show_their_jobs(
    details: &CiRunDetails,
    now: u64,
    stale: bool,
    trace: CiTraceModel,
    i: int,
)
    requires
        call_ensures(CiTraceModel::build, (details, now, stale), trace),
    ensures
        trace.rows@.len() == details.jobs@.len(),
        0 <= i < details.jobs@.len() ==> trace.rows@[i]@ == row_of(
            details.jobs@[i],
            axis_origin(details.jobs@, now),
            axis_length(details.jobs@, now),
            now,
        ),
        trace.axis_labels@.len() == axis_minutes(details.jobs@, now) + 1,
        0 <= i < trace.axis_labels@.len() ==> trace.axis_labels@[i]@ == decimal(i as nat) + "m"@,
        trace.motion <==> !stale && exists|k: int|
            0 <= k < details.jobs@.len() && (#[trigger] details.jobs@[k]).status
                == CiWorkflowStatus::InProgress,
{
    assert(row_views(trace.rows@).len() == trace.rows@.len());
    if 0 <= i < details.jobs@.len() {
        assert(row_views(trace.rows@)[i] == trace.rows@[i]@);
    }
}

/// A change touches the runs of its own repository alone, and details go with their head.
pub proof fn changes_touch_their_own_repository(root: &str, delta: CiRunDelta)
    ensures
        forall|bars: &mut CiRunBars, r: ()|
            #[trigger] call_ensures(CiRunBars::apply, (bars, root, delta), r) ==> {
                &&& forall|other: PathKey|
                    other != path_key(root@) ==> #[trigger] final(bars).heads(other) == bars.heads(
                        other,
                    )
                &&& delta matches CiRunDelta::Put(run) ==> final(bars).heads(path_key(root@))
                    == with_run(bars.heads(path_key(root@)), run)
                &&& delta matches CiRunDelta::Cleared { head_sha } ==> final(bars).heads(
                    path_key(root@),
                ) == without_run(bars.heads(path_key(root@)), head_sha@) && final(bars).detail(
                    path_key(root@),
                    head_sha@,
                ) is None
            },
{
}

/// Details stay as long as their head is tracked and go with it; those of another
/// repository stay in any case.
pub proof fn details_go_with_their_head(
    before: CiRunBars,
    root: PathKey,
    delta: CiRunDelta,
    after: CiRunBars,
    other: PathKey,
    head: Seq<char>,
)
    requires
        CiRunBars::applied(before, root, delta, after),
    ensures
        other != root ==> after.detail(other, head) == before.detail(other, head),
        delta is Put && has_head(after.heads(root), head) ==> after.detail(root, head)
            == before.detail(root, head),
        delta is Put && !has_head(after.heads(root), head) ==> after.detail(root, head) is None,
        delta matches CiRunDelta::Cleared { head_sha } ==> {
            &&& head == head_sha@ ==> after.detail(root, head) is None
            &&& head != head_sha@ ==> after.detail(root, head) == before.detail(root, head)
        },
{
}

/// Details are kept of a head that is tracked, and of no other; nothing else changes.
pub proof fn details_are_kept_of_tracked_heads(root: &str, details: CiRunDetails)
    ensures
        forall|bars: &mut CiRunBars, r: ()|
            #[trigger] call_ensures(CiRunBars::apply_details, (bars, root, details), r) ==> {
                let key = path_key(root@);
                let head = details.head_sha@;
                &&& has_head(bars.heads(key), head) ==> final(bars).detail(key, head) == Some(
                    details,
                )
                &&& !has_head(bars.heads(key), head) ==> final(bars).detail(key, head)
                    == bars.detail(key, head)
                &&& forall|other: Seq<char>|
                    other != head ==> #[trigger] final(bars).detail(key, other) == bars.detail(
                        key,
                        other,
                    )
                &&& final(bars).heads(key) == bars.heads(key)
            },
{
}

/// The labels of a bar and of a row: what is left out is counted where anything is, and
/// the sign of a job stands in front of its name and of its step.
pub proof fn labels_tell_what_they_are_about(
    bar: &CiBarModel,
    row: &CiTraceRowModel,
    expanded: bool,
    toggle: String,
    hidden: Option<String>,
    about: String,
    title: String,
    caption: String,
)
    requires
        call_ensures(CiBarModel::toggle_label, (bar, expanded), toggle),
        call_ensures(CiBarModel::hidden_label, (bar,), hidden),
        call_ensures(CiBarModel::metadata_label, (bar,), about),
        call_ensures(CiTraceRowModel::title, (row,), title),
        call_ensures(CiTraceRowModel::caption, (row,), caption),
    ensures
        expanded ==> toggle@ == bar.accessibility_label@ + ". CI job trace is "@ + "expanded"@,
        !expanded ==> toggle@ == bar.accessibility_label@ + ". CI job trace is "@ + "collapsed"@,
        hidden is Some <==> bar.hidden_cells > 0,
        hidden matches Some(label) ==> label@ == "+"@ + decimal(bar.hidden_cells as nat),
        about@ == " @ "@ + bar.short_sha@ + " · "@ + bar.elapsed@,
        title@ == row.glyph@ + " "@ + row.name@,
        caption@ == row.glyph@ + " "@ + row.current_step@,
{
}

/// Who only looks on has no buttons.
pub proof fn onlookers_have_no_buttons(open: bool, dismiss: bool, r: ActionCluster)
    ensures
        call_ensures(action_cluster, (CiActionMode::ReadOnly, open, dismiss), r) ==> r
            == ActionCluster::Viewing,
        call_ensures(action_cluster, (CiActionMode::Owner, open, dismiss), r) ==> r == (
        ActionCluster::Buttons { open, dismiss }),
{
}

/// What is read back is what was kept, and the functions tell what the laws speak of.
pub proof fn bar_functions(
    bars: &CiRunBars,
    root: &str,
    runs: &[CiRunState],
    seconds: u64,
    duration: String,
    state: &CiRunState,
    now: u64,
    elapsed: String,
)
    requires
        call_ensures(CiRunBars::get, (bars, root), runs),
        call_ensures(duration_label, (seconds,), duration),
        call_ensures(elapsed_label, (state, now), elapsed),
    ensures
        runs@ == bars.heads(path_key(root@)),
        duration@ == duration_text(seconds as nat),
        elapsed@ == elapsed_text(*state, now),
{
}

} // verus!
