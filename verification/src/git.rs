//! The repository reconciler: the per-target decision engine.
//!
//! For one remote descriptor and one local path the engine decides, from the
//! target's observed state alone, which operations bring the local copy to
//! the remote's default-branch tip: a fresh clone, a remove-then-clone, a
//! fast-forward, a hard reset, or nothing. The surrounding application
//! performs the transport and working-tree operations; every decision and
//! the resulting model state are computed and proved here.

use vstd::prelude::*;
use vstd::string::StringExecFns;
use crate::errors::SyncError;

verus! {

/// The tri-state result of analysing the local tip against the fetched tip.
///
/// `UpToDate`: the fetched tip is already reachable from the local tip.
/// `FastForward`: the local tip is an ancestor of the fetched tip.
/// `Diverged`: the tips share history but neither reaches the other.
#[derive(Clone, Copy, Debug, PartialEq, Eq, Structural)]
pub enum MergeAnalysis {
    UpToDate,
    FastForward,
    Diverged,
}

/// How an existing, non-forced target was brought up to date.
#[derive(Clone, Copy, Debug, PartialEq, Eq, Structural)]
pub enum UpdateKind {
    FastForward,
    Reset,
    UpToDate,
}

/// What one reconciliation pass did to its target.
#[derive(Clone, Copy, Debug, PartialEq, Eq, Structural)]
pub enum SyncOutcome {
    Cloned,
    Updated(UpdateKind),
    Recreated,
    Failed(SyncError),
}

/// The top-level operations a reconciliation plan is made of.
#[derive(Clone, Copy, Debug, PartialEq, Eq, Structural)]
pub enum SyncStep {
    /// Remove the existing local directory entirely.
    RemoveExisting,
    /// Clone the remote into the (now absent) local path.
    CloneFresh,
    /// Open the existing local repository and update it in place.
    UpdateExisting,
}

/// The stages of the state machine at which an operation can fail.
#[derive(Clone, Copy, Debug, PartialEq, Eq, Structural)]
pub enum ReconcileStage {
    RemoveDir,
    CloneRepo,
    OpenRepo,
    FindRemote,
    FetchBranch,
    LocateFetchedCommit,
    AnalyzeMerge,
    MoveBranchRef,
    SetHead,
    ForceCheckout,
    HardReset,
}

/// The local working copy of one target, as the engine models it: either the
/// path is absent, or it holds a repository whose default branch points at
/// `tip`.
#[derive(Clone, Copy, Debug, PartialEq, Eq, Structural)]
pub enum LocalState {
    Absent,
    Present { tip: u64 },
}

/// The plan for one target: which operations run, in order.
pub open spec fn spec_plan_sync(present: bool, force: bool) -> Seq<SyncStep> {
    if !present {
        seq![SyncStep::CloneFresh]
    } else if force {
        seq![SyncStep::RemoveExisting, SyncStep::CloneFresh]
    } else {
        seq![SyncStep::UpdateExisting]
    }
}

/// Decide the operations for one target: absent paths are cloned, present
/// ones are updated in place, unless force asks for a remove-then-clone.
pub fn plan_sync(present: bool, force: bool) -> (plan: Vec<SyncStep>)
    ensures
        plan@ == spec_plan_sync(present, force),
{
    let mut plan: Vec<SyncStep> = Vec::new();
    if !present {
        plan.push(SyncStep::CloneFresh);
    } else if force {
        plan.push(SyncStep::RemoveExisting);
        plan.push(SyncStep::CloneFresh);
    } else {
        plan.push(SyncStep::UpdateExisting);
    }
    proof {
        assert(plan@ =~= spec_plan_sync(present, force));
    }
    plan
}

/// With force set on an existing target, the plan removes the old directory
/// first and only then clones: the prior local state, corrupted or not, is
/// gone before any transport runs.
pub proof fn lemma_force_removes_before_clone(present: bool, force: bool)
    requires
        present,
        force,
    ensures
        spec_plan_sync(present, force).len() == 2,
        spec_plan_sync(present, force)[0] == SyncStep::RemoveExisting,
        spec_plan_sync(present, force)[1] == SyncStep::CloneFresh,
{
}

/// The merge analysis as a function of the two reachability facts git
/// reports: whether the fetched tip is already in the local history, and
/// whether the local tip is in the fetched history.
pub open spec fn spec_classify_merge(
    fetched_in_local_history: bool,
    local_in_fetched_history: bool,
) -> MergeAnalysis {
    if fetched_in_local_history {
        MergeAnalysis::UpToDate
    } else if local_in_fetched_history {
        MergeAnalysis::FastForward
    } else {
        MergeAnalysis::Diverged
    }
}

/// Classify the relationship of the local tip to the fetched tip.
pub fn classify_merge(fetched_in_local_history: bool, local_in_fetched_history: bool) -> (a:
    MergeAnalysis)
    ensures
        a == spec_classify_merge(fetched_in_local_history, local_in_fetched_history),
{
    if fetched_in_local_history {
        MergeAnalysis::UpToDate
    } else if local_in_fetched_history {
        MergeAnalysis::FastForward
    } else {
        MergeAnalysis::Diverged
    }
}

/// Which in-place update each analysis demands. Divergence is resolved by a
/// hard reset: the mirror never merges, local-only history is discarded.
pub open spec fn spec_update_action(analysis: MergeAnalysis) -> UpdateKind {
    match analysis {
        MergeAnalysis::UpToDate => UpdateKind::UpToDate,
        MergeAnalysis::FastForward => UpdateKind::FastForward,
        MergeAnalysis::Diverged => UpdateKind::Reset,
    }
}

/// Decide the in-place update for an analysed target.
pub fn update_action(analysis: MergeAnalysis) -> (k: UpdateKind)
    ensures
        k == spec_update_action(analysis),
{
    match analysis {
        MergeAnalysis::UpToDate => UpdateKind::UpToDate,
        MergeAnalysis::FastForward => UpdateKind::FastForward,
        MergeAnalysis::Diverged => UpdateKind::Reset,
    }
}

/// The tip an in-place update leaves behind, with the update kind: an
/// up-to-date target keeps its tip, a fast-forward and a reset both land
/// exactly on the fetched tip.
pub open spec fn spec_apply_update(local_tip: u64, fetched_tip: u64, analysis: MergeAnalysis) -> (
    u64,
    UpdateKind,
) {
    match spec_update_action(analysis) {
        UpdateKind::UpToDate => (local_tip, UpdateKind::UpToDate),
        UpdateKind::FastForward => (fetched_tip, UpdateKind::FastForward),
        UpdateKind::Reset => (fetched_tip, UpdateKind::Reset),
    }
}

/// Apply an in-place update to the model of the local branch.
pub fn apply_update(local_tip: u64, fetched_tip: u64, analysis: MergeAnalysis) -> (r: (
    u64,
    UpdateKind,
))
    ensures
        r == spec_apply_update(local_tip, fetched_tip, analysis),
{
    match update_action(analysis) {
        UpdateKind::UpToDate => (local_tip, UpdateKind::UpToDate),
        UpdateKind::FastForward => (fetched_tip, UpdateKind::FastForward),
        UpdateKind::Reset => (fetched_tip, UpdateKind::Reset),
    }
}

/// One full reconciliation of a target, as a transition of the model state:
/// the new local state and the outcome reported to the driver.
pub open spec fn spec_reconcile(
    local: LocalState,
    fetched_tip: u64,
    analysis: MergeAnalysis,
    force: bool,
) -> (LocalState, SyncOutcome) {
    match local {
        LocalState::Absent => (
            LocalState::Present { tip: fetched_tip },
            SyncOutcome::Cloned,
        ),
        LocalState::Present { tip } => if force {
            (LocalState::Present { tip: fetched_tip }, SyncOutcome::Recreated)
        } else {
            let (new_tip, kind) = spec_apply_update(tip, fetched_tip, analysis);
            (LocalState::Present { tip: new_tip }, SyncOutcome::Updated(kind))
        },
    }
}

/// Reconcile one target: an absent path is cloned, a present one is
/// recreated under force and otherwise updated per the merge analysis.
pub fn reconcile(local: LocalState, fetched_tip: u64, analysis: MergeAnalysis, force: bool) -> (r: (
    LocalState,
    SyncOutcome,
))
    ensures
        r == spec_reconcile(local, fetched_tip, analysis, force),
{
    match local {
        LocalState::Absent => (
            LocalState::Present { tip: fetched_tip },
            SyncOutcome::Cloned,
        ),
        LocalState::Present { tip } => if force {
            (LocalState::Present { tip: fetched_tip }, SyncOutcome::Recreated)
        } else {
            let (new_tip, kind) = apply_update(tip, fetched_tip, analysis);
            (LocalState::Present { tip: new_tip }, SyncOutcome::Updated(kind))
        },
    }
}

/// What the merge analysis of an unchanged remote is bound to report: a
/// branch already at the fetched tip is up to date.
pub open spec fn analysis_consistent(
    local_tip: u64,
    fetched_tip: u64,
    analysis: MergeAnalysis,
) -> bool {
    local_tip == fetched_tip ==> analysis == MergeAnalysis::UpToDate
}

/// Reconciling twice in succession against an unchanged remote leaves the
/// target alone the second time: the second outcome is up to date and the
/// local state does not move. The second analysis must be consistent with
/// the state the first pass left, and analysing an unchanged state twice
/// reports the same thing.
pub proof fn lemma_reconcile_idempotent(
    local: LocalState,
    fetched_tip: u64,
    a1: MergeAnalysis,
    a2: MergeAnalysis,
)
    requires
        local matches LocalState::Present { tip } ==> analysis_consistent(tip, fetched_tip, a1),
        ({
            let s1 = spec_reconcile(local, fetched_tip, a1, false).0;
            &&& (s1 matches LocalState::Present { tip } ==> analysis_consistent(
                tip,
                fetched_tip,
                a2,
            ))
            &&& (s1 == local ==> a2 == a1)
        }),
    ensures
        ({
            let s1 = spec_reconcile(local, fetched_tip, a1, false).0;
            spec_reconcile(s1, fetched_tip, a2, false) == (
                s1,
                SyncOutcome::Updated(UpdateKind::UpToDate),
            )
        }),
{
}

/// With the local tip strictly behind the fetched tip (an ancestor of it,
/// while the fetched tip is not yet in the local history), reconciliation
/// fast-forwards and lands exactly on the fetched tip.
pub proof fn lemma_fast_forward_correct(
    local_tip: u64,
    fetched_tip: u64,
    fetched_in_local_history: bool,
    local_in_fetched_history: bool,
)
    requires
        !fetched_in_local_history,
        local_in_fetched_history,
    ensures
        spec_reconcile(
            LocalState::Present { tip: local_tip },
            fetched_tip,
            spec_classify_merge(fetched_in_local_history, local_in_fetched_history),
            false,
        ) == (
            LocalState::Present { tip: fetched_tip },
            SyncOutcome::Updated(UpdateKind::FastForward),
        ),
{
}

/// With the tips diverged (neither reaches the other), reconciliation hard
/// resets and lands exactly on the fetched tip: the local branch ref no
/// longer points into local-only history.
pub proof fn lemma_divergence_resets(
    local_tip: u64,
    fetched_tip: u64,
    fetched_in_local_history: bool,
    local_in_fetched_history: bool,
)
    requires
        !fetched_in_local_history,
        !local_in_fetched_history,
    ensures
        spec_reconcile(
            LocalState::Present { tip: local_tip },
            fetched_tip,
            spec_classify_merge(fetched_in_local_history, local_in_fetched_history),
            false,
        ) == (
            LocalState::Present { tip: fetched_tip },
            SyncOutcome::Updated(UpdateKind::Reset),
        ),
{
}

/// Which error a failure at each stage of the state machine surfaces.
pub open spec fn spec_stage_error(stage: ReconcileStage) -> SyncError {
    match stage {
        ReconcileStage::RemoveDir => SyncError::FilesystemError,
        ReconcileStage::CloneRepo => SyncError::CloneError,
        ReconcileStage::OpenRepo => SyncError::RepoOpenError,
        ReconcileStage::FindRemote => SyncError::RemoteError,
        ReconcileStage::FetchBranch => SyncError::FetchError,
        ReconcileStage::LocateFetchedCommit => SyncError::RefError,
        ReconcileStage::AnalyzeMerge => SyncError::RefError,
        ReconcileStage::MoveBranchRef => SyncError::RefError,
        ReconcileStage::SetHead => SyncError::RefError,
        ReconcileStage::ForceCheckout => SyncError::CheckoutError,
        ReconcileStage::HardReset => SyncError::CheckoutError,
    }
}

/// Map a failed stage to the error its target reports.
pub fn stage_error(stage: ReconcileStage) -> (e: SyncError)
    ensures
        e == spec_stage_error(stage),
{
    match stage {
        ReconcileStage::RemoveDir => SyncError::FilesystemError,
        ReconcileStage::CloneRepo => SyncError::CloneError,
        ReconcileStage::OpenRepo => SyncError::RepoOpenError,
        ReconcileStage::FindRemote => SyncError::RemoteError,
        ReconcileStage::FetchBranch => SyncError::FetchError,
        ReconcileStage::LocateFetchedCommit => SyncError::RefError,
        ReconcileStage::AnalyzeMerge => SyncError::RefError,
        ReconcileStage::MoveBranchRef => SyncError::RefError,
        ReconcileStage::SetHead => SyncError::RefError,
        ReconcileStage::ForceCheckout => SyncError::CheckoutError,
        ReconcileStage::HardReset => SyncError::CheckoutError,
    }
}

/// The HTTPS transport URL with the bearer token embedded, as the fresh
/// clone uses it.
pub fn authenticated_clone_url(token: &str, full_name: &str) -> (url: String)
    ensures
        url@ == "https://"@ + token@ + "@github.com/"@ + full_name@ + ".git"@,
{
    let mut url = String::from_str("https://");
    url.append(token);
    url.append("@github.com/");
    url.append(full_name);
    url.append(".git");
    url
}

/// Derives local paths for sync targets under one sync root.
pub struct GitManager {
    sync_dir: String,
}

impl GitManager {
    /// The sync root every target path is placed under.
    pub closed spec fn sync_root(&self) -> Seq<char> {
        self.sync_dir@
    }

    pub fn new(sync_dir: &str) -> (m: Self)
        ensures
            m.sync_root() == sync_dir@,
    {
        GitManager { sync_dir: String::from_str(sync_dir) }
    }

    /// The local path of one target: the sync root with the descriptor's
    /// short name as the leaf.
    pub fn target_path(&self, name: &str) -> (p: String)
        ensures
            p@ == self.sync_root() + "/"@ + name@,
    {
        let mut p = String::from_str(self.sync_dir.as_str());
        p.append("/");
        p.append(name);
        p
    }
}

} // verus!
