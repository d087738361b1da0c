//! Explicit repository acceptance is bound to the latest checked candidate:
//! every applicable required project hook must have passed on exactly that
//! candidate. An old accepted candidate cannot stand in for a pending one.
use vstd::prelude::*;

use crate::error::StorageError;
use crate::text::text_equals;

verus! {

/// One Pipeline stage whose system action is a project hook, as loaded from
/// the Task's Project.
#[derive(Clone, Copy, Debug)]
pub struct HookStage {
    /// The pinned hook version exists in the Task's Project.
    pub loaded: bool,
    /// The stage, Pipeline version and hook version agree with each other.
    pub version_valid: bool,
    /// The hook must pass before acceptance.
    pub required: bool,
    /// The hook applies to the Task's kind.
    pub applies: bool,
}

/// The Git candidate that the hooks are checked against.
#[derive(Clone, Copy, Debug)]
pub struct HookCandidate {
    /// The candidate snapshot passes its own validation.
    pub valid: bool,
    /// Project the candidate belongs to.
    pub project_id: u128,
    /// Task the candidate belongs to.
    pub task_id: u128,
    /// Writer proposal that produced the candidate.
    pub proposal_id: u128,
    /// Proposal under which the candidate row is filed.
    pub row_proposal_id: u128,
}

/// A parsed hook execution result.
#[derive(Clone, Copy, Debug)]
pub struct HookResult {
    /// The result passes its own validation.
    pub valid: bool,
    /// Invocation the result names.
    pub invocation_id: u128,
    /// The verdict is `passed`.
    pub passed: bool,
    /// Candidate proposal the result names.
    pub candidate_proposal_id: u128,
    /// The result names the same candidate content as the checked candidate.
    pub same_candidate: bool,
}

/// The latest invocation of one required hook on the checked candidate.
#[derive(Clone, Copy, Debug)]
pub struct HookInvocation {
    /// Invocation identity.
    pub id: u128,
    /// The invocation reached the `completed` state.
    pub completed: bool,
    /// Its result, or `None` when it has none or the stored value does not parse.
    pub result: Option<HookResult>,
}

/// A stage that gates acceptance.
pub open spec fn gates_acceptance(stage: HookStage) -> bool {
    stage.required && stage.applies
}

/// Every hook stage resolved to a consistent hook version of the Project.
pub open spec fn stages_resolve(stages: Seq<HookStage>) -> bool {
    forall|i: int| 0 <= i < stages.len() ==> (#[trigger] stages[i]).loaded && stages[i].version_valid
}

/// Some stage gates acceptance.
pub open spec fn any_gate(stages: Seq<HookStage>) -> bool {
    exists|i: int| 0 <= i < stages.len() && gates_acceptance(#[trigger] stages[i])
}

/// A candidate fit for checking: valid, of this Project and Task, and equal to
/// the pending proposal whenever the caller asks for one.
pub open spec fn candidate_acceptable(
    candidate: HookCandidate,
    task_project: u128,
    task_id: u128,
    candidate_override: Option<u128>,
) -> bool {
    &&& candidate.valid
    &&& candidate.project_id == task_project
    &&& candidate.task_id == task_id
    &&& (candidate_override matches Some(id) ==> candidate.proposal_id == id)
}

/// The latest invocation completed with a valid result of its own that passed
/// on exactly the checked candidate.
pub open spec fn invocation_passed(invocation: Option<HookInvocation>, candidate: HookCandidate) -> bool {
    match invocation {
        Some(v) => v.completed && match v.result {
            Some(r) => r.valid && r.invocation_id == v.id && r.passed && r.candidate_proposal_id
                == candidate.proposal_id && r.same_candidate,
            None => false,
        },
        None => false,
    }
}

/// The invocation recorded for stage `i`, if any.
pub open spec fn invocation_at(invocations: Seq<Option<HookInvocation>>, i: int) -> Option<
    HookInvocation,
> {
    if 0 <= i < invocations.len() {
        invocations[i]
    } else {
        None
    }
}

/// Whether the required hooks of a Task's Pipeline version are satisfied.
/// Projects without applicable required hooks need no candidate at all.
pub open spec fn hooks_satisfied(
    version_matches_task: bool,
    stages: Seq<HookStage>,
    task_project: u128,
    task_id: u128,
    candidate_override: Option<u128>,
    candidate: Option<HookCandidate>,
    invocations: Seq<Option<HookInvocation>>,
) -> bool {
    &&& version_matches_task
    &&& stages_resolve(stages)
    &&& (any_gate(stages) ==> match candidate {
        Some(c) => candidate_acceptable(c, task_project, task_id, candidate_override) && forall|
            i: int,
        |
            0 <= i < stages.len() && gates_acceptance(#[trigger] stages[i]) ==> invocation_passed(
                invocation_at(invocations, i),
                c,
            ),
        None => false,
    })
}

/// The verdict reached before any candidate is read: `Some(false)` when the
/// version is not the Task's or a stage does not resolve, `Some(true)` when no
/// stage gates acceptance, `None` when a candidate must be checked.
pub open spec fn hooks_precheck(version_matches_task: bool, stages: Seq<HookStage>) -> Option<bool> {
    if !version_matches_task || !stages_resolve(stages) {
        Some(false)
    } else if !any_gate(stages) {
        Some(true)
    } else {
        None
    }
}

/// Decides the verdict that needs no candidate; see [`hooks_precheck`].
pub fn required_hooks_precheck(
    version_project: u128,
    version_id: u128,
    task_project: u128,
    task_pipeline_version: u128,
    stages: &Vec<HookStage>,
) -> (res: Option<bool>)
    ensures
        res == hooks_precheck(
            version_project == task_project && version_id == task_pipeline_version,
            stages@,
        ),
{
    if version_project != task_project || version_id != task_pipeline_version {
        return Some(false);
    }
    let n = stages.len();
    let mut i: usize = 0;
    let mut gated = false;
    while i < n
        invariant
            n == stages@.len(),
            i <= n,
            forall|k: int| 0 <= k < i ==> (#[trigger] stages@[k]).loaded && stages@[k].version_valid,
            gated == exists|k: int| 0 <= k < i && gates_acceptance(#[trigger] stages@[k]),
        decreases n - i,
    {
        let stage = stages[i];
        if !stage.loaded || !stage.version_valid {
            assert(!stages_resolve(stages@));
            return Some(false);
        }
        if stage.required && stage.applies {
            gated = true;
        }
        i += 1;
    }
    if !gated {
        return Some(true);
    }
    None
}

/// The latest accepted candidate (read when no pending proposal is named) is
/// corrupt: it fails its own validation, or its Project, Task or proposal
/// differ from the canonical Task scope and the row it was read from.
pub open spec fn latest_candidate_fault(
    candidate_override: Option<u128>,
    candidate: Option<HookCandidate>,
    task_project: u128,
    task_id: u128,
) -> bool {
    &&& candidate_override is None
    &&& candidate matches Some(c)
    &&& (!c.valid || c.project_id != task_project || c.task_id != task_id || c.proposal_id
        != c.row_proposal_id)
}

/// Stage `i`'s latest invocation completed with a valid result of its own
/// that passed on exactly the checked candidate: the candidate's proposal and
/// the same candidate content.
pub open spec fn passed_on_candidate(
    invocations: Seq<Option<HookInvocation>>,
    i: int,
    candidate: Option<HookCandidate>,
) -> bool {
    &&& i < invocations.len()
    &&& invocations[i] matches Some(v)
    &&& v.completed
    &&& v.result matches Some(r)
    &&& r.valid
    &&& r.invocation_id == v.id
    &&& r.passed
    &&& r.same_candidate
    &&& candidate matches Some(c)
    &&& r.candidate_proposal_id == c.proposal_id
}

/// Decides whether the required project hooks are satisfied for a Task.
///
/// `version_project`/`version_id` name the Pipeline version being checked and
/// `task_pipeline_version` the version the Task is pinned to; `stages` lists the
/// Pipeline's project-hook stages in order, and `invocations[i]` is the latest
/// invocation of stage `i`'s hook on the checked candidate (consulted only for
/// gating stages). `candidate` is the named pending proposal's candidate when
/// `candidate_override` is set, else the latest accepted candidate, which is
/// only read when some stage gates acceptance. A corrupt latest accepted
/// candidate is an error, not a refusal.
pub fn required_hooks_satisfied(
    version_project: u128,
    version_id: u128,
    task_project: u128,
    task_id: u128,
    task_pipeline_version: u128,
    stages: &Vec<HookStage>,
    candidate_override: Option<u128>,
    candidate: Option<HookCandidate>,
    invocations: &Vec<Option<HookInvocation>>,
) -> (res: Result<bool, StorageError>)
    ensures
        ({
            let pre = hooks_precheck(
                version_project == task_project && version_id == task_pipeline_version,
                stages@,
            );
            &&& pre is Some ==> res == Ok::<bool, StorageError>(pre->0)
            &&& (pre is None && latest_candidate_fault(
                candidate_override,
                candidate,
                task_project,
                task_id,
            ) && !candidate->0.valid) ==> res == Err::<bool, StorageError>(
                StorageError::SnapshotInvariant { aggregate: "Task Git candidate" },
            )
            &&& (pre is None && latest_candidate_fault(
                candidate_override,
                candidate,
                task_project,
                task_id,
            ) && candidate->0.valid) ==> (res matches Err(StorageError::InvalidInput { reason })
                && reason@ == "accepted Git candidate does not match its canonical Task scope"@)
            &&& (pre is None && !latest_candidate_fault(
                candidate_override,
                candidate,
                task_project,
                task_id,
            )) ==> res == Ok::<bool, StorageError>(
                hooks_satisfied(
                    version_project == task_project && version_id == task_pipeline_version,
                    stages@,
                    task_project,
                    task_id,
                    candidate_override,
                    candidate,
                    invocations@,
                ),
            )
        }),
        res == Ok::<bool, StorageError>(true) ==> forall|i: int|
            0 <= i < stages@.len() && (#[trigger] stages@[i]).required && stages@[i].applies
                ==> passed_on_candidate(invocations@, i, candidate),
{
    let n = stages.len();
    match required_hooks_precheck(
        version_project,
        version_id,
        task_project,
        task_pipeline_version,
        stages,
    ) {
        Some(verdict) => return Ok(verdict),
        None => {},
    }
    let c = match candidate {
        Some(c) => c,
        None => return Ok(false),
    };
    if candidate_override.is_none() {
        if !c.valid {
            return Err(StorageError::SnapshotInvariant { aggregate: "Task Git candidate" });
        }
        if c.project_id != task_project || c.task_id != task_id || c.proposal_id
            != c.row_proposal_id {
            return Err(
                StorageError::InvalidInput {
                    reason: "accepted Git candidate does not match its canonical Task scope".to_owned(),
                },
            );
        }
    }
    let override_ok = match candidate_override {
        Some(id) => c.proposal_id == id,
        None => true,
    };
    if !c.valid || c.project_id != task_project || c.task_id != task_id || !override_ok {
        return Ok(false);
    }
    let mut j: usize = 0;
    while j < n
        invariant
            n == stages@.len(),
            j <= n,
            version_project == task_project && version_id == task_pipeline_version,
            stages_resolve(stages@),
            any_gate(stages@),
            candidate == Some(c),
            candidate_acceptable(c, task_project, task_id, candidate_override),
            !latest_candidate_fault(candidate_override, candidate, task_project, task_id),
            forall|k: int|
                0 <= k < j && gates_acceptance(#[trigger] stages@[k]) ==> invocation_passed(
                    invocation_at(invocations@, k),
                    c,
                ),
        decreases n - j,
    {
        let stage = stages[j];
        if stage.required && stage.applies {
            let invocation = if j < invocations.len() {
                invocations[j]
            } else {
                None
            };
            let ok = match invocation {
                Some(v) => v.completed && match v.result {
                    Some(r) => r.valid && r.invocation_id == v.id && r.passed
                        && r.candidate_proposal_id == c.proposal_id && r.same_candidate,
                    None => false,
                },
                None => false,
            };
            assert(invocation == invocation_at(invocations@, j as int));
            if !ok {
                assert(!invocation_passed(invocation_at(invocations@, j as int), c));
                assert(gates_acceptance(stages@[j as int]));
                return Ok(false);
            }
        }
        j += 1;
    }
    Ok(true)
}

/// Without an applicable required hook, acceptance needs no candidate,
/// repository or synthetic success: the hooks are satisfied with no candidate.
pub proof fn lemma_no_required_hooks_needs_no_candidate(
    stages: Seq<HookStage>,
    task_project: u128,
    task_id: u128,
    candidate_override: Option<u128>,
    invocations: Seq<Option<HookInvocation>>,
)
    requires
        stages_resolve(stages),
        !any_gate(stages),
    ensures
        hooks_satisfied(true, stages, task_project, task_id, candidate_override, None, invocations),
{
}

/// A named pending proposal is checked on its own candidate: another
/// candidate (such as an older accepted one) never satisfies the hooks.
pub proof fn lemma_pending_proposal_is_not_replaced(
    version_matches_task: bool,
    stages: Seq<HookStage>,
    task_project: u128,
    task_id: u128,
    proposal: u128,
    candidate: HookCandidate,
    invocations: Seq<Option<HookInvocation>>,
)
    requires
        any_gate(stages),
        candidate.proposal_id != proposal,
    ensures
        !hooks_satisfied(
            version_matches_task,
            stages,
            task_project,
            task_id,
            Some(proposal),
            Some(candidate),
            invocations,
        ),
{
}

/// A required hook passes only on the exact candidate it ran against: a
/// result naming another proposal never counts.
pub proof fn lemma_result_is_bound_to_candidate(
    invocation: HookInvocation,
    result: HookResult,
    candidate: HookCandidate,
)
    requires
        invocation.result == Some(result),
        result.candidate_proposal_id != candidate.proposal_id,
    ensures
        !invocation_passed(Some(invocation), candidate),
{
}

/// A required hook counts as passed only on exactly the checked candidate:
/// whenever the hooks are satisfied, every stage that gates acceptance has a
/// completed invocation whose own valid result passed, names the candidate's
/// proposal and ran on the same candidate content. A result on other content
/// never satisfies the hooks.
pub proof fn lemma_hooks_pass_only_on_the_checked_candidate(
    version_matches_task: bool,
    stages: Seq<HookStage>,
    task_project: u128,
    task_id: u128,
    candidate_override: Option<u128>,
    candidate: Option<HookCandidate>,
    invocations: Seq<Option<HookInvocation>>,
)
    ensures
        hooks_satisfied(
            version_matches_task,
            stages,
            task_project,
            task_id,
            candidate_override,
            candidate,
            invocations,
        ) ==> forall|i: int|
            0 <= i < stages.len() && (#[trigger] stages[i]).required && stages[i].applies
                ==> passed_on_candidate(invocations, i, candidate),
{
    if hooks_satisfied(
        version_matches_task,
        stages,
        task_project,
        task_id,
        candidate_override,
        candidate,
        invocations,
    ) {
        assert forall|i: int|
            0 <= i < stages.len() && (#[trigger] stages[i]).required && stages[i].applies implies passed_on_candidate(
            invocations,
            i,
            candidate,
        ) by {
            assert(gates_acceptance(stages[i]));
            assert(any_gate(stages));
        }
    }
}

/// Lifecycle of one owner-selected hook invocation.
#[derive(Clone, Copy, Debug, PartialEq, Eq, Structural)]
pub enum HookInvocationState {
    /// The hook Run is executing.
    Running,
    /// The hook finished with a result.
    Completed,
    /// The hook stopped without a usable result and awaits an operator.
    Held,
}

/// The storage text of a hook invocation state.
pub open spec fn hook_state_text(state: HookInvocationState) -> Seq<char> {
    match state {
        HookInvocationState::Running => "running"@,
        HookInvocationState::Completed => "completed"@,
        HookInvocationState::Held => "held"@,
    }
}

/// The single failure of hook ownership and state checks.
pub open spec fn hook_refused<T>(res: Result<T, StorageError>) -> bool {
    res matches Err(StorageError::InvalidInput { reason })
        && reason@ == "invalid Hook owner, state or physical admission"@
}

fn hook_error() -> (res: StorageError)
    ensures
        hook_refused(Err::<(), StorageError>(res)),
{
    StorageError::InvalidInput { reason: "invalid Hook owner, state or physical admission".to_owned() }
}

impl HookInvocationState {
    /// The storage text of this state.
    pub fn as_str(&self) -> (res: &'static str)
        ensures
            res@ == hook_state_text(*self),
    {
        match self {
            HookInvocationState::Running => "running",
            HookInvocationState::Completed => "completed",
            HookInvocationState::Held => "held",
        }
    }

    /// Reads a stored state; any other text is invalid hook state.
    pub fn from_storage(text: &str) -> (res: Result<Self, StorageError>)
        ensures
            res matches Ok(state) ==> hook_state_text(state) == text@,
            res is Err ==> hook_refused(res) && forall|state: HookInvocationState|
                hook_state_text(state) != text@,
    {
        if text_equals(text, "running") {
            Ok(HookInvocationState::Running)
        } else if text_equals(text, "completed") {
            Ok(HookInvocationState::Completed)
        } else if text_equals(text, "held") {
            Ok(HookInvocationState::Held)
        } else {
            Err(hook_error())
        }
    }
}

/// A new invocation is recorded only as `running`, bound to its own Run, and
/// without a result.
pub fn check_new_invocation(state: HookInvocationState, bound_to_spec_run: bool, has_result: bool) -> (res:
    Result<(), StorageError>)
    ensures
        res is Ok <==> (state == HookInvocationState::Running && bound_to_spec_run && !has_result),
        res is Err ==> hook_refused(res),
{
    if state != HookInvocationState::Running || !bound_to_spec_run || has_result {
        return Err(hook_error());
    }
    Ok(())
}

/// The state a finished hook records: only `completed` or `held`.
pub fn finishing_state(state: HookInvocationState) -> (res: Result<HookInvocationState, StorageError>)
    ensures
        state != HookInvocationState::Running ==> res == Ok::<HookInvocationState, StorageError>(state),
        state == HookInvocationState::Running ==> hook_refused(res),
{
    match state {
        HookInvocationState::Running => Err(hook_error()),
        _ => Ok(state),
    }
}

/// A hook finish (or handoff) must update exactly the one running invocation.
pub fn hook_write_applied(rows_affected: u64) -> (res: Result<(), StorageError>)
    ensures
        rows_affected == 1 ==> res is Ok,
        rows_affected != 1 ==> hook_refused(res),
{
    if rows_affected != 1 {
        return Err(hook_error());
    }
    Ok(())
}

} // verus!
