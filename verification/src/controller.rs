//! The mode controller: the posture state guard and the transition engine.
//!
//! A transition has two verified halves around the one external effect.
//! `plan_transition` reads the current posture and either short-circuits —
//! already at the target, nothing to apply, nothing to notify — or hands back
//! the one transaction script to run.  After the script has been submitted,
//! `finish_transition` records the outcome: the posture advances to the
//! target exactly when the transaction committed, and stays what it was on
//! any failure.

use vstd::prelude::*;

use crate::mode::Mode;
use crate::rules::ruleset_for;
use crate::rules::ruleset_spec;

verus! {

/// The single mutable posture cell.  The process wraps it in its lock; only
/// the transition engine writes it.
pub struct ControllerState {
    /// The posture currently in force.
    pub mode: Mode,
}

impl ControllerState {
    /// A fresh controller starts isolated: the fail-safe default.
    pub fn new() -> (s: ControllerState)
        ensures
            s.mode == Mode::ToolNodeOnly,
    {
        ControllerState { mode: Mode::ToolNodeOnly }
    }
}

/// The immutable per-process configuration, loaded once at startup.
pub struct ControllerConfig {
    /// The designated peer's address, spliced into both rulesets.
    pub tool_node_ip: String,
    /// The peer subnet (CIDR), reachable in the isolated posture.
    pub node_net_subnet: String,
    /// The credential the write endpoint demands; with none configured the
    /// endpoint rejects every request.
    pub api_key: Option<String>,
    /// Where the peer's control API listens.
    pub authrpc_url: String,
    /// The 32-byte shared signing secret.
    pub jwt_secret: Vec<u8>,
}

impl ControllerConfig {
    /// The configuration invariant: the signing secret is exactly 32 bytes,
    /// as `parse_jwt_secret` guarantees.
    pub open spec fn wf(&self) -> bool {
        self.jwt_secret@.len() == 32
    }
}

/// What one transition request needs done.
pub enum TransitionPlan {
    /// The node is already at the target posture: report success without
    /// touching the firewall or the peer.
    AlreadyInMode,
    /// Submit this script as one atomic transaction, then commit the
    /// outcome with `finish_transition`.
    Apply { script: String },
}

/// A committed transition, as reported to the trigger source.
pub struct TransitionOutcome {
    /// The posture that was in force before.
    pub previous: Mode,
    /// The posture now in force.
    pub current: Mode,
}

/// The posture after one request: the target if its rule application
/// committed, the old posture otherwise.
pub open spec fn step_spec(m: Mode, target: Mode, applied: bool) -> Mode {
    if applied {
        target
    } else {
        m
    }
}

/// Decides what a transition request has to do.  Exactly when the node is
/// already at the target does the plan skip rule application.
pub fn plan_transition(current: Mode, target: Mode, config: &ControllerConfig) -> (p:
    TransitionPlan)
    ensures
        (p is AlreadyInMode) <==> current == target,
        p matches TransitionPlan::Apply { script } ==> script@ == ruleset_spec(
            target,
            config.tool_node_ip@,
            config.node_net_subnet@,
        ),
{
    if current == target {
        TransitionPlan::AlreadyInMode
    } else {
        TransitionPlan::Apply {
            script: ruleset_for(target, config.tool_node_ip.as_str(), config.node_net_subnet.as_str()),
        }
    }
}

/// Records the outcome of the rule application.  On success the posture
/// becomes the target and the outcome carries both postures; on failure the
/// posture is exactly what it was — no partial state — and the tool's
/// diagnostic text passes through unchanged.
pub fn finish_transition(state: &mut ControllerState, target: Mode, applied: Result<(), String>) -> (r:
    Result<TransitionOutcome, String>)
    ensures
        final(state).mode == step_spec(old(state).mode, target, applied is Ok),
        applied is Ok ==> (r matches Ok(o) && o.previous == old(state).mode && o.current
            == target),
        applied is Err ==> final(state).mode == old(state).mode,
        applied matches Err(e) ==> (r matches Err(e2) && e2@ == e@),
{
    match applied {
        Ok(()) => {
            let previous = state.mode;
            state.mode = target;
            Ok(TransitionOutcome { previous, current: target })
        },
        Err(e) => Err(e),
    }
}

/// The posture after a whole sequence of requests, each a target and whether
/// its rule application committed, folded over `step_spec` from the start.
pub open spec fn run_spec(init: Mode, reqs: Seq<(Mode, bool)>) -> Mode
    decreases reqs.len(),
{
    if reqs.len() == 0 {
        init
    } else {
        run_spec(step_spec(init, reqs[0].0, reqs[0].1), reqs.skip(1))
    }
}

/// The target of the last request whose application committed, or the
/// initial posture when none did.
pub open spec fn last_applied_spec(init: Mode, reqs: Seq<(Mode, bool)>) -> Mode
    decreases reqs.len(),
{
    if reqs.len() == 0 {
        init
    } else if reqs.last().1 {
        reqs.last().0
    } else {
        last_applied_spec(init, reqs.drop_last())
    }
}

/// Running one more request steps the fold by that request.
proof fn lemma_run_push(init: Mode, reqs: Seq<(Mode, bool)>, r: (Mode, bool))
    ensures
        run_spec(init, reqs.push(r)) == step_spec(run_spec(init, reqs), r.0, r.1),
    decreases reqs.len(),
{
    if reqs.len() == 0 {
        assert(reqs.push(r)[0] == r);
        assert(reqs.push(r).skip(1) =~= Seq::<(Mode, bool)>::empty());
        assert(run_spec(step_spec(init, r.0, r.1), Seq::<(Mode, bool)>::empty()) == step_spec(
            init,
            r.0,
            r.1,
        ));
        assert(run_spec(init, reqs) == init);
    } else {
        assert(reqs.push(r)[0] == reqs[0]);
        assert(reqs.push(r).skip(1) =~= reqs.skip(1).push(r));
        lemma_run_push(step_spec(init, reqs[0].0, reqs[0].1), reqs.skip(1), r);
    }
}

/// After any sequence of transition requests, the posture equals the target
/// of the last request whose rule application committed — and the initial
/// posture when none ever did.
pub proof fn lemma_posture_is_last_applied_target(init: Mode, reqs: Seq<(Mode, bool)>)
    ensures
        run_spec(init, reqs) == last_applied_spec(init, reqs),
    decreases reqs.len(),
{
    if reqs.len() > 0 {
        let prefix = reqs.drop_last();
        let r = reqs.last();
        assert(reqs =~= prefix.push(r));
        lemma_posture_is_last_applied_target(init, prefix);
        lemma_run_push(init, prefix, r);
    }
}

} // verus!
