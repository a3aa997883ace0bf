//! The cluster lifecycle state machine.
//!
//! States: no cluster, initializing, active, draining, and back to no
//! cluster. The machine itself only decides; the binary runs the decided
//! action (probing the control plane, initializing it, driving the fleet,
//! destroying it) and feeds the outcome back as the next event.
//!
//! Two decisions carry the subtle rules. The probe is conservative: only the
//! known absence signature in the probe's error output means "no cluster";
//! any other failure still counts as "cluster present", so that an ambiguous
//! state is never initialized over. And a control-plane initialization whose
//! output holds no recognizable join command aborts the whole start workflow
//! before any node is touched: proceeding with an empty join token would
//! silently produce nodes that never join.

use vstd::prelude::*;
use vstd::string::*;
use crate::executor::{CommandSpec, CommandSpecView};
use crate::strutil::{
    contains_str,
    lines_of,
    spec_contains_seq,
    spec_lines,
    spec_starts_with,
    spec_trim,
    starts_with_str,
    trim_str,
};

verus! {

/// The command that probes the local control plane for a running cluster.
pub open spec fn spec_probe_command() -> CommandSpecView {
    CommandSpecView { program: "docker"@, args: seq!["swarm"@, "ca"@] }
}

/// Builds the control-plane status probe.
pub fn probe_command() -> (c: CommandSpec)
    ensures
        c@ == spec_probe_command(),
{
    let c = CommandSpec {
        program: String::from_str("docker"),
        args: vec![String::from_str("swarm"), String::from_str("ca")],
    };
    proof {
        assert(c@ =~~= spec_probe_command());
    }
    c
}

/// The command that initializes the local control plane, advertising the
/// given address.
pub open spec fn spec_init_command(advertise_address: Seq<char>) -> CommandSpecView {
    CommandSpecView {
        program: "docker"@,
        args: seq!["swarm"@, "init"@, "--advertise-addr"@, advertise_address],
    }
}

/// Builds the control-plane initialization command.
pub fn init_command(advertise_address: &str) -> (c: CommandSpec)
    ensures
        c@ == spec_init_command(advertise_address@),
{
    let c = CommandSpec {
        program: String::from_str("docker"),
        args: vec![
            String::from_str("swarm"),
            String::from_str("init"),
            String::from_str("--advertise-addr"),
            advertise_address.to_owned(),
        ],
    };
    proof {
        assert(c@ =~~= spec_init_command(advertise_address@));
    }
    c
}

/// The model of advertise-address selection: an explicitly given address
/// wins unchanged; otherwise the resolver script's output is trimmed, and
/// an empty result means no usable address was found — a fatal condition,
/// never an empty address.
pub open spec fn spec_choose_advertise_address(
    given: Option<Seq<char>>,
    resolver_output: Seq<char>,
) -> Option<Seq<char>> {
    match given {
        Some(address) => Some(address),
        None => {
            let trimmed = spec_trim(resolver_output);
            if trimmed.len() == 0 {
                None
            } else {
                Some(trimmed)
            }
        },
    }
}

/// Chooses the advertise address for control-plane initialization from the
/// explicitly given address and the resolver script's captured output.
pub fn choose_advertise_address(given: &Option<String>, resolver_output: &str) -> (r: Option<
    String,
>)
    ensures
        r.deep_view() == spec_choose_advertise_address(given.deep_view(), resolver_output@),
{
    match given {
        Some(address) => Some(address.clone()),
        None => {
            let trimmed = trim_str(resolver_output);
            if trimmed.as_str().is_empty() {
                None
            } else {
                Some(trimmed)
            }
        },
    }
}

/// The command that destroys the local control plane.
pub open spec fn spec_destroy_command() -> CommandSpecView {
    CommandSpecView { program: "docker"@, args: seq!["swarm"@, "leave"@, "--force"@] }
}

/// Builds the control-plane destruction command.
pub fn destroy_command() -> (c: CommandSpec)
    ensures
        c@ == spec_destroy_command(),
{
    let c = CommandSpec {
        program: String::from_str("docker"),
        args: vec![
            String::from_str("swarm"),
            String::from_str("leave"),
            String::from_str("--force"),
        ],
    };
    proof {
        assert(c@ =~~= spec_destroy_command());
    }
    c
}

/// The command that runs the helper script resolving a usable advertise
/// address.
pub open spec fn spec_ip_script_command(script_path: Seq<char>) -> CommandSpecView {
    CommandSpecView { program: "/bin/bash"@, args: seq![script_path] }
}

/// Builds the advertise-address resolution command.
pub fn ip_script_command(script_path: &str) -> (c: CommandSpec)
    ensures
        c@ == spec_ip_script_command(script_path@),
{
    let c = CommandSpec {
        program: String::from_str("/bin/bash"),
        args: vec![script_path.to_owned()],
    };
    proof {
        assert(c@ =~~= spec_ip_script_command(script_path@));
    }
    c
}

/// The absence signature: what the control plane's status probe writes to
/// its error stream when no cluster exists.
pub open spec fn spec_cluster_absent(probe_stderr: Seq<char>) -> bool {
    spec_contains_seq(probe_stderr, "Error response from daemon"@)
}

/// Classifies the control-plane status probe: "no cluster" only on the known
/// absence signature in the captured error output; anything else reports the
/// cluster as present, so an ambiguous state is never reinitialized.
pub fn cluster_present_from_probe(probe_stderr: &str) -> (present: bool)
    ensures
        present == !spec_cluster_absent(probe_stderr@),
{
    !contains_str(probe_stderr, "Error response from daemon")
}

/// The recognized prefix of a join command line in the control plane's
/// initialization output.
pub open spec fn spec_is_join_line(line: Seq<char>) -> bool {
    spec_starts_with(spec_trim(line), "docker swarm join"@)
}

/// The first recognizable join command among `lines`, trimmed, if any.
pub open spec fn spec_first_join_line(lines: Seq<Seq<char>>) -> Option<Seq<char>>
    decreases lines.len(),
{
    if lines.len() == 0 {
        None
    } else if spec_is_join_line(lines[0]) {
        Some(spec_trim(lines[0]))
    } else {
        spec_first_join_line(lines.drop_first())
    }
}

/// The model of join-token capture: the initialization output is scanned
/// line by line and the first line carrying the join-command prefix becomes
/// the token.
pub open spec fn spec_extract_join_command(output: Seq<char>) -> Option<Seq<char>> {
    spec_first_join_line(spec_lines(output))
}

/// The error raised when no line of the initialization output carries the
/// join-command prefix.
#[derive(Debug, Clone, Copy, PartialEq, Eq, Structural)]
pub enum JoinTokenError {
    NotFound,
}

impl JoinTokenError {
    /// A user-facing description of the error.
    pub fn message(&self) -> (m: String)
        ensures
            m@ == "The cluster initialization output holds no join command; aborting before any node operation"@,
    {
        String::from_str(
            "The cluster initialization output holds no join command; aborting before any node operation",
        )
    }
}

/// A scan that saw no join line before index `i` and one at `i` has found
/// the first one.
proof fn lemma_first_join_at(lines: Seq<Seq<char>>, i: int)
    requires
        0 <= i < lines.len(),
        spec_is_join_line(lines[i]),
        forall|j: int| 0 <= j < i ==> !spec_is_join_line(lines[j]),
    ensures
        spec_first_join_line(lines) == Some(spec_trim(lines[i])),
    decreases i,
{
    if i > 0 {
        let tail = lines.drop_first();
        assert(tail[i - 1] == lines[i]);
        assert(forall|j: int| 0 <= j < i - 1 ==> tail[j] == lines[j + 1]);
        lemma_first_join_at(tail, i - 1);
    }
}

/// With no join line anywhere there is nothing to find.
proof fn lemma_first_join_none(lines: Seq<Seq<char>>)
    requires
        forall|j: int| 0 <= j < lines.len() ==> !spec_is_join_line(lines[j]),
    ensures
        spec_first_join_line(lines) is None,
    decreases lines.len(),
{
    if lines.len() > 0 {
        let tail = lines.drop_first();
        assert(forall|j: int| 0 <= j < tail.len() ==> tail[j] == lines[j + 1]);
        lemma_first_join_none(tail);
    }
}

/// Captures the join command from the control plane's initialization
/// output: the first line carrying the recognized prefix, trimmed. An
/// output without such a line is a hard parse failure, never an empty
/// token.
pub fn extract_join_command(output: &str) -> (r: Result<String, JoinTokenError>)
    ensures
        match r {
            Ok(token) => spec_extract_join_command(output@) == Some(token@),
            Err(e) => spec_extract_join_command(output@) is None && e == JoinTokenError::NotFound,
        },
{
    let lines = lines_of(output);
    let ghost lv = lines.deep_view();
    let mut i: usize = 0;
    while i < lines.len()
        invariant
            0 <= i <= lines.len(),
            lines.deep_view() == lv,
            lv == spec_lines(output@),
            forall|j: int| 0 <= j < i ==> !spec_is_join_line(#[trigger] lv[j]),
        decreases lines.len() - i,
    {
        proof {
            assert(lv[i as int] == lines@[i as int]@);
        }
        let trimmed = trim_str(lines[i].as_str());
        if starts_with_str(trimmed.as_str(), "docker swarm join") {
            proof {
                lemma_first_join_at(lv, i as int);
            }
            return Ok(trimmed);
        }
        i = i + 1;
    }
    proof {
        lemma_first_join_none(lv);
    }
    Err(JoinTokenError::NotFound)
}

/// The lifecycle states.
#[derive(Debug, Clone, PartialEq, Eq)]
pub enum LifecycleState {
    /// No cluster runs; `start` may proceed.
    NoCluster,
    /// The local control plane is being initialized.
    Initializing,
    /// The cluster runs; the captured join token is write-once: it is set
    /// here and never changed while the cluster stays active.
    Active { join_token: String },
    /// `stop` is telling every node to leave.
    Draining,
}

/// The mathematical model of a `LifecycleState`.
#[verifier::ext_equal]
pub enum LifecycleStateView {
    NoCluster,
    Initializing,
    Active { join_token: Seq<char> },
    Draining,
}

impl View for LifecycleState {
    type V = LifecycleStateView;

    open spec fn view(&self) -> LifecycleStateView {
        match self {
            LifecycleState::NoCluster => LifecycleStateView::NoCluster,
            LifecycleState::Initializing => LifecycleStateView::Initializing,
            LifecycleState::Active { join_token } => LifecycleStateView::Active {
                join_token: join_token@,
            },
            LifecycleState::Draining => LifecycleStateView::Draining,
        }
    }
}

/// What happened since the last decision: the trigger of the next step.
#[derive(Debug, Clone, PartialEq, Eq)]
pub enum LifecycleEvent {
    /// The caller asked for the `start` workflow.
    StartRequested,
    /// The control-plane status probe finished and was classified.
    ProbeFinished { cluster_present: bool },
    /// The control-plane initialization finished with the given exit
    /// classification and captured standard output.
    InitFinished { exit_success: bool, output: String },
    /// Install, join, pull and deploy have all been driven.
    StartPhaseFinished,
    /// The caller asked for the `stop` workflow.
    StopRequested,
    /// Every node was told to leave.
    NodesLeft,
    /// The local control plane was destroyed.
    ControlPlaneDestroyed,
}

/// The mathematical model of a `LifecycleEvent`.
#[verifier::ext_equal]
pub enum LifecycleEventView {
    StartRequested,
    ProbeFinished { cluster_present: bool },
    InitFinished { exit_success: bool, output: Seq<char> },
    StartPhaseFinished,
    StopRequested,
    NodesLeft,
    ControlPlaneDestroyed,
}

impl View for LifecycleEvent {
    type V = LifecycleEventView;

    open spec fn view(&self) -> LifecycleEventView {
        match self {
            LifecycleEvent::StartRequested => LifecycleEventView::StartRequested,
            LifecycleEvent::ProbeFinished { cluster_present } => LifecycleEventView::ProbeFinished {
                cluster_present: *cluster_present,
            },
            LifecycleEvent::InitFinished { exit_success, output } => LifecycleEventView::InitFinished {
                exit_success: *exit_success,
                output: output@,
            },
            LifecycleEvent::StartPhaseFinished => LifecycleEventView::StartPhaseFinished,
            LifecycleEvent::StopRequested => LifecycleEventView::StopRequested,
            LifecycleEvent::NodesLeft => LifecycleEventView::NodesLeft,
            LifecycleEvent::ControlPlaneDestroyed => LifecycleEventView::ControlPlaneDestroyed,
        }
    }
}

/// What the binary must do next.
#[derive(Debug, Clone, PartialEq, Eq)]
pub enum LifecycleAction {
    /// Run the control-plane status probe.
    RunProbe,
    /// Run the control-plane initialization.
    RunInit,
    /// A cluster is already active: stop the whole workflow, touch nothing.
    AbortAlreadyActive,
    /// Initialization exited non-zero: stop before any node operation.
    AbortInitFailed,
    /// No join command in the initialization output: stop before any node
    /// operation.
    AbortJoinTokenMissing,
    /// Drive the start phase: install the runtime on every node, have every
    /// node run the join token, pull the configured images, deploy.
    RunStartPhase { join_token: String },
    /// Tell every node to leave the cluster.
    LeaveAllNodes,
    /// Destroy the local control plane.
    DestroyControlPlane,
    /// The workflow is complete.
    Finish,
    /// The event is not meaningful in this state; do nothing.
    Ignore,
}

/// The mathematical model of a `LifecycleAction`.
#[verifier::ext_equal]
pub enum LifecycleActionView {
    RunProbe,
    RunInit,
    AbortAlreadyActive,
    AbortInitFailed,
    AbortJoinTokenMissing,
    RunStartPhase { join_token: Seq<char> },
    LeaveAllNodes,
    DestroyControlPlane,
    Finish,
    Ignore,
}

impl View for LifecycleAction {
    type V = LifecycleActionView;

    open spec fn view(&self) -> LifecycleActionView {
        match self {
            LifecycleAction::RunProbe => LifecycleActionView::RunProbe,
            LifecycleAction::RunInit => LifecycleActionView::RunInit,
            LifecycleAction::AbortAlreadyActive => LifecycleActionView::AbortAlreadyActive,
            LifecycleAction::AbortInitFailed => LifecycleActionView::AbortInitFailed,
            LifecycleAction::AbortJoinTokenMissing => LifecycleActionView::AbortJoinTokenMissing,
            LifecycleAction::RunStartPhase { join_token } => LifecycleActionView::RunStartPhase {
                join_token: join_token@,
            },
            LifecycleAction::LeaveAllNodes => LifecycleActionView::LeaveAllNodes,
            LifecycleAction::DestroyControlPlane => LifecycleActionView::DestroyControlPlane,
            LifecycleAction::Finish => LifecycleActionView::Finish,
            LifecycleAction::Ignore => LifecycleActionView::Ignore,
        }
    }
}

/// The transition relation of the lifecycle, as a function: from the state
/// and the event to the next state and the action the binary must run.
pub open spec fn spec_lifecycle_step(state: LifecycleStateView, event: LifecycleEventView) -> (
    LifecycleStateView,
    LifecycleActionView,
) {
    match (state, event) {
        (LifecycleStateView::NoCluster, LifecycleEventView::StartRequested) => (
            LifecycleStateView::NoCluster,
            LifecycleActionView::RunProbe,
        ),
        (LifecycleStateView::NoCluster, LifecycleEventView::ProbeFinished { cluster_present }) => {
            if cluster_present {
                (LifecycleStateView::NoCluster, LifecycleActionView::AbortAlreadyActive)
            } else {
                (LifecycleStateView::Initializing, LifecycleActionView::RunInit)
            }
        },
        (
            LifecycleStateView::Initializing,
            LifecycleEventView::InitFinished { exit_success, output },
        ) => {
            if !exit_success {
                (LifecycleStateView::NoCluster, LifecycleActionView::AbortInitFailed)
            } else {
                match spec_extract_join_command(output) {
                    Some(token) => (
                        LifecycleStateView::Active { join_token: token },
                        LifecycleActionView::RunStartPhase { join_token: token },
                    ),
                    None => (
                        LifecycleStateView::NoCluster,
                        LifecycleActionView::AbortJoinTokenMissing,
                    ),
                }
            }
        },
        (LifecycleStateView::Active { join_token }, LifecycleEventView::StartPhaseFinished) => (
            LifecycleStateView::Active { join_token },
            LifecycleActionView::Finish,
        ),
        (LifecycleStateView::Active { join_token }, LifecycleEventView::StopRequested) => (
            LifecycleStateView::Draining,
            LifecycleActionView::LeaveAllNodes,
        ),
        (LifecycleStateView::Draining, LifecycleEventView::NodesLeft) => (
            LifecycleStateView::Draining,
            LifecycleActionView::DestroyControlPlane,
        ),
        (LifecycleStateView::Draining, LifecycleEventView::ControlPlaneDestroyed) => (
            LifecycleStateView::NoCluster,
            LifecycleActionView::Finish,
        ),
        (other_state, other_event) => (other_state, LifecycleActionView::Ignore),
    }
}

/// Takes one lifecycle step.
pub fn lifecycle_step(state: LifecycleState, event: LifecycleEvent) -> (r: (
    LifecycleState,
    LifecycleAction,
))
    ensures
        (r.0@, r.1@) == spec_lifecycle_step(state@, event@),
{
    match (state, event) {
        (LifecycleState::NoCluster, LifecycleEvent::StartRequested) => (
            LifecycleState::NoCluster,
            LifecycleAction::RunProbe,
        ),
        (LifecycleState::NoCluster, LifecycleEvent::ProbeFinished { cluster_present }) => {
            if cluster_present {
                (LifecycleState::NoCluster, LifecycleAction::AbortAlreadyActive)
            } else {
                (LifecycleState::Initializing, LifecycleAction::RunInit)
            }
        },
        (LifecycleState::Initializing, LifecycleEvent::InitFinished { exit_success, output }) => {
            if !exit_success {
                (LifecycleState::NoCluster, LifecycleAction::AbortInitFailed)
            } else {
                match extract_join_command(output.as_str()) {
                    Ok(token) => (
                        LifecycleState::Active { join_token: token.clone() },
                        LifecycleAction::RunStartPhase { join_token: token },
                    ),
                    Err(_) => (LifecycleState::NoCluster, LifecycleAction::AbortJoinTokenMissing),
                }
            }
        },
        (LifecycleState::Active { join_token }, LifecycleEvent::StartPhaseFinished) => (
            LifecycleState::Active { join_token },
            LifecycleAction::Finish,
        ),
        (LifecycleState::Active { join_token: _ }, LifecycleEvent::StopRequested) => (
            LifecycleState::Draining,
            LifecycleAction::LeaveAllNodes,
        ),
        (LifecycleState::Draining, LifecycleEvent::NodesLeft) => (
            LifecycleState::Draining,
            LifecycleAction::DestroyControlPlane,
        ),
        (LifecycleState::Draining, LifecycleEvent::ControlPlaneDestroyed) => (
            LifecycleState::NoCluster,
            LifecycleAction::Finish,
        ),
        (other_state, _) => (other_state, LifecycleAction::Ignore),
    }
}

/// The token an active cluster carries.
pub open spec fn spec_active_token(state: LifecycleStateView) -> Seq<char>
    recommends
        state is Active,
{
    match state {
        LifecycleStateView::Active { join_token } => join_token,
        _ => Seq::empty(),
    }
}

/// The join token is write-once: whatever event arrives, a step from an
/// active cluster either keeps the very same token or leaves the active
/// state; no step rewrites it.
pub proof fn lemma_join_token_write_once(state: LifecycleStateView, event: LifecycleEventView)
    requires
        state is Active,
    ensures
        spec_lifecycle_step(state, event).0 is Active ==> spec_active_token(
            spec_lifecycle_step(state, event).0,
        ) == spec_active_token(state),
{
}

} // verus!
