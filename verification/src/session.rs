//! Session orchestration: one call sequences validation,
//! authentication, privilege drop and environment setup, launch,
//! wait, and return, firing the caller's hooks at fixed points.
//!
//! The orchestrator is a strictly sequential state machine,
//! [`SessionFlow`]. The driver asks it which hook to fire or which
//! operation to perform next, performs it, and reports the outcome;
//! the machine decides every transition. Only authentication and
//! environment start can terminate a traversal early.

use vstd::prelude::*;

verus! {

/// Resolved identity, produced exclusively by successful
/// authentication: numeric user id, numeric group id, home directory
/// path, canonical username. It lives only inside a single
/// orchestration call.
#[derive(Debug, PartialEq, Eq, Clone)]
pub struct AuthUserInfo {
    pub uid: u32,
    pub gid: u32,
    pub home_dir: String,
    pub name: String,
}

/// A named, selectable post-login target with a launch payload.
#[derive(Debug, PartialEq, Eq, Clone)]
pub struct EnvironmentDescriptor {
    pub title: String,
    pub launch_payload: String,
    pub kind: EnvironmentKind,
}

/// Which branch the launcher takes for an environment.
#[derive(Clone, Copy, Debug, PartialEq, Eq, Structural)]
pub enum EnvironmentKind {
    /// Needs a display server bootstrapped before the launch.
    Graphical,
    /// A plain shell; no display server.
    Shell,
}

/// Immutable record consumed by one orchestration call.
#[derive(Debug, PartialEq, Eq, Clone)]
pub struct SessionConfig {
    pub do_log: bool,
    pub client_log_path: String,
    pub xserver_log_path: String,
    pub shell_login_flag: String,
    pub xserver_timeout_secs: u16,
    pub pam_service: String,
    pub tty: u8,
    pub x11_display: String,
}

/// The five fixed notification points of one orchestration call.
/// Hooks never receive error information.
#[derive(Clone, Copy, Debug, PartialEq, Eq, Structural)]
pub enum HookPoint {
    /// Before the structural validation of the input.
    PreValidate,
    /// After authentication succeeded, before the privilege drop.
    PreAuth,
    /// After privilege drop and environment setup, immediately before
    /// the environment process is spawned.
    PreEnvironment,
    /// Right after the spawn, before blocking on completion.
    PreWait,
    /// After the wait completed; the caller's only guaranteed
    /// synchronization point for restoring UI state.
    PreReturn,
}

/// How one orchestration call failed.
#[derive(Debug, PartialEq, Eq, Clone)]
pub enum SessionError {
    /// The authenticator rejected the credentials. No privilege
    /// change has occurred; the caller may retry with new ones.
    AuthenticationError(String),
    /// The environment could not be started although the credentials
    /// were valid.
    EnvironmentStartError(String),
}

/// Where one orchestration call stands. The phases are traversed in
/// declaration order; `Complete` is the only terminal phase.
#[derive(Clone, Copy, Debug, PartialEq, Eq, Structural)]
pub enum SessionPhase {
    /// About to fire `PreValidate`, then validate structurally.
    PreValidateHook,
    /// Waiting for the authenticator's verdict.
    Authenticating,
    /// About to fire `PreAuth`.
    PreAuthHook,
    /// Waiting for the privilege drop and environment setup.
    StartingEnvironment,
    /// About to fire `PreEnvironment`.
    PreEnvironmentHook,
    /// Waiting for the spawn of the environment process.
    Launching,
    /// About to fire `PreWait`.
    PreWaitHook,
    /// Blocking until the spawned process exits.
    Waiting,
    /// About to fire `PreReturn`.
    PreReturnHook,
    /// The traversal ended; the outcome is available.
    Complete,
}

/// The hook a phase is about to fire, if it is a hook phase.
pub open spec fn spec_pending_hook(phase: SessionPhase) -> Option<HookPoint> {
    match phase {
        SessionPhase::PreValidateHook => Some(HookPoint::PreValidate),
        SessionPhase::PreAuthHook => Some(HookPoint::PreAuth),
        SessionPhase::PreEnvironmentHook => Some(HookPoint::PreEnvironment),
        SessionPhase::PreWaitHook => Some(HookPoint::PreWait),
        SessionPhase::PreReturnHook => Some(HookPoint::PreReturn),
        _ => None,
    }
}

/// The phase that follows a hook phase once its hook has fired.
pub open spec fn spec_after_hook(phase: SessionPhase) -> SessionPhase {
    match phase {
        SessionPhase::PreValidateHook => SessionPhase::Authenticating,
        SessionPhase::PreAuthHook => SessionPhase::StartingEnvironment,
        SessionPhase::PreEnvironmentHook => SessionPhase::Launching,
        SessionPhase::PreWaitHook => SessionPhase::Waiting,
        SessionPhase::PreReturnHook => SessionPhase::Complete,
        _ => phase,
    }
}

/// One orchestration call, as a step-driven state machine. A single
/// call is a single traversal: the driver fires the pending hook or
/// performs the pending operation, reports what happened, and reads
/// the next phase. Once `phase` is `Complete`, `outcome` holds the
/// result of the call.
pub struct SessionFlow {
    pub phase: SessionPhase,
    /// The identity resolved by authentication, from `PreAuthHook` on.
    pub user: Option<AuthUserInfo>,
    /// The result of the call, exactly once `Complete` is reached.
    pub outcome: Option<Result<(), SessionError>>,
}

impl SessionFlow {
    /// The machine never leaves a phase without the data that phase
    /// promises: an outcome exactly when complete, and a resolved
    /// identity from successful authentication on (unless the call
    /// already failed before one existed).
    pub open spec fn wf(&self) -> bool {
        &&& (self.outcome is Some <==> self.phase == SessionPhase::Complete)
        &&& match self.phase {
            SessionPhase::PreValidateHook | SessionPhase::Authenticating => self.user is None,
            SessionPhase::Complete => true,
            _ => self.user is Some,
        }
    }

    /// Begin a traversal: the `PreValidate` hook is the first thing
    /// that fires.
    pub fn new() -> (r: Self)
        ensures
            r.phase == SessionPhase::PreValidateHook,
            r.user is None,
            r.outcome is None,
            r.wf(),
    {
        Self { phase: SessionPhase::PreValidateHook, user: None, outcome: None }
    }

    /// The hook the driver must fire next, if the machine is at a
    /// hook point.
    pub fn pending_hook(&self) -> (r: Option<HookPoint>)
        ensures
            r == spec_pending_hook(self.phase),
    {
        match self.phase {
            SessionPhase::PreValidateHook => Some(HookPoint::PreValidate),
            SessionPhase::PreAuthHook => Some(HookPoint::PreAuth),
            SessionPhase::PreEnvironmentHook => Some(HookPoint::PreEnvironment),
            SessionPhase::PreWaitHook => Some(HookPoint::PreWait),
            SessionPhase::PreReturnHook => Some(HookPoint::PreReturn),
            _ => None,
        }
    }

    /// The pending hook has fired (or was absent and skipped: absence
    /// of a hook is a valid no-op). Firing the last hook, `PreReturn`,
    /// completes the call successfully: hooks never fail.
    pub fn hook_fired(&mut self)
        requires
            old(self).wf(),
            spec_pending_hook(old(self).phase) is Some,
        ensures
            final(self).wf(),
            final(self).phase == spec_after_hook(old(self).phase),
            final(self).user == old(self).user,
            old(self).phase == SessionPhase::PreReturnHook ==> final(self).outcome == Some(
                Result::<(), SessionError>::Ok(()),
            ),
            old(self).phase != SessionPhase::PreReturnHook ==> final(self).outcome is None,
            *final(self) == spec_apply_event(*old(self), SessionEvent::HookFired),
    {
        match self.phase {
            SessionPhase::PreValidateHook => {
                self.phase = SessionPhase::Authenticating;
            },
            SessionPhase::PreAuthHook => {
                self.phase = SessionPhase::StartingEnvironment;
            },
            SessionPhase::PreEnvironmentHook => {
                self.phase = SessionPhase::Launching;
            },
            SessionPhase::PreWaitHook => {
                self.phase = SessionPhase::Waiting;
            },
            SessionPhase::PreReturnHook => {
                self.phase = SessionPhase::Complete;
                self.outcome = Some(Ok(()));
            },
            _ => {},
        }
    }

    /// The authenticator resolved the credentials to `user`. The
    /// `PreAuth` hook fires next; the privilege drop comes only after
    /// it.
    pub fn authentication_succeeded(&mut self, user: AuthUserInfo)
        requires
            old(self).wf(),
            old(self).phase == SessionPhase::Authenticating,
        ensures
            final(self).wf(),
            final(self).phase == SessionPhase::PreAuthHook,
            final(self).user == Some(user),
            final(self).outcome is None,
            *final(self) == spec_apply_event(*old(self), SessionEvent::AuthSucceeded(user)),
    {
        self.user = Some(user);
        self.phase = SessionPhase::PreAuthHook;
    }

    /// The authenticator rejected the credentials: the call ends at
    /// once with `AuthenticationError`. No privilege change has
    /// occurred and no further hook fires.
    pub fn authentication_failed(&mut self, message: String)
        requires
            old(self).wf(),
            old(self).phase == SessionPhase::Authenticating,
        ensures
            final(self).wf(),
            final(self).phase == SessionPhase::Complete,
            final(self).user == old(self).user,
            final(self).outcome == Some(
                Result::<(), SessionError>::Err(SessionError::AuthenticationError(message)),
            ),
            *final(self) == spec_apply_event(*old(self), SessionEvent::AuthFailed(message)),
    {
        self.phase = SessionPhase::Complete;
        self.outcome = Some(Err(SessionError::AuthenticationError(message)));
    }

    /// Privilege drop and environment setup succeeded. The
    /// `PreEnvironment` hook fires next, immediately before the
    /// spawn.
    pub fn environment_started(&mut self)
        requires
            old(self).wf(),
            old(self).phase == SessionPhase::StartingEnvironment,
        ensures
            final(self).wf(),
            final(self).phase == SessionPhase::PreEnvironmentHook,
            final(self).user == old(self).user,
            final(self).outcome is None,
            *final(self) == spec_apply_event(*old(self), SessionEvent::EnvStarted),
    {
        self.phase = SessionPhase::PreEnvironmentHook;
    }

    /// Privilege drop or environment setup failed: the call ends with
    /// `EnvironmentStartError`, which tells the caller explicitly
    /// that this is not an authentication failure.
    pub fn environment_start_failed(&mut self, message: String)
        requires
            old(self).wf(),
            old(self).phase == SessionPhase::StartingEnvironment,
        ensures
            final(self).wf(),
            final(self).phase == SessionPhase::Complete,
            final(self).user == old(self).user,
            final(self).outcome == Some(
                Result::<(), SessionError>::Err(SessionError::EnvironmentStartError(message)),
            ),
            *final(self) == spec_apply_event(*old(self), SessionEvent::EnvStartFailed(message)),
    {
        self.phase = SessionPhase::Complete;
        self.outcome = Some(Err(SessionError::EnvironmentStartError(message)));
    }

    /// The environment process was spawned under the dropped
    /// identity. The `PreWait` hook fires next, before blocking.
    pub fn launched(&mut self)
        requires
            old(self).wf(),
            old(self).phase == SessionPhase::Launching,
        ensures
            final(self).wf(),
            final(self).phase == SessionPhase::PreWaitHook,
            final(self).user == old(self).user,
            final(self).outcome is None,
            *final(self) == spec_apply_event(*old(self), SessionEvent::Launched),
    {
        self.phase = SessionPhase::PreWaitHook;
    }

    /// The spawn itself failed: the call ends with
    /// `EnvironmentStartError`.
    pub fn launch_failed(&mut self, message: String)
        requires
            old(self).wf(),
            old(self).phase == SessionPhase::Launching,
        ensures
            final(self).wf(),
            final(self).phase == SessionPhase::Complete,
            final(self).user == old(self).user,
            final(self).outcome == Some(
                Result::<(), SessionError>::Err(SessionError::EnvironmentStartError(message)),
            ),
            *final(self) == spec_apply_event(*old(self), SessionEvent::LaunchFailed(message)),
    {
        self.phase = SessionPhase::Complete;
        self.outcome = Some(Err(SessionError::EnvironmentStartError(message)));
    }

    /// The spawned process exited. Its exit status is not an error
    /// condition: a misbehaving session is still a successful start.
    /// The `PreReturn` hook fires next and completes the call.
    pub fn wait_completed(&mut self)
        requires
            old(self).wf(),
            old(self).phase == SessionPhase::Waiting,
        ensures
            final(self).wf(),
            final(self).phase == SessionPhase::PreReturnHook,
            final(self).user == old(self).user,
            final(self).outcome is None,
            *final(self) == spec_apply_event(*old(self), SessionEvent::WaitCompleted),
    {
        self.phase = SessionPhase::PreReturnHook;
    }
}

/// One transition report handed to [`SessionFlow`]: the machine's
/// methods correspond to these events one for one.
#[derive(Debug, PartialEq, Eq, Clone)]
pub enum SessionEvent {
    /// The pending hook fired.
    HookFired,
    AuthSucceeded(AuthUserInfo),
    AuthFailed(String),
    EnvStarted,
    EnvStartFailed(String),
    Launched,
    LaunchFailed(String),
    WaitCompleted,
}

/// The machine state every traversal begins in.
pub open spec fn spec_initial_flow() -> SessionFlow {
    SessionFlow { phase: SessionPhase::PreValidateHook, user: None, outcome: None }
}

/// Whether `event` may be reported in state `flow`: exactly the
/// preconditions of the corresponding machine method. No event is
/// enabled once the traversal is complete.
pub open spec fn spec_event_enabled(flow: SessionFlow, event: SessionEvent) -> bool {
    match event {
        SessionEvent::HookFired => spec_pending_hook(flow.phase) is Some,
        SessionEvent::AuthSucceeded(_) => flow.phase == SessionPhase::Authenticating,
        SessionEvent::AuthFailed(_) => flow.phase == SessionPhase::Authenticating,
        SessionEvent::EnvStarted => flow.phase == SessionPhase::StartingEnvironment,
        SessionEvent::EnvStartFailed(_) => flow.phase == SessionPhase::StartingEnvironment,
        SessionEvent::Launched => flow.phase == SessionPhase::Launching,
        SessionEvent::LaunchFailed(_) => flow.phase == SessionPhase::Launching,
        SessionEvent::WaitCompleted => flow.phase == SessionPhase::Waiting,
    }
}

/// The machine state after `event` is reported in state `flow`:
/// exactly the postconditions of the corresponding machine method.
pub open spec fn spec_apply_event(flow: SessionFlow, event: SessionEvent) -> SessionFlow {
    match event {
        SessionEvent::HookFired => SessionFlow {
            phase: spec_after_hook(flow.phase),
            user: flow.user,
            outcome: if flow.phase == SessionPhase::PreReturnHook {
                Some(Ok(()))
            } else {
                flow.outcome
            },
        },
        SessionEvent::AuthSucceeded(user) => SessionFlow {
            phase: SessionPhase::PreAuthHook,
            user: Some(user),
            outcome: flow.outcome,
        },
        SessionEvent::AuthFailed(message) => SessionFlow {
            phase: SessionPhase::Complete,
            user: flow.user,
            outcome: Some(Err(SessionError::AuthenticationError(message))),
        },
        SessionEvent::EnvStarted => SessionFlow { phase: SessionPhase::PreEnvironmentHook, ..flow },
        SessionEvent::EnvStartFailed(message) => SessionFlow {
            phase: SessionPhase::Complete,
            user: flow.user,
            outcome: Some(Err(SessionError::EnvironmentStartError(message))),
        },
        SessionEvent::Launched => SessionFlow { phase: SessionPhase::PreWaitHook, ..flow },
        SessionEvent::LaunchFailed(message) => SessionFlow {
            phase: SessionPhase::Complete,
            user: flow.user,
            outcome: Some(Err(SessionError::EnvironmentStartError(message))),
        },
        SessionEvent::WaitCompleted => SessionFlow { phase: SessionPhase::PreReturnHook, ..flow },
    }
}

/// The machine state reached from the initial one by `events`.
pub open spec fn spec_run(events: Seq<SessionEvent>) -> SessionFlow
    decreases events.len(),
{
    if events.len() == 0 {
        spec_initial_flow()
    } else {
        spec_apply_event(spec_run(events.drop_last()), events.last())
    }
}

/// Whether every event of `events` was enabled when it was reported.
pub open spec fn spec_valid_run(events: Seq<SessionEvent>) -> bool
    decreases events.len(),
{
    events.len() == 0 || (spec_valid_run(events.drop_last()) && spec_event_enabled(
        spec_run(events.drop_last()),
        events.last(),
    ))
}

/// The hooks fired during `events`, in order.
pub open spec fn spec_hooks_fired(events: Seq<SessionEvent>) -> Seq<HookPoint>
    decreases events.len(),
{
    if events.len() == 0 {
        Seq::empty()
    } else {
        let earlier = spec_hooks_fired(events.drop_last());
        let before = spec_run(events.drop_last());
        if events.last() is HookFired && spec_pending_hook(before.phase) is Some {
            earlier.push(spec_pending_hook(before.phase).unwrap())
        } else {
            earlier
        }
    }
}

/// The fixed hook sequence of one orchestration call.
pub open spec fn spec_hook_order() -> Seq<HookPoint> {
    seq![
        HookPoint::PreValidate,
        HookPoint::PreAuth,
        HookPoint::PreEnvironment,
        HookPoint::PreWait,
        HookPoint::PreReturn,
    ]
}

/// How many hooks have fired by the time the machine stands in
/// `phase`, for every phase a traversal passes through before
/// completion.
pub open spec fn spec_hooks_before(phase: SessionPhase) -> nat {
    match phase {
        SessionPhase::PreValidateHook => 0,
        SessionPhase::Authenticating => 1,
        SessionPhase::PreAuthHook => 1,
        SessionPhase::StartingEnvironment => 2,
        SessionPhase::PreEnvironmentHook => 2,
        SessionPhase::Launching => 3,
        SessionPhase::PreWaitHook => 3,
        SessionPhase::Waiting => 4,
        SessionPhase::PreReturnHook => 4,
        SessionPhase::Complete => 5,
    }
}

/// In every run of the machine, however the reports are timed, the
/// hooks fire in the fixed order `PreValidate`, `PreAuth`,
/// `PreEnvironment`, `PreWait`, `PreReturn`, with never a hook
/// skipped before a later one: what has fired is always a prefix of
/// that sequence, and outside the terminal phase it is exactly the
/// prefix the phase calls for.
pub proof fn lemma_hooks_fire_in_fixed_order(events: Seq<SessionEvent>)
    requires
        spec_valid_run(events),
    ensures
        spec_run(events).phase != SessionPhase::Complete ==> spec_hooks_fired(events)
            =~= spec_hook_order().take(spec_hooks_before(spec_run(events).phase) as int),
        spec_hooks_fired(events).is_prefix_of(spec_hook_order()),
    decreases events.len(),
{
    if events.len() == 0 {
        assert(spec_hooks_fired(events) =~= spec_hook_order().take(0));
        assert(spec_hooks_fired(events).is_prefix_of(spec_hook_order()));
    } else {
        let earlier = events.drop_last();
        lemma_hooks_fire_in_fixed_order(earlier);
        let before = spec_run(earlier);
        let after = spec_run(events);
        if events.last() is HookFired && spec_pending_hook(before.phase) is Some {
            assert(before.phase != SessionPhase::Complete);
            let k = spec_hooks_before(before.phase) as int;
            assert(spec_hooks_fired(earlier) =~= spec_hook_order().take(k));
            assert(spec_pending_hook(before.phase).unwrap() == spec_hook_order()[k]);
            assert(spec_hooks_fired(events) =~= spec_hook_order().take(k + 1));
            if after.phase != SessionPhase::Complete {
                assert(spec_hooks_fired(events) =~= spec_hook_order().take(
                    spec_hooks_before(after.phase) as int,
                ));
            }
            assert(spec_hooks_fired(events).is_prefix_of(spec_hook_order()));
        } else {
            assert(spec_hooks_fired(events) =~= spec_hooks_fired(earlier));
            assert(before.phase != SessionPhase::Complete);
            if after.phase != SessionPhase::Complete {
                assert(spec_hooks_before(after.phase) == spec_hooks_before(before.phase));
            }
        }
    }
}

/// One observable step of an orchestration call: a hook firing, or
/// one of the four delegated operations.
#[derive(Clone, Copy, Debug, PartialEq, Eq, Structural)]
pub enum SessionStep {
    Hook(HookPoint),
    /// The external authenticator is consulted.
    Authenticate,
    /// The privileged process launcher drops privileges and sets the
    /// environment up.
    StartEnvironment,
    /// The environment process is spawned.
    Launch,
    /// The call blocks until the spawned process exits.
    Wait,
}

/// The steps of one orchestration call, in order, given the outcome
/// of each delegated operation: a fixed sequence with exactly two
/// early exits, after a rejected authentication and after a failed
/// environment start or launch.
pub open spec fn spec_session_steps(
    auth: Result<AuthUserInfo, String>,
    env_start: Result<(), String>,
    launch: Result<(), String>,
) -> Seq<SessionStep> {
    let to_auth = seq![SessionStep::Hook(HookPoint::PreValidate), SessionStep::Authenticate];
    if auth is Err {
        to_auth
    } else {
        let to_env = to_auth + seq![
            SessionStep::Hook(HookPoint::PreAuth),
            SessionStep::StartEnvironment,
        ];
        if env_start is Err {
            to_env
        } else {
            let to_launch = to_env + seq![
                SessionStep::Hook(HookPoint::PreEnvironment),
                SessionStep::Launch,
            ];
            if launch is Err {
                to_launch
            } else {
                to_launch + seq![
                    SessionStep::Hook(HookPoint::PreWait),
                    SessionStep::Wait,
                    SessionStep::Hook(HookPoint::PreReturn),
                ]
            }
        }
    }
}

/// The result of one orchestration call, given the outcome of each
/// delegated operation.
pub open spec fn spec_session_result(
    auth: Result<AuthUserInfo, String>,
    env_start: Result<(), String>,
    launch: Result<(), String>,
) -> Result<(), SessionError> {
    match auth {
        Err(message) => Err(SessionError::AuthenticationError(message)),
        Ok(_) => match env_start {
            Err(message) => Err(SessionError::EnvironmentStartError(message)),
            Ok(_) => match launch {
                Err(message) => Err(SessionError::EnvironmentStartError(message)),
                Ok(_) => Ok(()),
            },
        },
    }
}

/// Run one full traversal of [`SessionFlow`] with the given outcomes
/// for the three delegated operations, recording every step. The
/// steps and the result are exactly those of `spec_session_steps`
/// and `spec_session_result`: the machine admits no other traversal.
///
/// A driver that consults real capabilities drives [`SessionFlow`]
/// directly, obtaining each outcome only when the machine asks for
/// the operation; a test hands this function stand-in outcomes and
/// checks the recorded order.
pub fn session_trace(
    auth: Result<AuthUserInfo, String>,
    env_start: Result<(), String>,
    launch: Result<(), String>,
) -> (r: (Vec<SessionStep>, Result<(), SessionError>))
    ensures
        r.0@ == spec_session_steps(auth, env_start, launch),
        r.1 == spec_session_result(auth, env_start, launch),
{
    let ghost g_auth = auth;
    let ghost g_env = env_start;
    let ghost g_launch = launch;
    let mut steps: Vec<SessionStep> = Vec::new();
    let mut flow = SessionFlow::new();

    steps.push(SessionStep::Hook(HookPoint::PreValidate));
    flow.hook_fired();

    steps.push(SessionStep::Authenticate);
    match auth {
        Err(message) => {
            flow.authentication_failed(message);
            proof {
                assert(steps@ =~= spec_session_steps(g_auth, g_env, g_launch));
            }
            return (steps, flow.outcome.unwrap());
        },
        Ok(user) => {
            flow.authentication_succeeded(user);
        },
    }

    steps.push(SessionStep::Hook(HookPoint::PreAuth));
    flow.hook_fired();

    steps.push(SessionStep::StartEnvironment);
    match env_start {
        Err(message) => {
            flow.environment_start_failed(message);
            proof {
                assert(steps@ =~= spec_session_steps(g_auth, g_env, g_launch));
            }
            return (steps, flow.outcome.unwrap());
        },
        Ok(()) => {
            flow.environment_started();
        },
    }

    steps.push(SessionStep::Hook(HookPoint::PreEnvironment));
    flow.hook_fired();

    steps.push(SessionStep::Launch);
    match launch {
        Err(message) => {
            flow.launch_failed(message);
            proof {
                assert(steps@ =~= spec_session_steps(g_auth, g_env, g_launch));
            }
            return (steps, flow.outcome.unwrap());
        },
        Ok(()) => {
            flow.launched();
        },
    }

    steps.push(SessionStep::Hook(HookPoint::PreWait));
    flow.hook_fired();

    steps.push(SessionStep::Wait);
    flow.wait_completed();

    steps.push(SessionStep::Hook(HookPoint::PreReturn));
    flow.hook_fired();

    proof {
        assert(steps@ =~= spec_session_steps(g_auth, g_env, g_launch));
    }
    (steps, flow.outcome.unwrap())
}

/// With a failing authenticator, an orchestration call fires no hook
/// beyond `PreValidate`, never consults the privileged process
/// launcher, never spawns or waits, and returns the authenticator's
/// message as `AuthenticationError`.
pub proof fn lemma_auth_failure_short_circuits(
    message: String,
    env_start: Result<(), String>,
    launch: Result<(), String>,
)
    ensures
        spec_session_steps(Err(message), env_start, launch) =~= seq![
            SessionStep::Hook(HookPoint::PreValidate),
            SessionStep::Authenticate,
        ],
        spec_session_result(Err(message), env_start, launch) == Result::<(), SessionError>::Err(
            SessionError::AuthenticationError(message),
        ),
{
}

/// With a successful authenticator but a failing privilege drop, an
/// orchestration call fires `PreAuth` but neither `PreWait` nor
/// `PreReturn`, and returns `EnvironmentStartError`.
pub proof fn lemma_env_start_failure_short_circuits(
    user: AuthUserInfo,
    message: String,
    launch: Result<(), String>,
)
    ensures
        spec_session_steps(Ok(user), Err(message), launch) =~= seq![
            SessionStep::Hook(HookPoint::PreValidate),
            SessionStep::Authenticate,
            SessionStep::Hook(HookPoint::PreAuth),
            SessionStep::StartEnvironment,
        ],
        spec_session_result(Ok(user), Err(message), launch) == Result::<(), SessionError>::Err(
            SessionError::EnvironmentStartError(message),
        ),
{
}

/// On the happy path every delegated operation succeeds, the hooks
/// fire in exactly the order `PreValidate`, `PreAuth`,
/// `PreEnvironment`, `PreWait`, `PreReturn`, and the call returns
/// success.
pub proof fn lemma_happy_path_hook_order(user: AuthUserInfo)
    ensures
        spec_session_steps(Ok(user), Ok(()), Ok(())) =~= seq![
            SessionStep::Hook(HookPoint::PreValidate),
            SessionStep::Authenticate,
            SessionStep::Hook(HookPoint::PreAuth),
            SessionStep::StartEnvironment,
            SessionStep::Hook(HookPoint::PreEnvironment),
            SessionStep::Launch,
            SessionStep::Hook(HookPoint::PreWait),
            SessionStep::Wait,
            SessionStep::Hook(HookPoint::PreReturn),
        ],
        spec_session_result(Ok(user), Ok(()), Ok(())) == Result::<(), SessionError>::Ok(()),
{
}

} // verus!
