//! Privileged process launcher: the display-server bootstrap and the
//! irreversible identity drop followed by the environment spawn.
//!
//! Both responsibilities are step-driven machines: the machine names
//! the next transition, the driver performs the OS call and reports
//! whether it succeeded, and the machine decides what follows. The
//! identity transitions are issued in mandatory order — supplementary
//! groups first, then the group id, then the user id — and a failure
//! at any step short-circuits every later one.

use vstd::prelude::*;

use crate::session::AuthUserInfo;
use crate::session::EnvironmentDescriptor;
use crate::session::EnvironmentKind;
use crate::session::SessionConfig;

verus! {

/// How the display-server bootstrap failed.
#[derive(Clone, Copy, Debug, PartialEq, Eq, Structural)]
pub enum XSetupError {
    /// The authority file could not be created.
    XAuthFileCreation,
    /// The token could not be registered in the authority file.
    XAuthFilling,
    /// The display server process could not be spawned.
    XServerStart,
}

/// How the identity drop or the environment spawn failed. Each
/// transition reports its own variant, so the caller can log
/// precisely which one failed.
#[derive(Clone, Copy, Debug, PartialEq, Eq, Structural)]
pub enum XStartEnvError {
    /// The username holds characters the identity system refuses.
    UsernameConversion,
    /// Initializing supplementary group membership failed.
    SettingGroups,
    /// Setting the process user identity failed.
    SettingUid,
    /// Setting the process group identity failed.
    SettingGid,
    /// The environment process could not be spawned.
    StartingEnvironment,
}

impl XSetupError {
    /// A fixed description of the failure, for logs and for the
    /// orchestrator's error message.
    pub fn message(&self) -> (r: &'static str)
        ensures
            r@ == self.spec_message(),
    {
        match self {
            XSetupError::XAuthFileCreation => "failed to create the authority file",
            XSetupError::XAuthFilling => "failed to fill the authority file",
            XSetupError::XServerStart => "failed to start the display server",
        }
    }

    pub open spec fn spec_message(&self) -> Seq<char> {
        match self {
            XSetupError::XAuthFileCreation => "failed to create the authority file"@,
            XSetupError::XAuthFilling => "failed to fill the authority file"@,
            XSetupError::XServerStart => "failed to start the display server"@,
        }
    }
}

impl XStartEnvError {
    /// A fixed description of the failure, for logs and for the
    /// orchestrator's error message.
    pub fn message(&self) -> (r: &'static str)
        ensures
            r@ == self.spec_message(),
    {
        match self {
            XStartEnvError::UsernameConversion => "failed to convert the username",
            XStartEnvError::SettingGroups => "failed to set supplementary groups",
            XStartEnvError::SettingUid => "failed to set the user id",
            XStartEnvError::SettingGid => "failed to set the group id",
            XStartEnvError::StartingEnvironment => "failed to start the environment",
        }
    }

    pub open spec fn spec_message(&self) -> Seq<char> {
        match self {
            XStartEnvError::UsernameConversion => "failed to convert the username"@,
            XStartEnvError::SettingGroups => "failed to set supplementary groups"@,
            XStartEnvError::SettingUid => "failed to set the user id"@,
            XStartEnvError::SettingGid => "failed to set the group id"@,
            XStartEnvError::StartingEnvironment => "failed to start the environment"@,
        }
    }
}

/// One transition of the identity-drop-and-exec call, in the order
/// they are issued.
#[derive(Clone, Copy, Debug, PartialEq, Eq, Structural)]
pub enum EnvStartStep {
    /// Convert the canonical username for the identity system.
    ConvertUsername,
    /// Initialize supplementary group membership for the target user.
    InitGroups,
    /// Set the process group identity.
    SetGid,
    /// Set the process user identity. Must come last: changing the
    /// user identity first would remove the permission needed to
    /// change the group identity.
    SetUid,
    /// Spawn the environment process under the new identity.
    SpawnEnvironment,
}

/// Where the identity-drop-and-exec call stands.
#[derive(Clone, Copy, Debug, PartialEq, Eq, Structural)]
pub enum EnvStartPhase {
    NeedUsernameConversion,
    NeedInitGroups,
    NeedSetGid,
    NeedSetUid,
    NeedSpawn,
    /// The environment runs under the dropped identity.
    Started,
    /// A transition failed; no later one was attempted.
    Failed,
}

/// The transition a phase asks for, if any.
pub open spec fn spec_env_pending(phase: EnvStartPhase) -> Option<EnvStartStep> {
    match phase {
        EnvStartPhase::NeedUsernameConversion => Some(EnvStartStep::ConvertUsername),
        EnvStartPhase::NeedInitGroups => Some(EnvStartStep::InitGroups),
        EnvStartPhase::NeedSetGid => Some(EnvStartStep::SetGid),
        EnvStartPhase::NeedSetUid => Some(EnvStartStep::SetUid),
        EnvStartPhase::NeedSpawn => Some(EnvStartStep::SpawnEnvironment),
        _ => None,
    }
}

/// The phase that follows a successful transition.
pub open spec fn spec_env_after_success(phase: EnvStartPhase) -> EnvStartPhase {
    match phase {
        EnvStartPhase::NeedUsernameConversion => EnvStartPhase::NeedInitGroups,
        EnvStartPhase::NeedInitGroups => EnvStartPhase::NeedSetGid,
        EnvStartPhase::NeedSetGid => EnvStartPhase::NeedSetUid,
        EnvStartPhase::NeedSetUid => EnvStartPhase::NeedSpawn,
        EnvStartPhase::NeedSpawn => EnvStartPhase::Started,
        _ => phase,
    }
}

/// The error a failing transition reports.
pub open spec fn spec_env_failure(phase: EnvStartPhase) -> XStartEnvError {
    match phase {
        EnvStartPhase::NeedUsernameConversion => XStartEnvError::UsernameConversion,
        EnvStartPhase::NeedInitGroups => XStartEnvError::SettingGroups,
        EnvStartPhase::NeedSetGid => XStartEnvError::SettingGid,
        EnvStartPhase::NeedSetUid => XStartEnvError::SettingUid,
        _ => XStartEnvError::StartingEnvironment,
    }
}

/// The identity-drop-and-exec call as a step-driven machine. The
/// only representable courses are the transitions in mandatory
/// order, success after all of them, and failure that stops the
/// sequence where it happened.
pub struct EnvStartFlow {
    pub phase: EnvStartPhase,
    /// The reported error, exactly once a transition failed.
    pub error: Option<XStartEnvError>,
}

impl EnvStartFlow {
    pub open spec fn wf(&self) -> bool {
        self.error is Some <==> self.phase == EnvStartPhase::Failed
    }

    pub fn new() -> (r: Self)
        ensures
            r.phase == EnvStartPhase::NeedUsernameConversion,
            r.error is None,
            r.wf(),
    {
        Self { phase: EnvStartPhase::NeedUsernameConversion, error: None }
    }

    /// The transition the driver must perform next, if the call is
    /// still under way.
    pub fn pending_step(&self) -> (r: Option<EnvStartStep>)
        ensures
            r == spec_env_pending(self.phase),
    {
        match self.phase {
            EnvStartPhase::NeedUsernameConversion => Some(EnvStartStep::ConvertUsername),
            EnvStartPhase::NeedInitGroups => Some(EnvStartStep::InitGroups),
            EnvStartPhase::NeedSetGid => Some(EnvStartStep::SetGid),
            EnvStartPhase::NeedSetUid => Some(EnvStartStep::SetUid),
            EnvStartPhase::NeedSpawn => Some(EnvStartStep::SpawnEnvironment),
            _ => None,
        }
    }

    /// The pending transition succeeded.
    pub fn step_succeeded(&mut self)
        requires
            old(self).wf(),
            spec_env_pending(old(self).phase) is Some,
        ensures
            final(self).wf(),
            final(self).phase == spec_env_after_success(old(self).phase),
            final(self).error is None,
    {
        self.phase = match self.phase {
            EnvStartPhase::NeedUsernameConversion => EnvStartPhase::NeedInitGroups,
            EnvStartPhase::NeedInitGroups => EnvStartPhase::NeedSetGid,
            EnvStartPhase::NeedSetGid => EnvStartPhase::NeedSetUid,
            EnvStartPhase::NeedSetUid => EnvStartPhase::NeedSpawn,
            EnvStartPhase::NeedSpawn => EnvStartPhase::Started,
            p => p,
        };
    }

    /// The pending transition failed: the call is fatal here and no
    /// later transition is attempted.
    pub fn step_failed(&mut self)
        requires
            old(self).wf(),
            spec_env_pending(old(self).phase) is Some,
        ensures
            final(self).wf(),
            final(self).phase == EnvStartPhase::Failed,
            final(self).error == Some(spec_env_failure(old(self).phase)),
    {
        self.error = Some(
            match self.phase {
                EnvStartPhase::NeedUsernameConversion => XStartEnvError::UsernameConversion,
                EnvStartPhase::NeedInitGroups => XStartEnvError::SettingGroups,
                EnvStartPhase::NeedSetGid => XStartEnvError::SettingGid,
                EnvStartPhase::NeedSetUid => XStartEnvError::SettingUid,
                _ => XStartEnvError::StartingEnvironment,
            },
        );
        self.phase = EnvStartPhase::Failed;
    }
}

/// The transitions an identity-drop-and-exec call attempts, in
/// order, given which OS calls would succeed.
pub open spec fn spec_env_start_steps(
    convert_ok: bool,
    init_groups_ok: bool,
    set_gid_ok: bool,
    set_uid_ok: bool,
    spawn_ok: bool,
) -> Seq<EnvStartStep> {
    let s = seq![EnvStartStep::ConvertUsername];
    if !convert_ok {
        s
    } else {
        let s = s + seq![EnvStartStep::InitGroups];
        if !init_groups_ok {
            s
        } else {
            let s = s + seq![EnvStartStep::SetGid];
            if !set_gid_ok {
                s
            } else {
                let s = s + seq![EnvStartStep::SetUid];
                if !set_uid_ok {
                    s
                } else {
                    s + seq![EnvStartStep::SpawnEnvironment]
                }
            }
        }
    }
}

/// The result of an identity-drop-and-exec call, given which OS
/// calls would succeed.
pub open spec fn spec_env_start_result(
    convert_ok: bool,
    init_groups_ok: bool,
    set_gid_ok: bool,
    set_uid_ok: bool,
    spawn_ok: bool,
) -> Result<(), XStartEnvError> {
    if !convert_ok {
        Err(XStartEnvError::UsernameConversion)
    } else if !init_groups_ok {
        Err(XStartEnvError::SettingGroups)
    } else if !set_gid_ok {
        Err(XStartEnvError::SettingGid)
    } else if !set_uid_ok {
        Err(XStartEnvError::SettingUid)
    } else if !spawn_ok {
        Err(XStartEnvError::StartingEnvironment)
    } else {
        Ok(())
    }
}

/// Run one identity-drop-and-exec call of [`EnvStartFlow`] with the
/// given outcome for each transition, recording every transition
/// attempted. The machine admits no other course: a test hands this
/// function instrumented stand-in outcomes and checks the order and
/// the short-circuit.
pub fn env_start_trace(
    convert_ok: bool,
    init_groups_ok: bool,
    set_gid_ok: bool,
    set_uid_ok: bool,
    spawn_ok: bool,
) -> (r: (Vec<EnvStartStep>, Result<(), XStartEnvError>))
    ensures
        r.0@ == spec_env_start_steps(convert_ok, init_groups_ok, set_gid_ok, set_uid_ok, spawn_ok),
        r.1 == spec_env_start_result(convert_ok, init_groups_ok, set_gid_ok, set_uid_ok, spawn_ok),
{
    let ghost g = (convert_ok, init_groups_ok, set_gid_ok, set_uid_ok, spawn_ok);
    let mut steps: Vec<EnvStartStep> = Vec::new();
    let mut flow = EnvStartFlow::new();

    steps.push(EnvStartStep::ConvertUsername);
    if !convert_ok {
        flow.step_failed();
        proof {
            assert(steps@ =~= spec_env_start_steps(g.0, g.1, g.2, g.3, g.4));
        }
        return (steps, Err(XStartEnvError::UsernameConversion));
    }
    flow.step_succeeded();

    steps.push(EnvStartStep::InitGroups);
    if !init_groups_ok {
        flow.step_failed();
        proof {
            assert(steps@ =~= spec_env_start_steps(g.0, g.1, g.2, g.3, g.4));
        }
        return (steps, Err(XStartEnvError::SettingGroups));
    }
    flow.step_succeeded();

    steps.push(EnvStartStep::SetGid);
    if !set_gid_ok {
        flow.step_failed();
        proof {
            assert(steps@ =~= spec_env_start_steps(g.0, g.1, g.2, g.3, g.4));
        }
        return (steps, Err(XStartEnvError::SettingGid));
    }
    flow.step_succeeded();

    steps.push(EnvStartStep::SetUid);
    if !set_uid_ok {
        flow.step_failed();
        proof {
            assert(steps@ =~= spec_env_start_steps(g.0, g.1, g.2, g.3, g.4));
        }
        return (steps, Err(XStartEnvError::SettingUid));
    }
    flow.step_succeeded();

    steps.push(EnvStartStep::SpawnEnvironment);
    if !spawn_ok {
        flow.step_failed();
        proof {
            assert(steps@ =~= spec_env_start_steps(g.0, g.1, g.2, g.3, g.4));
        }
        return (steps, Err(XStartEnvError::StartingEnvironment));
    }
    flow.step_succeeded();

    proof {
        assert(steps@ =~= spec_env_start_steps(g.0, g.1, g.2, g.3, g.4));
    }
    (steps, Ok(()))
}

/// The identity transitions are invoked as group-initialization,
/// then group-set, then user-set, in that order, after the username
/// conversion and before the spawn; a failure at any transition
/// short-circuits every later one and reports that transition's own
/// error.
pub proof fn lemma_drop_order_and_short_circuit(
    convert_ok: bool,
    init_groups_ok: bool,
    set_gid_ok: bool,
    set_uid_ok: bool,
    spawn_ok: bool,
)
    ensures
        spec_env_start_steps(convert_ok, init_groups_ok, set_gid_ok, set_uid_ok, spawn_ok)
            .is_prefix_of(seq![
            EnvStartStep::ConvertUsername,
            EnvStartStep::InitGroups,
            EnvStartStep::SetGid,
            EnvStartStep::SetUid,
            EnvStartStep::SpawnEnvironment,
        ]),
        !convert_ok ==> spec_env_start_steps(convert_ok, init_groups_ok, set_gid_ok, set_uid_ok, spawn_ok)
            =~= seq![EnvStartStep::ConvertUsername] && spec_env_start_result(
            convert_ok,
            init_groups_ok,
            set_gid_ok,
            set_uid_ok,
            spawn_ok,
        ) == Result::<(), XStartEnvError>::Err(XStartEnvError::UsernameConversion),
        convert_ok && !init_groups_ok ==> spec_env_start_steps(
            convert_ok,
            init_groups_ok,
            set_gid_ok,
            set_uid_ok,
            spawn_ok,
        ) =~= seq![EnvStartStep::ConvertUsername, EnvStartStep::InitGroups]
            && spec_env_start_result(convert_ok, init_groups_ok, set_gid_ok, set_uid_ok, spawn_ok)
            == Result::<(), XStartEnvError>::Err(XStartEnvError::SettingGroups),
        convert_ok && init_groups_ok && !set_gid_ok ==> spec_env_start_steps(
            convert_ok,
            init_groups_ok,
            set_gid_ok,
            set_uid_ok,
            spawn_ok,
        ) =~= seq![
            EnvStartStep::ConvertUsername,
            EnvStartStep::InitGroups,
            EnvStartStep::SetGid,
        ] && spec_env_start_result(convert_ok, init_groups_ok, set_gid_ok, set_uid_ok, spawn_ok)
            == Result::<(), XStartEnvError>::Err(XStartEnvError::SettingGid),
        convert_ok && init_groups_ok && set_gid_ok && !set_uid_ok ==> spec_env_start_steps(
            convert_ok,
            init_groups_ok,
            set_gid_ok,
            set_uid_ok,
            spawn_ok,
        ) =~= seq![
            EnvStartStep::ConvertUsername,
            EnvStartStep::InitGroups,
            EnvStartStep::SetGid,
            EnvStartStep::SetUid,
        ] && spec_env_start_result(convert_ok, init_groups_ok, set_gid_ok, set_uid_ok, spawn_ok)
            == Result::<(), XStartEnvError>::Err(XStartEnvError::SettingUid),
        convert_ok && init_groups_ok && set_gid_ok && set_uid_ok && spawn_ok
            ==> spec_env_start_result(convert_ok, init_groups_ok, set_gid_ok, set_uid_ok, spawn_ok)
            == Result::<(), XStartEnvError>::Ok(()),
{
    let full = seq![
        EnvStartStep::ConvertUsername,
        EnvStartStep::InitGroups,
        EnvStartStep::SetGid,
        EnvStartStep::SetUid,
        EnvStartStep::SpawnEnvironment,
    ];
    let steps = spec_env_start_steps(convert_ok, init_groups_ok, set_gid_ok, set_uid_ok, spawn_ok);
    assert(steps =~= full.take(steps.len() as int));
    assert(steps.is_prefix_of(full));
}

/// One step of the display-server bootstrap, in the order they are
/// performed.
#[derive(Clone, Copy, Debug, PartialEq, Eq, Structural)]
pub enum XSetupStep {
    /// Create the authority file in the target user's configuration
    /// directory.
    CreateAuthorityFile,
    /// Register the generated token against the display identifier
    /// via the external authorization tool.
    RegisterToken,
    /// Spawn the display server bound to the display and a fixed
    /// virtual terminal.
    SpawnDisplayServer,
    /// Wait a fixed delay for the server to initialize. This is an
    /// un-synchronized assumption, not a readiness check, and it
    /// cannot fail.
    WaitStartupDelay,
}

/// Where the display-server bootstrap stands.
#[derive(Clone, Copy, Debug, PartialEq, Eq, Structural)]
pub enum XSetupPhase {
    NeedAuthorityFile,
    NeedTokenRegistration,
    NeedServerSpawn,
    NeedStartupDelay,
    /// The fixed delay has passed; the bootstrap is done.
    Ready,
    /// A step failed; no later one was attempted.
    Failed,
}

/// The step a phase asks for, if any.
pub open spec fn spec_xsetup_pending(phase: XSetupPhase) -> Option<XSetupStep> {
    match phase {
        XSetupPhase::NeedAuthorityFile => Some(XSetupStep::CreateAuthorityFile),
        XSetupPhase::NeedTokenRegistration => Some(XSetupStep::RegisterToken),
        XSetupPhase::NeedServerSpawn => Some(XSetupStep::SpawnDisplayServer),
        XSetupPhase::NeedStartupDelay => Some(XSetupStep::WaitStartupDelay),
        _ => None,
    }
}

/// The phase that follows a successful step.
pub open spec fn spec_xsetup_after_success(phase: XSetupPhase) -> XSetupPhase {
    match phase {
        XSetupPhase::NeedAuthorityFile => XSetupPhase::NeedTokenRegistration,
        XSetupPhase::NeedTokenRegistration => XSetupPhase::NeedServerSpawn,
        XSetupPhase::NeedServerSpawn => XSetupPhase::NeedStartupDelay,
        XSetupPhase::NeedStartupDelay => XSetupPhase::Ready,
        _ => phase,
    }
}

/// The error a failing step reports.
pub open spec fn spec_xsetup_failure(phase: XSetupPhase) -> XSetupError {
    match phase {
        XSetupPhase::NeedAuthorityFile => XSetupError::XAuthFileCreation,
        XSetupPhase::NeedTokenRegistration => XSetupError::XAuthFilling,
        _ => XSetupError::XServerStart,
    }
}

/// The display-server bootstrap as a step-driven machine.
pub struct XSetupFlow {
    pub phase: XSetupPhase,
    /// The reported error, exactly once a step failed.
    pub error: Option<XSetupError>,
}

impl XSetupFlow {
    pub open spec fn wf(&self) -> bool {
        self.error is Some <==> self.phase == XSetupPhase::Failed
    }

    pub fn new() -> (r: Self)
        ensures
            r.phase == XSetupPhase::NeedAuthorityFile,
            r.error is None,
            r.wf(),
    {
        Self { phase: XSetupPhase::NeedAuthorityFile, error: None }
    }

    /// The step the driver must perform next, if the bootstrap is
    /// still under way.
    pub fn pending_step(&self) -> (r: Option<XSetupStep>)
        ensures
            r == spec_xsetup_pending(self.phase),
    {
        match self.phase {
            XSetupPhase::NeedAuthorityFile => Some(XSetupStep::CreateAuthorityFile),
            XSetupPhase::NeedTokenRegistration => Some(XSetupStep::RegisterToken),
            XSetupPhase::NeedServerSpawn => Some(XSetupStep::SpawnDisplayServer),
            XSetupPhase::NeedStartupDelay => Some(XSetupStep::WaitStartupDelay),
            _ => None,
        }
    }

    /// The pending step succeeded (the fixed delay merely passed).
    pub fn step_succeeded(&mut self)
        requires
            old(self).wf(),
            spec_xsetup_pending(old(self).phase) is Some,
        ensures
            final(self).wf(),
            final(self).phase == spec_xsetup_after_success(old(self).phase),
            final(self).error is None,
    {
        self.phase = match self.phase {
            XSetupPhase::NeedAuthorityFile => XSetupPhase::NeedTokenRegistration,
            XSetupPhase::NeedTokenRegistration => XSetupPhase::NeedServerSpawn,
            XSetupPhase::NeedServerSpawn => XSetupPhase::NeedStartupDelay,
            XSetupPhase::NeedStartupDelay => XSetupPhase::Ready,
            p => p,
        };
    }

    /// The pending step failed. The fixed delay cannot fail, so this
    /// is only for the three steps before it.
    pub fn step_failed(&mut self)
        requires
            old(self).wf(),
            spec_xsetup_pending(old(self).phase) is Some,
            old(self).phase != XSetupPhase::NeedStartupDelay,
        ensures
            final(self).wf(),
            final(self).phase == XSetupPhase::Failed,
            final(self).error == Some(spec_xsetup_failure(old(self).phase)),
    {
        self.error = Some(
            match self.phase {
                XSetupPhase::NeedAuthorityFile => XSetupError::XAuthFileCreation,
                XSetupPhase::NeedTokenRegistration => XSetupError::XAuthFilling,
                _ => XSetupError::XServerStart,
            },
        );
        self.phase = XSetupPhase::Failed;
    }
}

/// The steps a display-server bootstrap attempts, in order, given
/// which OS calls would succeed.
pub open spec fn spec_xsetup_steps(create_ok: bool, fill_ok: bool, spawn_ok: bool) -> Seq<
    XSetupStep,
> {
    let s = seq![XSetupStep::CreateAuthorityFile];
    if !create_ok {
        s
    } else {
        let s = s + seq![XSetupStep::RegisterToken];
        if !fill_ok {
            s
        } else {
            let s = s + seq![XSetupStep::SpawnDisplayServer];
            if !spawn_ok {
                s
            } else {
                s + seq![XSetupStep::WaitStartupDelay]
            }
        }
    }
}

/// The result of a display-server bootstrap, given which OS calls
/// would succeed.
pub open spec fn spec_xsetup_result(create_ok: bool, fill_ok: bool, spawn_ok: bool) -> Result<
    (),
    XSetupError,
> {
    if !create_ok {
        Err(XSetupError::XAuthFileCreation)
    } else if !fill_ok {
        Err(XSetupError::XAuthFilling)
    } else if !spawn_ok {
        Err(XSetupError::XServerStart)
    } else {
        Ok(())
    }
}

/// Run one display-server bootstrap of [`XSetupFlow`] with the given
/// outcome for each fallible step, recording every step attempted.
pub fn xsetup_trace(create_ok: bool, fill_ok: bool, spawn_ok: bool) -> (r: (
    Vec<XSetupStep>,
    Result<(), XSetupError>,
))
    ensures
        r.0@ == spec_xsetup_steps(create_ok, fill_ok, spawn_ok),
        r.1 == spec_xsetup_result(create_ok, fill_ok, spawn_ok),
{
    let ghost g = (create_ok, fill_ok, spawn_ok);
    let mut steps: Vec<XSetupStep> = Vec::new();
    let mut flow = XSetupFlow::new();

    steps.push(XSetupStep::CreateAuthorityFile);
    if !create_ok {
        flow.step_failed();
        proof {
            assert(steps@ =~= spec_xsetup_steps(g.0, g.1, g.2));
        }
        return (steps, Err(XSetupError::XAuthFileCreation));
    }
    flow.step_succeeded();

    steps.push(XSetupStep::RegisterToken);
    if !fill_ok {
        flow.step_failed();
        proof {
            assert(steps@ =~= spec_xsetup_steps(g.0, g.1, g.2));
        }
        return (steps, Err(XSetupError::XAuthFilling));
    }
    flow.step_succeeded();

    steps.push(XSetupStep::SpawnDisplayServer);
    if !spawn_ok {
        flow.step_failed();
        proof {
            assert(steps@ =~= spec_xsetup_steps(g.0, g.1, g.2));
        }
        return (steps, Err(XSetupError::XServerStart));
    }
    flow.step_succeeded();

    steps.push(XSetupStep::WaitStartupDelay);
    flow.step_succeeded();

    proof {
        assert(steps@ =~= spec_xsetup_steps(g.0, g.1, g.2));
    }
    (steps, Ok(()))
}

/// Everything the driver needs to start a post-login environment:
/// whether a display server must be bootstrapped first, which
/// display and virtual terminal to bind it to, the identity to drop
/// to, and the launch payload to spawn under it. The display and
/// authority settings are carried here explicitly instead of leaking
/// through ambient process state.
#[derive(Debug, PartialEq, Eq, Clone)]
pub struct LaunchPlan {
    pub needs_display_server: bool,
    pub display: String,
    pub virtual_terminal: u8,
    pub uid: u32,
    pub gid: u32,
    pub username: String,
    pub home_dir: String,
    pub launch_payload: String,
}

/// Resolve one environment start: the graphical branch bootstraps a
/// display server first, the shell branch does not; both then drop
/// to the authenticated identity and spawn the environment's launch
/// payload.
pub fn post_login_env_start(
    post_login_env: &EnvironmentDescriptor,
    config: &SessionConfig,
    user_info: &AuthUserInfo,
) -> (r: LaunchPlan)
    ensures
        r.needs_display_server == (post_login_env.kind == EnvironmentKind::Graphical),
        r.display == config.x11_display,
        r.virtual_terminal == config.tty,
        r.uid == user_info.uid,
        r.gid == user_info.gid,
        r.username == user_info.name,
        r.home_dir == user_info.home_dir,
        r.launch_payload == post_login_env.launch_payload,
{
    LaunchPlan {
        needs_display_server: match post_login_env.kind {
            EnvironmentKind::Graphical => true,
            EnvironmentKind::Shell => false,
        },
        display: config.x11_display.clone(),
        virtual_terminal: config.tty,
        uid: user_info.uid,
        gid: user_info.gid,
        username: user_info.name.clone(),
        home_dir: user_info.home_dir.clone(),
        launch_payload: post_login_env.launch_payload.clone(),
    }
}

} // verus!
