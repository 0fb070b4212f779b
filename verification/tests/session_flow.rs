use lemurs::session::AuthUserInfo;
use lemurs::session::HookPoint;
use lemurs::session::SessionError;
use lemurs::session::SessionFlow;
use lemurs::session::SessionPhase;
use lemurs::session::SessionStep;
use lemurs::session::session_trace;

fn test_user() -> AuthUserInfo {
    AuthUserInfo {
        uid: 1000,
        gid: 1000,
        home_dir: String::from("/home/john"),
        name: String::from("john"),
    }
}

#[test]
fn failing_authenticator_fires_at_most_pre_validate() {
    let (steps, result) = session_trace(
        Err(String::from("bad credentials")),
        Ok(()),
        Ok(()),
    );
    assert_eq!(
        steps,
        vec![SessionStep::Hook(HookPoint::PreValidate), SessionStep::Authenticate]
    );
    // Neither the launcher nor any later hook was invoked.
    assert!(!steps.contains(&SessionStep::StartEnvironment));
    assert!(!steps.contains(&SessionStep::Launch));
    assert!(!steps.contains(&SessionStep::Hook(HookPoint::PreAuth)));
    assert!(!steps.contains(&SessionStep::Hook(HookPoint::PreEnvironment)));
    assert!(!steps.contains(&SessionStep::Hook(HookPoint::PreWait)));
    assert_eq!(
        result,
        Err(SessionError::AuthenticationError(String::from("bad credentials")))
    );
}

#[test]
fn failing_privilege_drop_fires_pre_auth_but_not_pre_wait_or_pre_return() {
    let (steps, result) = session_trace(
        Ok(test_user()),
        Err(String::from("failed to set supplementary groups")),
        Ok(()),
    );
    assert_eq!(
        steps,
        vec![
            SessionStep::Hook(HookPoint::PreValidate),
            SessionStep::Authenticate,
            SessionStep::Hook(HookPoint::PreAuth),
            SessionStep::StartEnvironment,
        ]
    );
    assert!(!steps.contains(&SessionStep::Hook(HookPoint::PreWait)));
    assert!(!steps.contains(&SessionStep::Hook(HookPoint::PreReturn)));
    assert_eq!(
        result,
        Err(SessionError::EnvironmentStartError(String::from(
            "failed to set supplementary groups"
        )))
    );
}

#[test]
fn happy_path_fires_hooks_in_fixed_order_and_succeeds() {
    let (steps, result) = session_trace(Ok(test_user()), Ok(()), Ok(()));
    assert_eq!(
        steps,
        vec![
            SessionStep::Hook(HookPoint::PreValidate),
            SessionStep::Authenticate,
            SessionStep::Hook(HookPoint::PreAuth),
            SessionStep::StartEnvironment,
            SessionStep::Hook(HookPoint::PreEnvironment),
            SessionStep::Launch,
            SessionStep::Hook(HookPoint::PreWait),
            SessionStep::Wait,
            SessionStep::Hook(HookPoint::PreReturn),
        ]
    );
    assert_eq!(result, Ok(()));
    // The five hooks, in exactly this order.
    let hooks: Vec<HookPoint> = steps
        .iter()
        .filter_map(|s| match s {
            SessionStep::Hook(h) => Some(*h),
            _ => None,
        })
        .collect();
    assert_eq!(
        hooks,
        vec![
            HookPoint::PreValidate,
            HookPoint::PreAuth,
            HookPoint::PreEnvironment,
            HookPoint::PreWait,
            HookPoint::PreReturn,
        ]
    );
}

#[test]
fn failing_launch_reports_environment_start_error() {
    let (steps, result) = session_trace(
        Ok(test_user()),
        Ok(()),
        Err(String::from("failed to start the environment")),
    );
    assert_eq!(
        steps,
        vec![
            SessionStep::Hook(HookPoint::PreValidate),
            SessionStep::Authenticate,
            SessionStep::Hook(HookPoint::PreAuth),
            SessionStep::StartEnvironment,
            SessionStep::Hook(HookPoint::PreEnvironment),
            SessionStep::Launch,
        ]
    );
    assert_eq!(
        result,
        Err(SessionError::EnvironmentStartError(String::from(
            "failed to start the environment"
        )))
    );
}

/// Drive the machine by hand, as a driver with recording stand-ins
/// would, and check every intermediate phase.
#[test]
fn machine_traversal_phase_by_phase() {
    let mut flow = SessionFlow::new();
    assert_eq!(flow.phase, SessionPhase::PreValidateHook);
    assert_eq!(flow.pending_hook(), Some(HookPoint::PreValidate));
    flow.hook_fired();

    assert_eq!(flow.phase, SessionPhase::Authenticating);
    assert_eq!(flow.pending_hook(), None);
    flow.authentication_succeeded(test_user());

    assert_eq!(flow.phase, SessionPhase::PreAuthHook);
    assert_eq!(flow.pending_hook(), Some(HookPoint::PreAuth));
    assert_eq!(flow.user.as_ref().map(|u| u.uid), Some(1000));
    flow.hook_fired();

    assert_eq!(flow.phase, SessionPhase::StartingEnvironment);
    flow.environment_started();

    assert_eq!(flow.phase, SessionPhase::PreEnvironmentHook);
    assert_eq!(flow.pending_hook(), Some(HookPoint::PreEnvironment));
    flow.hook_fired();

    assert_eq!(flow.phase, SessionPhase::Launching);
    flow.launched();

    assert_eq!(flow.phase, SessionPhase::PreWaitHook);
    assert_eq!(flow.pending_hook(), Some(HookPoint::PreWait));
    flow.hook_fired();

    assert_eq!(flow.phase, SessionPhase::Waiting);
    flow.wait_completed();

    assert_eq!(flow.phase, SessionPhase::PreReturnHook);
    assert_eq!(flow.pending_hook(), Some(HookPoint::PreReturn));
    flow.hook_fired();

    assert_eq!(flow.phase, SessionPhase::Complete);
    assert_eq!(flow.outcome, Some(Ok(())));
}

#[test]
fn machine_rejection_completes_immediately() {
    let mut flow = SessionFlow::new();
    flow.hook_fired();
    flow.authentication_failed(String::from("no such user"));
    assert_eq!(flow.phase, SessionPhase::Complete);
    assert_eq!(
        flow.outcome,
        Some(Err(SessionError::AuthenticationError(String::from("no such user"))))
    );
    assert_eq!(flow.user, None);
}
