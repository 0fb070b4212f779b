use lemurs::launcher::EnvStartFlow;
use lemurs::launcher::EnvStartPhase;
use lemurs::launcher::EnvStartStep;
use lemurs::launcher::LaunchPlan;
use lemurs::launcher::XSetupError;
use lemurs::launcher::XSetupStep;
use lemurs::launcher::XStartEnvError;
use lemurs::launcher::env_start_trace;
use lemurs::launcher::post_login_env_start;
use lemurs::launcher::xsetup_trace;
use lemurs::session::AuthUserInfo;
use lemurs::session::EnvironmentDescriptor;
use lemurs::session::EnvironmentKind;
use lemurs::session::SessionConfig;

#[test]
fn identity_drop_happy_path_orders_transitions() {
    let (steps, result) = env_start_trace(true, true, true, true, true);
    assert_eq!(
        steps,
        vec![
            EnvStartStep::ConvertUsername,
            EnvStartStep::InitGroups,
            EnvStartStep::SetGid,
            EnvStartStep::SetUid,
            EnvStartStep::SpawnEnvironment,
        ]
    );
    assert_eq!(result, Ok(()));
}

#[test]
fn username_conversion_failure_stops_before_any_identity_change() {
    let (steps, result) = env_start_trace(false, true, true, true, true);
    assert_eq!(steps, vec![EnvStartStep::ConvertUsername]);
    assert_eq!(result, Err(XStartEnvError::UsernameConversion));
}

#[test]
fn init_groups_failure_short_circuits_gid_and_uid() {
    let (steps, result) = env_start_trace(true, false, true, true, true);
    assert_eq!(steps, vec![EnvStartStep::ConvertUsername, EnvStartStep::InitGroups]);
    assert!(!steps.contains(&EnvStartStep::SetGid));
    assert!(!steps.contains(&EnvStartStep::SetUid));
    assert!(!steps.contains(&EnvStartStep::SpawnEnvironment));
    assert_eq!(result, Err(XStartEnvError::SettingGroups));
}

#[test]
fn set_gid_failure_short_circuits_uid() {
    let (steps, result) = env_start_trace(true, true, false, true, true);
    assert_eq!(
        steps,
        vec![EnvStartStep::ConvertUsername, EnvStartStep::InitGroups, EnvStartStep::SetGid]
    );
    assert!(!steps.contains(&EnvStartStep::SetUid));
    assert_eq!(result, Err(XStartEnvError::SettingGid));
}

#[test]
fn set_uid_failure_short_circuits_spawn() {
    let (steps, result) = env_start_trace(true, true, true, false, true);
    assert_eq!(
        steps,
        vec![
            EnvStartStep::ConvertUsername,
            EnvStartStep::InitGroups,
            EnvStartStep::SetGid,
            EnvStartStep::SetUid,
        ]
    );
    assert!(!steps.contains(&EnvStartStep::SpawnEnvironment));
    assert_eq!(result, Err(XStartEnvError::SettingUid));
}

#[test]
fn spawn_failure_reports_starting_environment() {
    let (steps, result) = env_start_trace(true, true, true, true, false);
    assert_eq!(steps.len(), 5);
    assert_eq!(result, Err(XStartEnvError::StartingEnvironment));
}

#[test]
fn env_start_machine_walks_phases_in_order() {
    let mut flow = EnvStartFlow::new();
    let mut seen = Vec::new();
    while let Some(step) = flow.pending_step() {
        seen.push(step);
        flow.step_succeeded();
    }
    assert_eq!(flow.phase, EnvStartPhase::Started);
    assert_eq!(flow.error, None);
    assert_eq!(
        seen,
        vec![
            EnvStartStep::ConvertUsername,
            EnvStartStep::InitGroups,
            EnvStartStep::SetGid,
            EnvStartStep::SetUid,
            EnvStartStep::SpawnEnvironment,
        ]
    );
}

#[test]
fn xsetup_happy_path_ends_with_startup_delay() {
    let (steps, result) = xsetup_trace(true, true, true);
    assert_eq!(
        steps,
        vec![
            XSetupStep::CreateAuthorityFile,
            XSetupStep::RegisterToken,
            XSetupStep::SpawnDisplayServer,
            XSetupStep::WaitStartupDelay,
        ]
    );
    assert_eq!(result, Ok(()));
}

#[test]
fn xsetup_failures_map_to_their_own_errors() {
    let (steps, result) = xsetup_trace(false, true, true);
    assert_eq!(steps, vec![XSetupStep::CreateAuthorityFile]);
    assert_eq!(result, Err(XSetupError::XAuthFileCreation));

    let (steps, result) = xsetup_trace(true, false, true);
    assert_eq!(steps, vec![XSetupStep::CreateAuthorityFile, XSetupStep::RegisterToken]);
    assert_eq!(result, Err(XSetupError::XAuthFilling));

    let (steps, result) = xsetup_trace(true, true, false);
    assert_eq!(
        steps,
        vec![
            XSetupStep::CreateAuthorityFile,
            XSetupStep::RegisterToken,
            XSetupStep::SpawnDisplayServer,
        ]
    );
    assert_eq!(result, Err(XSetupError::XServerStart));
}

#[test]
fn error_messages_are_fixed() {
    assert_eq!(XStartEnvError::SettingGroups.message(), "failed to set supplementary groups");
    assert_eq!(XStartEnvError::SettingGid.message(), "failed to set the group id");
    assert_eq!(XStartEnvError::SettingUid.message(), "failed to set the user id");
    assert_eq!(XStartEnvError::UsernameConversion.message(), "failed to convert the username");
    assert_eq!(XStartEnvError::StartingEnvironment.message(), "failed to start the environment");
    assert_eq!(XSetupError::XAuthFileCreation.message(), "failed to create the authority file");
    assert_eq!(XSetupError::XAuthFilling.message(), "failed to fill the authority file");
    assert_eq!(XSetupError::XServerStart.message(), "failed to start the display server");
}

#[test]
fn launch_plan_resolves_graphical_environment() {
    let env = EnvironmentDescriptor {
        title: String::from("i3"),
        launch_payload: String::from("/usr/share/xsessions/i3.sh"),
        kind: EnvironmentKind::Graphical,
    };
    let config = SessionConfig {
        do_log: true,
        client_log_path: String::from("/var/log/client.log"),
        xserver_log_path: String::from("/var/log/x.log"),
        shell_login_flag: String::from("-l"),
        xserver_timeout_secs: 1,
        pam_service: String::from("login"),
        tty: 2,
        x11_display: String::from(":1"),
    };
    let user = AuthUserInfo {
        uid: 1000,
        gid: 100,
        home_dir: String::from("/home/john"),
        name: String::from("john"),
    };
    let plan = post_login_env_start(&env, &config, &user);
    assert_eq!(
        plan,
        LaunchPlan {
            needs_display_server: true,
            display: String::from(":1"),
            virtual_terminal: 2,
            uid: 1000,
            gid: 100,
            username: String::from("john"),
            home_dir: String::from("/home/john"),
            launch_payload: String::from("/usr/share/xsessions/i3.sh"),
        }
    );

    let shell = EnvironmentDescriptor {
        title: String::from("bash"),
        launch_payload: String::from("/bin/bash"),
        kind: EnvironmentKind::Shell,
    };
    let plan = post_login_env_start(&shell, &config, &user);
    assert!(!plan.needs_display_server);
    assert_eq!(plan.launch_payload, String::from("/bin/bash"));
}
