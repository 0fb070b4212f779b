//! Decision logic of the login form's input/session thread: where
//! focus starts, what a submit does, what each orchestration hook
//! asks of the UI, and how a finished session call is reported back
//! to the user. The render loop and the terminal belong to the
//! driver; everything here is a pure decision.

use vstd::prelude::*;

use crate::bridge::UIRequest;
use crate::input::InputMode;
use crate::session::HookPoint;
use crate::session::SessionError;
use crate::status::ErrorStatusMessage;
use crate::status::InfoStatusMessage;
use crate::status::StatusMessage;

verus! {

/// Which control the form focuses when it comes up.
#[derive(Clone, Copy, Debug, PartialEq, Eq, Structural)]
pub enum FocusBehaviour {
    /// Focus the first field that no cached value filled.
    FirstNonCached,
    NoFocus,
    Environment,
    Username,
    Password,
}

/// The input mode the form starts in, given the focus behaviour and
/// which fields a cached value filled.
pub open spec fn spec_initial_input_mode(
    focus: FocusBehaviour,
    username_cached: bool,
    environment_cached: bool,
) -> InputMode {
    match focus {
        FocusBehaviour::FirstNonCached => {
            if username_cached && environment_cached {
                InputMode::PasswordField
            } else if username_cached {
                InputMode::UsernameField
            } else {
                InputMode::EnvironmentSwitcher
            }
        },
        FocusBehaviour::NoFocus => InputMode::Normal,
        FocusBehaviour::Environment => InputMode::EnvironmentSwitcher,
        FocusBehaviour::Username => InputMode::UsernameField,
        FocusBehaviour::Password => InputMode::PasswordField,
    }
}

/// Pick the input mode the form starts in. `username_cached` and
/// `environment_cached` say whether a remembered value filled the
/// respective field.
pub fn initial_input_mode(
    focus: FocusBehaviour,
    username_cached: bool,
    environment_cached: bool,
) -> (r: InputMode)
    ensures
        r == spec_initial_input_mode(focus, username_cached, environment_cached),
{
    match focus {
        FocusBehaviour::FirstNonCached => {
            if username_cached && environment_cached {
                InputMode::PasswordField
            } else if username_cached {
                InputMode::UsernameField
            } else {
                InputMode::EnvironmentSwitcher
            }
        },
        FocusBehaviour::NoFocus => InputMode::Normal,
        FocusBehaviour::Environment => InputMode::EnvironmentSwitcher,
        FocusBehaviour::Username => InputMode::UsernameField,
        FocusBehaviour::Password => InputMode::PasswordField,
    }
}

/// What a submit from the password field leads to.
#[derive(Clone, Copy, Debug, PartialEq, Eq, Structural)]
pub enum SubmitDecision {
    /// Preview mode: play the demonstration sequence, touch nothing
    /// real.
    PreviewDemo,
    /// No environment is selected: report it, start nothing.
    ReportNoEnvironment,
    /// Invoke the session orchestrator synchronously.
    StartSession,
}

/// Decide what a submit does: the demonstration in preview mode; an
/// error notice when no environment is selected; otherwise one
/// orchestration call.
pub fn handle_submit(preview: bool, environment_selected: bool) -> (r: SubmitDecision)
    ensures
        preview ==> r == SubmitDecision::PreviewDemo,
        !preview && !environment_selected ==> r == SubmitDecision::ReportNoEnvironment,
        !preview && environment_selected ==> r == SubmitDecision::StartSession,
{
    if preview {
        SubmitDecision::PreviewDemo
    } else if !environment_selected {
        SubmitDecision::ReportNoEnvironment
    } else {
        SubmitDecision::StartSession
    }
}

/// What to do with the visible status message.
#[derive(Clone, Copy, Debug, PartialEq, Eq, Structural)]
pub enum StatusChange {
    /// Leave it as it is.
    Keep,
    /// Remove it.
    Clear,
    /// Replace it.
    Show(StatusMessage),
}

/// What one orchestration hook asks of the UI thread: widget and
/// cache side effects, a status change, and requests for the render
/// thread, in order.
pub struct HookEffects {
    /// Clear the password field (the secret is never kept past its
    /// use).
    pub clear_password: bool,
    /// Persist the remembered username and environment.
    pub set_cache: bool,
    pub status: StatusChange,
    pub requests: Vec<UIRequest>,
}

/// The status change a hook asks for.
pub open spec fn spec_hook_status(hook: HookPoint) -> StatusChange {
    match hook {
        HookPoint::PreAuth => StatusChange::Show(StatusMessage::Info(InfoStatusMessage::Authenticating)),
        HookPoint::PreEnvironment => StatusChange::Show(StatusMessage::Info(InfoStatusMessage::LoggingIn)),
        HookPoint::PreReturn => StatusChange::Clear,
        _ => StatusChange::Keep,
    }
}

/// The render-thread requests a hook asks for, in order. Before the
/// environment starts the display is suspended; on return it is
/// resumed first, so the closing redraw lands on a live screen.
pub open spec fn spec_hook_requests(hook: HookPoint) -> Seq<UIRequest> {
    match hook {
        HookPoint::PreAuth => seq![UIRequest::Redraw],
        HookPoint::PreEnvironment => seq![UIRequest::Redraw, UIRequest::SuspendDisplay],
        HookPoint::PreReturn => seq![UIRequest::ResumeDisplay, UIRequest::Redraw],
        _ => Seq::empty(),
    }
}

/// What the login form does at each orchestration hook: `PreAuth`
/// clears the secret and shows "authenticating"; `PreEnvironment`
/// persists the cache, shows "logging in" and suspends the display;
/// `PreReturn` resumes the display and clears the status. The other
/// hooks are no-ops for this form.
pub fn hook_effects(hook: HookPoint) -> (r: HookEffects)
    ensures
        r.clear_password == (hook == HookPoint::PreAuth),
        r.set_cache == (hook == HookPoint::PreEnvironment),
        r.status == spec_hook_status(hook),
        r.requests@ == spec_hook_requests(hook),
{
    let r = match hook {
        HookPoint::PreAuth => HookEffects {
            clear_password: true,
            set_cache: false,
            status: StatusChange::Show(StatusMessage::Info(InfoStatusMessage::Authenticating)),
            requests: vec![UIRequest::Redraw],
        },
        HookPoint::PreEnvironment => HookEffects {
            clear_password: false,
            set_cache: true,
            status: StatusChange::Show(StatusMessage::Info(InfoStatusMessage::LoggingIn)),
            requests: vec![UIRequest::Redraw, UIRequest::SuspendDisplay],
        },
        HookPoint::PreReturn => HookEffects {
            clear_password: false,
            set_cache: false,
            status: StatusChange::Clear,
            requests: vec![UIRequest::ResumeDisplay, UIRequest::Redraw],
        },
        _ => HookEffects {
            clear_password: false,
            set_cache: false,
            status: StatusChange::Keep,
            requests: Vec::new(),
        },
    };
    proof {
        assert(r.requests@ =~= spec_hook_requests(hook));
    }
    r
}

/// A status change together with render-thread requests, in order.
pub struct Followup {
    pub status: StatusChange,
    pub requests: Vec<UIRequest>,
}

/// The status change shown for a finished orchestration call: a
/// rejected authentication and a failed environment start are
/// distinct notices, so the user can tell that in the second case
/// the credentials were correct.
pub open spec fn spec_session_followup_status(result: Result<(), SessionError>) -> StatusChange {
    match result {
        Ok(_) => StatusChange::Keep,
        Err(SessionError::AuthenticationError(_)) => StatusChange::Show(
            StatusMessage::Error(ErrorStatusMessage::AuthenticationError),
        ),
        Err(SessionError::EnvironmentStartError(_)) => StatusChange::Show(
            StatusMessage::Error(ErrorStatusMessage::FailedGraphicalEnvironment),
        ),
    }
}

/// The requests sent after a finished orchestration call. An
/// environment start failure explicitly resumes the display, since
/// the call may have suspended it.
pub open spec fn spec_session_followup_requests(result: Result<(), SessionError>) -> Seq<
    UIRequest,
> {
    match result {
        Ok(_) => Seq::empty(),
        Err(SessionError::AuthenticationError(_)) => seq![UIRequest::Redraw],
        Err(SessionError::EnvironmentStartError(_)) => seq![
            UIRequest::ResumeDisplay,
            UIRequest::Redraw,
        ],
    }
}

/// Report a finished orchestration call back to the user.
pub fn session_followup(result: &Result<(), SessionError>) -> (r: Followup)
    ensures
        r.status == spec_session_followup_status(*result),
        r.requests@ == spec_session_followup_requests(*result),
{
    let r = match result {
        Ok(_) => Followup { status: StatusChange::Keep, requests: Vec::new() },
        Err(SessionError::AuthenticationError(_)) => Followup {
            status: StatusChange::Show(StatusMessage::Error(ErrorStatusMessage::AuthenticationError)),
            requests: vec![UIRequest::Redraw],
        },
        Err(SessionError::EnvironmentStartError(_)) => Followup {
            status: StatusChange::Show(
                StatusMessage::Error(ErrorStatusMessage::FailedGraphicalEnvironment),
            ),
            requests: vec![UIRequest::ResumeDisplay, UIRequest::Redraw],
        },
    };
    proof {
        assert(r.requests@ =~= spec_session_followup_requests(*result));
    }
    r
}

/// Report that nothing can be started because no environment is
/// selected.
pub fn no_environment_followup() -> (r: Followup)
    ensures
        r.status == StatusChange::Show(
            StatusMessage::Error(ErrorStatusMessage::NoGraphicalEnvironment),
        ),
        r.requests@ == seq![UIRequest::Redraw],
{
    let r = Followup {
        status: StatusChange::Show(StatusMessage::Error(ErrorStatusMessage::NoGraphicalEnvironment)),
        requests: vec![UIRequest::Redraw],
    };
    proof {
        assert(r.requests@ =~= seq![UIRequest::Redraw]);
    }
    r
}

/// What to persist for the next start.
#[derive(Debug, PartialEq, Eq, Clone)]
pub struct CacheEntry {
    pub environment: Option<String>,
    pub username: Option<String>,
}

/// Decide what to cache: nothing at all when neither field is
/// remembered; otherwise the selected environment title if the
/// switcher is remembered, and the username if the username field
/// is.
pub fn cache_plan(
    environment_remember: bool,
    username_remember: bool,
    environment_title: Option<String>,
    username: String,
) -> (r: Option<CacheEntry>)
    ensures
        !environment_remember && !username_remember ==> r is None,
        environment_remember || username_remember ==> {
            &&& r matches Some(entry)
            &&& entry.environment == (if environment_remember {
                environment_title
            } else {
                Option::<String>::None
            })
            &&& entry.username == (if username_remember {
                Some(username)
            } else {
                Option::<String>::None
            })
        },
{
    if !environment_remember && !username_remember {
        None
    } else {
        Some(
            CacheEntry {
                environment: if environment_remember {
                    environment_title
                } else {
                    None
                },
                username: if username_remember {
                    Some(username)
                } else {
                    None
                },
            },
        )
    }
}

/// Decide which cached values fill the form: a remembered field
/// takes its cached value, an unremembered one stays empty.
pub fn cached_fill(
    username_remember: bool,
    environment_remember: bool,
    cached_username: Option<String>,
    cached_environment: Option<String>,
) -> (r: CacheEntry)
    ensures
        r.username == (if username_remember {
            cached_username
        } else {
            Option::<String>::None
        }),
        r.environment == (if environment_remember {
            cached_environment
        } else {
            Option::<String>::None
        }),
{
    CacheEntry {
        environment: if environment_remember {
            cached_environment
        } else {
            None
        },
        username: if username_remember {
            cached_username
        } else {
            None
        },
    }
}

/// One beat of the preview-mode demonstration: a status change,
/// then a redraw, then a pause.
#[derive(Clone, Copy, Debug, PartialEq, Eq, Structural)]
pub struct DemoStep {
    pub status: StatusChange,
    pub pause_secs: u64,
}

/// The fixed demonstration played on submit in preview mode:
/// "authenticating" and "logging in" for two seconds each, then the
/// status is cleared. Nothing real is touched.
pub fn preview_demo_steps() -> (r: Vec<DemoStep>)
    ensures
        r@ == seq![
            DemoStep {
                status: StatusChange::Show(StatusMessage::Info(InfoStatusMessage::Authenticating)),
                pause_secs: 2,
            },
            DemoStep {
                status: StatusChange::Show(StatusMessage::Info(InfoStatusMessage::LoggingIn)),
                pause_secs: 2,
            },
            DemoStep { status: StatusChange::Clear, pause_secs: 0 },
        ],
{
    let r = vec![
        DemoStep {
            status: StatusChange::Show(StatusMessage::Info(InfoStatusMessage::Authenticating)),
            pause_secs: 2,
        },
        DemoStep {
            status: StatusChange::Show(StatusMessage::Info(InfoStatusMessage::LoggingIn)),
            pause_secs: 2,
        },
        DemoStep { status: StatusChange::Clear, pause_secs: 0 },
    ];
    proof {
        assert(r@ =~= seq![
            DemoStep {
                status: StatusChange::Show(StatusMessage::Info(InfoStatusMessage::Authenticating)),
                pause_secs: 2,
            },
            DemoStep {
                status: StatusChange::Show(StatusMessage::Info(InfoStatusMessage::LoggingIn)),
                pause_secs: 2,
            },
            DemoStep { status: StatusChange::Clear, pause_secs: 0 },
        ]);
    }
    r
}

} // verus!
