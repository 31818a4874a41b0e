//! Deciding, for a chosen tailnet, between a fast switch to its registered
//! profile and a fresh login, one client call at a time. The runner makes
//! each call that a step asks for and hands its result to the next step.
//! No step ever asks for a logout: a switch or a login adds to what is
//! registered and never takes a profile away.
use vstd::prelude::*;
use crate::config::{Config, Tailnet, TailnetView, declared_index, declares};
use crate::registry::profile_names;
use crate::tailscale::{
    ClientError, Completion, Invocation, TailscaleClient, reads_is_logged_out,
    reads_list_profiles, reads_login_with_key, reads_status, reads_switch_to,
    tool_argv, up_args,
};
use crate::text::same_text;
use crate::watcher::AuthCapture;

verus! {

/// A call of the client that a step asks the runner to make.
#[derive(Debug)]
pub enum ClientCall {
    ListProfiles,
    SwitchTo(String),
    /// A `status` run, read for signs of a logged-out profile.
    CheckLoggedOut,
    /// A foreground `up` that logs in with the tailnet's key.
    BringUpWithKey(Tailnet),
    /// A backgrounded `login` for the tailnet, then the wait for its URL.
    InteractiveLogin(Tailnet),
    /// A `status` run whose output is shown.
    Status,
    Logout,
}

/// The result of a call, as the runner hands it back.
#[derive(Debug)]
pub enum CallResult {
    Profiles(Result<Vec<(String, String)>, ClientError>),
    Switched(Result<(), ClientError>),
    LoggedOut(Result<bool, ClientError>),
    BroughtUp(Result<(), ClientError>),
    Captured(Result<AuthCapture, ClientError>),
    Status(Result<String, ClientError>),
}

/// Where a selection ended.
#[derive(Debug)]
pub enum Outcome {
    /// The registered profile is active again.
    Switched { status: Option<String> },
    /// The login completed without a URL to open. `url_wait_timed_out` tells
    /// an interactive login whose URL never showed from a login with a key.
    ConnectedDirect { status: Option<String>, url_wait_timed_out: bool },
    /// The operator has to open `url` to finish the login.
    NeedsInteractiveAuth { url: String },
}

/// What a step hands back.
#[derive(Debug)]
pub enum FlowStep {
    Call(ClientCall),
    Finished(Result<Outcome, ClientError>),
}

#[derive(Clone, Copy, PartialEq, Eq, Structural)]
pub enum FlowPhase {
    Start,
    AwaitProfiles,
    AwaitSwitch,
    AwaitLoggedOut,
    AwaitBringUp,
    AwaitCapture,
    AwaitStatus,
    Finished,
}

/// Which success the pending `status` run will be reported with.
#[derive(Clone, Copy, PartialEq, Eq, Structural)]
pub enum Success {
    Switched,
    Connected,
    UrlWaitTimedOut,
}

pub open spec fn is_logout(r: FlowStep) -> bool {
    r matches FlowStep::Call(ClientCall::Logout)
}

/// The call that starts a login for `t`: with its key where it has one,
/// else interactively.
pub open spec fn login_call(r: FlowStep, t: TailnetView) -> bool {
    match t.auth_key {
        Some(_) => r matches FlowStep::Call(ClientCall::BringUpWithKey(x)) && x@ == t,
        None => r matches FlowStep::Call(ClientCall::InteractiveLogin(x)) && x@ == t,
    }
}

pub open spec fn login_phase(t: TailnetView) -> FlowPhase {
    if t.auth_key is Some {
        FlowPhase::AwaitBringUp
    } else {
        FlowPhase::AwaitCapture
    }
}

/// The outcome that a `status` run with result `st` completes.
pub open spec fn success_outcome(o: Outcome, kind: Success, st: Result<String, ClientError>) -> bool {
    let text = match st {
        Ok(s) => Some(s@),
        Err(_) => None,
    };
    match kind {
        Success::Switched => o matches Outcome::Switched { status } && status.deep_view() == text,
        Success::Connected => o matches Outcome::ConnectedDirect { status, url_wait_timed_out }
            && status.deep_view() == text && !url_wait_timed_out,
        Success::UrlWaitTimedOut => o matches Outcome::ConnectedDirect {
            status,
            url_wait_timed_out,
        } && status.deep_view() == text && url_wait_timed_out,
    }
}

/// Whether `rows` holds a profile of the tailnet called `name`; a list that
/// could not be had counts as holding none.
pub open spec fn registered_in(rows: Result<Vec<(String, String)>, ClientError>, name: Seq<char>) -> bool {
    match rows {
        Ok(v) => profile_names(v.deep_view()).contains(name),
        Err(_) => false,
    }
}

/// The run of one selection.
pub struct SelectionFlow {
    selected: Tailnet,
    relogin: Tailnet,
    target: Tailnet,
    phase: FlowPhase,
    success: Success,
}

fn lists_profile(rows: &Vec<(String, String)>, name: &str) -> (r: bool)
    ensures
        r == profile_names(rows.deep_view()).contains(name@),
{
    let ghost names = profile_names(rows.deep_view());
    let mut i: usize = 0;
    while i < rows.len()
        invariant
            i <= rows@.len(),
            names == profile_names(rows.deep_view()),
            forall|j: int| 0 <= j < i ==> names[j] != name@,
        decreases rows@.len() - i,
    {
        if same_text(rows[i].0.as_str(), name) {
            assert(names[i as int] == name@);
            return true;
        }
        i += 1;
    }
    false
}

impl SelectionFlow {
    pub closed spec fn phase(&self) -> FlowPhase {
        self.phase
    }

    /// The tailnet chosen.
    pub closed spec fn selected(&self) -> TailnetView {
        self.selected@
    }

    /// The tailnet logged in to where the profile is still logged out after
    /// the switch: the declared one of that name, else the one chosen.
    pub closed spec fn relogin(&self) -> TailnetView {
        self.relogin@
    }

    /// The tailnet of the login under way.
    pub closed spec fn target(&self) -> TailnetView {
        self.target@
    }

    pub closed spec fn success(&self) -> Success {
        self.success
    }

    /// A flow for `selected`, with the declared tailnets at hand.
    pub fn new(selected: Tailnet, declared: &Config) -> (r: Self)
        ensures
            r.phase() == FlowPhase::Start,
            r.selected() == selected@,
            declares(declared@, selected@.name) ==> exists|k: int|
                declared_index(declared@, selected@.name, k) && r.relogin() == declared@[k],
            !declares(declared@, selected@.name) ==> r.relogin() == selected@,
    {
        let relogin = match declared.find(selected.name.as_str()) {
            Some(t) => t,
            None => selected.clone(),
        };
        let target = selected.clone();
        SelectionFlow { selected, relogin, target, phase: FlowPhase::Start, success: Success::Switched }
    }

    pub fn is_finished(&self) -> (r: bool)
        ensures
            r == (self.phase() == FlowPhase::Finished),
    {
        self.phase == FlowPhase::Finished
    }

    /// The first call: the list of registered profiles.
    pub fn start(&mut self) -> (r: FlowStep)
        requires
            old(self).phase() == FlowPhase::Start,
        ensures
            r matches FlowStep::Call(ClientCall::ListProfiles),
            final(self).phase() == FlowPhase::AwaitProfiles,
            final(self).selected() == old(self).selected(),
            final(self).relogin() == old(self).relogin(),
    {
        self.phase = FlowPhase::AwaitProfiles;
        FlowStep::Call(ClientCall::ListProfiles)
    }

    fn begin_login(&mut self, relogin: bool) -> (r: FlowStep)
        ensures
            final(self).target() == (if relogin {
                old(self).relogin()
            } else {
                old(self).selected()
            }),
            login_call(r, final(self).target()),
            final(self).phase() == login_phase(final(self).target()),
            final(self).selected() == old(self).selected(),
            final(self).relogin() == old(self).relogin(),
            final(self).success() == old(self).success(),
    {
        self.target = if relogin {
            self.relogin.clone()
        } else {
            self.selected.clone()
        };
        if self.target.auth_key.is_some() {
            self.phase = FlowPhase::AwaitBringUp;
            FlowStep::Call(ClientCall::BringUpWithKey(self.target.clone()))
        } else {
            self.phase = FlowPhase::AwaitCapture;
            FlowStep::Call(ClientCall::InteractiveLogin(self.target.clone()))
        }
    }

    fn ask_status(&mut self, kind: Success) -> (r: FlowStep)
        ensures
            r matches FlowStep::Call(ClientCall::Status),
            final(self).phase() == FlowPhase::AwaitStatus,
            final(self).success() == kind,
            final(self).selected() == old(self).selected(),
            final(self).relogin() == old(self).relogin(),
            final(self).target() == old(self).target(),
    {
        self.phase = FlowPhase::AwaitStatus;
        self.success = kind;
        FlowStep::Call(ClientCall::Status)
    }

    /// Takes the result of the call last asked for and makes the next step.
    /// A result of another kind than that call's is set aside and the call
    /// asked for again.
    pub fn advance(&mut self, result: CallResult) -> (r: FlowStep)
        requires
            old(self).phase() != FlowPhase::Start,
            old(self).phase() != FlowPhase::Finished,
        ensures
            !is_logout(r),
            final(self).selected() == old(self).selected(),
            final(self).relogin() == old(self).relogin(),
            // the registered list decides between a switch and a login
            old(self).phase() == FlowPhase::AwaitProfiles ==> match result {
                CallResult::Profiles(rows) => if registered_in(rows, old(self).selected().name) {
                    r matches FlowStep::Call(ClientCall::SwitchTo(n)) && n@ == old(
                        self,
                    ).selected().name && final(self).phase() == FlowPhase::AwaitSwitch
                } else {
                    final(self).target() == old(self).selected() && login_call(
                        r,
                        old(self).selected(),
                    ) && final(self).phase() == login_phase(old(self).selected())
                },
                _ => r matches FlowStep::Call(ClientCall::ListProfiles) && final(self).phase()
                    == old(self).phase(),
            },
            // a switch that worked is checked for a logged-out profile; one
            // that failed falls back to a login for the tailnet chosen
            old(self).phase() == FlowPhase::AwaitSwitch ==> match result {
                CallResult::Switched(Ok(())) => r matches FlowStep::Call(ClientCall::CheckLoggedOut)
                    && final(self).phase() == FlowPhase::AwaitLoggedOut,
                CallResult::Switched(Err(_)) => final(self).target() == old(self).selected()
                    && login_call(r, old(self).selected()) && final(self).phase() == login_phase(
                    old(self).selected(),
                ),
                _ => r matches FlowStep::Call(ClientCall::SwitchTo(n)) && n@ == old(
                    self,
                ).selected().name && final(self).phase() == old(self).phase(),
            },
            // still logged out: a login with the declared settings; else done
            old(self).phase() == FlowPhase::AwaitLoggedOut ==> match result {
                CallResult::LoggedOut(Ok(true)) => final(self).target() == old(self).relogin()
                    && login_call(r, old(self).relogin()) && final(self).phase() == login_phase(
                    old(self).relogin(),
                ),
                CallResult::LoggedOut(_) => r matches FlowStep::Call(ClientCall::Status)
                    && final(self).phase() == FlowPhase::AwaitStatus && final(self).success()
                    == Success::Switched,
                _ => r matches FlowStep::Call(ClientCall::CheckLoggedOut) && final(self).phase()
                    == old(self).phase(),
            },
            old(self).phase() == FlowPhase::AwaitBringUp ==> match result {
                CallResult::BroughtUp(Ok(())) => r matches FlowStep::Call(ClientCall::Status)
                    && final(self).phase() == FlowPhase::AwaitStatus && final(self).success()
                    == Success::Connected,
                CallResult::BroughtUp(Err(e)) => r matches FlowStep::Finished(Err(e2)) && e2 == e
                    && final(self).phase() == FlowPhase::Finished,
                _ => r matches FlowStep::Call(ClientCall::BringUpWithKey(t)) && t@ == old(
                    self,
                ).target() && final(self).phase() == old(self).phase(),
            },
            old(self).phase() == FlowPhase::AwaitCapture ==> match result {
                CallResult::Captured(Ok(AuthCapture::Found(url))) => r matches FlowStep::Finished(
                    Ok(Outcome::NeedsInteractiveAuth { url: u }),
                ) && u@ == url@ && final(self).phase() == FlowPhase::Finished,
                CallResult::Captured(Ok(AuthCapture::TimedOut)) => r matches FlowStep::Call(
                    ClientCall::Status,
                ) && final(self).phase() == FlowPhase::AwaitStatus && final(self).success()
                    == Success::UrlWaitTimedOut,
                CallResult::Captured(Err(e)) => r matches FlowStep::Finished(Err(e2)) && e2 == e
                    && final(self).phase() == FlowPhase::Finished,
                _ => r matches FlowStep::Call(ClientCall::InteractiveLogin(t)) && t@ == old(
                    self,
                ).target() && final(self).phase() == old(self).phase(),
            },
            old(self).phase() == FlowPhase::AwaitStatus ==> match result {
                CallResult::Status(st) => r matches FlowStep::Finished(Ok(o)) && success_outcome(
                    o,
                    old(self).success(),
                    st,
                ) && final(self).phase() == FlowPhase::Finished,
                _ => r matches FlowStep::Call(ClientCall::Status) && final(self).phase() == old(
                    self,
                ).phase() && final(self).success() == old(self).success(),
            },
    {
        match self.phase {
            FlowPhase::AwaitProfiles => match result {
                CallResult::Profiles(rows) => {
                    let registered = match &rows {
                        Ok(v) => lists_profile(v, self.selected.name.as_str()),
                        Err(_) => false,
                    };
                    if registered {
                        self.phase = FlowPhase::AwaitSwitch;
                        FlowStep::Call(ClientCall::SwitchTo(self.selected.name.clone()))
                    } else {
                        self.begin_login(false)
                    }
                },
                _ => FlowStep::Call(ClientCall::ListProfiles),
            },
            FlowPhase::AwaitSwitch => match result {
                CallResult::Switched(Ok(())) => {
                    self.phase = FlowPhase::AwaitLoggedOut;
                    FlowStep::Call(ClientCall::CheckLoggedOut)
                },
                CallResult::Switched(Err(_)) => self.begin_login(false),
                _ => FlowStep::Call(ClientCall::SwitchTo(self.selected.name.clone())),
            },
            FlowPhase::AwaitLoggedOut => match result {
                CallResult::LoggedOut(Ok(true)) => self.begin_login(true),
                CallResult::LoggedOut(_) => self.ask_status(Success::Switched),
                _ => FlowStep::Call(ClientCall::CheckLoggedOut),
            },
            FlowPhase::AwaitBringUp => match result {
                CallResult::BroughtUp(Ok(())) => self.ask_status(Success::Connected),
                CallResult::BroughtUp(Err(e)) => {
                    self.phase = FlowPhase::Finished;
                    FlowStep::Finished(Err(e))
                },
                _ => FlowStep::Call(ClientCall::BringUpWithKey(self.target.clone())),
            },
            FlowPhase::AwaitCapture => match result {
                CallResult::Captured(Ok(AuthCapture::Found(url))) => {
                    self.phase = FlowPhase::Finished;
                    FlowStep::Finished(Ok(Outcome::NeedsInteractiveAuth { url }))
                },
                CallResult::Captured(Ok(AuthCapture::TimedOut)) => self.ask_status(
                    Success::UrlWaitTimedOut,
                ),
                CallResult::Captured(Err(e)) => {
                    self.phase = FlowPhase::Finished;
                    FlowStep::Finished(Err(e))
                },
                _ => FlowStep::Call(ClientCall::InteractiveLogin(self.target.clone())),
            },
            _ => match result {
                CallResult::Status(st) => {
                    self.phase = FlowPhase::Finished;
                    let status = match st {
                        Ok(s) => Some(s),
                        Err(_) => None,
                    };
                    let o = match self.success {
                        Success::Switched => Outcome::Switched { status },
                        Success::Connected => Outcome::ConnectedDirect {
                            status,
                            url_wait_timed_out: false,
                        },
                        Success::UrlWaitTimedOut => Outcome::ConnectedDirect {
                            status,
                            url_wait_timed_out: true,
                        },
                    };
                    FlowStep::Finished(Ok(o))
                },
                _ => FlowStep::Call(ClientCall::Status),
            },
        }
    }
}

impl TailscaleClient {
    /// The foreground command that carries out `call`. An interactive login
    /// has none: it is started in the background from `login_script` and
    /// followed with an `AuthUrlWatch`.
    pub fn invocation(&self, call: &ClientCall) -> (r: Option<Invocation>)
        ensures
            match call {
                ClientCall::ListProfiles => r matches Some(i) && i.argv() == tool_argv(
                    self.uses_sudo(),
                    seq!["switch"@, "--list"@],
                ) && i.capture_output,
                ClientCall::SwitchTo(n) => r matches Some(i) && i.argv() == tool_argv(
                    self.uses_sudo(),
                    seq!["switch"@, n@],
                ) && !i.capture_output,
                ClientCall::CheckLoggedOut | ClientCall::Status => r matches Some(i) && i.argv()
                    == tool_argv(self.uses_sudo(), seq!["status"@]) && i.capture_output,
                ClientCall::BringUpWithKey(t) => r matches Some(i) && i.argv() == tool_argv(
                    self.uses_sudo(),
                    up_args(t@),
                ) && !i.capture_output,
                ClientCall::InteractiveLogin(_) => r is None,
                ClientCall::Logout => r matches Some(i) && i.argv() == tool_argv(
                    self.uses_sudo(),
                    seq!["logout"@],
                ) && !i.capture_output,
            },
    {
        match call {
            ClientCall::ListProfiles => Some(self.list_profiles_command()),
            ClientCall::SwitchTo(n) => Some(self.switch_command(n.as_str())),
            ClientCall::CheckLoggedOut | ClientCall::Status => Some(self.status_command()),
            ClientCall::BringUpWithKey(t) => Some(self.up_command(t)),
            ClientCall::InteractiveLogin(_) => None,
            ClientCall::Logout => Some(self.logout_command()),
        }
    }

    /// What the run of the command of `call`, ended as `done`, hands back to
    /// a selection. A logout and an interactive login hand back nothing here.
    pub fn call_result(&self, call: &ClientCall, done: &Completion) -> (r: Option<CallResult>)
        ensures
            match call {
                ClientCall::ListProfiles => r matches Some(CallResult::Profiles(x))
                    && reads_list_profiles(*done, x),
                ClientCall::SwitchTo(n) => r matches Some(CallResult::Switched(x))
                    && reads_switch_to(*done, n@, x),
                ClientCall::CheckLoggedOut => r matches Some(CallResult::LoggedOut(x))
                    && reads_is_logged_out(*done, x),
                ClientCall::BringUpWithKey(_) => r matches Some(CallResult::BroughtUp(x))
                    && reads_login_with_key(*done, x),
                ClientCall::Status => r matches Some(CallResult::Status(x)) && reads_status(
                    *done,
                    x,
                ),
                ClientCall::InteractiveLogin(_) | ClientCall::Logout => r is None,
            },
    {
        match call {
            ClientCall::ListProfiles => Some(CallResult::Profiles(self.list_profiles(done))),
            ClientCall::SwitchTo(n) => Some(CallResult::Switched(self.switch_to(n.as_str(), done))),
            ClientCall::CheckLoggedOut => Some(CallResult::LoggedOut(self.is_logged_out(done))),
            ClientCall::BringUpWithKey(_) => Some(CallResult::BroughtUp(self.login_with_key(done))),
            ClientCall::Status => Some(CallResult::Status(self.status(done))),
            ClientCall::InteractiveLogin(_) | ClientCall::Logout => None,
        }
    }
}

} // verus!
