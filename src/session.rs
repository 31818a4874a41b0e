//! The decisions of the top-level loop between two interaction cycles: which
//! actions end the session, which tailnet a settings refresh applies to, and
//! the text that reports what a command did.
use vstd::prelude::*;
use crate::config::{Config, Tailnet, TailnetView, declared_index, declares};
use crate::engine::{FlowPhase, Outcome, SelectionFlow};
use crate::tailscale::ClientError;
use crate::text::{join_with, joined};
use crate::ui::{App, AppAction, first_active};

verus! {

/// Whether the session ends once `action` has been carried out: a selection
/// and a quit do, the others come back to the menu with their output.
pub fn ends_session(action: &AppAction) -> (r: bool)
    ensures
        r == (action is SelectTailnet || action is Quit),
{
    match action {
        AppAction::SelectTailnet(_) | AppAction::Quit => true,
        _ => false,
    }
}

/// Whether there is nothing to offer: no registered profile and no declared
/// tailnet.
pub fn nothing_to_offer(profiles: &Vec<(String, String)>, declared: &Config) -> (r: bool)
    ensures
        r == (profiles@.len() == 0 && declared@.len() == 0),
{
    profiles.len() == 0 && declared.tailnets.len() == 0
}

/// The selection flow for the tailnet picked from the menu: the declared
/// tailnet of that name, with its login settings, where there is one.
pub fn selection_flow(picked: &Tailnet, declared: &Config) -> (r: SelectionFlow)
    ensures
        r.phase() == FlowPhase::Start,
        declares(declared@, picked@.name) ==> exists|k: int|
            declared_index(declared@, picked@.name, k) && r.selected() == declared@[k]
                && r.relogin() == declared@[k],
        !declares(declared@, picked@.name) ==> r.selected() == picked@ && r.relogin() == picked@,
{
    let identity = match declared.find(picked.name.as_str()) {
        Some(t) => t,
        None => picked.clone(),
    };
    SelectionFlow::new(identity, declared)
}

/// The name a settings refresh applies to: the highlighted entry, else the
/// first active one.
pub open spec fn refresh_name(app: &App, name: Seq<char>) -> bool {
    ||| (app.selection() matches Some(i) && i < app.options_view().len() && name
        == app.options_view()[i as int].name)
    ||| (!(app.selection() matches Some(i) && i < app.options_view().len()) && exists|k: int|
        first_active(app.options_view(), k) && name == app.options_view()[k].name)
}

/// The tailnet a settings refresh applies to, with the declared settings of
/// that name where there are some; `None` where nothing is highlighted or
/// active.
pub fn refresh_target(app: &App) -> (r: Option<Tailnet>)
    ensures
        match r {
            Some(t) => refresh_name(app, t@.name) && (declares(app.declared_view(), t@.name)
                ==> exists|k: int|
                declared_index(app.declared_view(), t@.name, k) && t@ == app.declared_view()[k])
                && (!declares(app.declared_view(), t@.name) ==> t@.login_server is None
                && t@.auth_key is None && t@.flags is None),
            None => !(app.selection() matches Some(i) && i < app.options_view().len()) && forall|
                k: int,
            |
                0 <= k < app.options_view().len() ==> !app.options_view()[k].is_active,
        },
{
    let name = match app.get_selected_tailnet_name() {
        Some(n) => n,
        None => match app.get_active_tailnet_name() {
            Some(n) => n,
            None => {
                return None;
            },
        },
    };
    Some(app.declared().find_or_named(name.as_str()))
}

/// The text shown after a settings refresh of `tailnet` (called `name`).
pub open spec fn refresh_text(
    name: Seq<char>,
    tailnet: TailnetView,
    up: Result<(), ClientError>,
    status: Option<Seq<char>>,
) -> Seq<char> {
    match up {
        Ok(()) => "✓ Successfully updated connection settings for '"@ + name + "'!\n"@ + (
        match tailnet.flags {
            Some(f) => "\nApplied flags: "@ + joined(f, " "@) + "\n"@,
            None => seq![],
        }) + (match status {
            Some(s) => seq!['\n'] + s,
            None => seq![],
        }),
        Err(e) => "✗ Failed to run tailscale up: "@ + e.message(),
    }
}

/// The title and text of the output view after a settings refresh; `status`
/// is the output of a `status` run made after it, where one could be had.
pub fn refresh_report(
    name: &str,
    tailnet: &Tailnet,
    up: &Result<(), ClientError>,
    status: Option<&String>,
) -> (r: (String, String))
    ensures
        r.0@ == "Tailscale Up - "@ + name@,
        r.1@ == refresh_text(
            name@,
            tailnet@,
            *up,
            match status {
                Some(s) => Some(s@),
                None => None,
            },
        ),
{
    let mut title = "Tailscale Up - ".to_owned();
    title.append(name);
    let body = match up {
        Ok(()) => {
            let mut b = "✓ Successfully updated connection settings for '".to_owned();
            b.append(name);
            b.append("'!\n");
            if let Some(f) = &tailnet.flags {
                b.append("\nApplied flags: ");
                b.append(join_with(f, " ").as_str());
                b.append("\n");
            }
            if let Some(s) = status {
                let nl = "\n";
                proof {
                    reveal_strlit("\n");
                }
                b.append(nl);
                b.append(s.as_str());
            }
            b
        },
        Err(e) => {
            let mut b = "✗ Failed to run tailscale up: ".to_owned();
            b.append(e.describe().as_str());
            b
        },
    };
    (title, body)
}

/// The text shown for a `status` request: the output, or what went wrong.
pub fn status_report(status: &Result<String, ClientError>) -> (r: String)
    ensures
        match status {
            Ok(s) => r@ == s@,
            Err(e) => r@ == "✗ Failed to get status: "@ + e.message(),
        },
{
    match status {
        Ok(s) => s.clone(),
        Err(e) => {
            let mut b = "✗ Failed to get status: ".to_owned();
            b.append(e.describe().as_str());
            b
        },
    }
}

/// The text shown after a logout.
pub fn logout_report(done: &Result<(), ClientError>) -> (r: String)
    ensures
        match done {
            Ok(()) => r@ == "✓ Successfully logged out!"@,
            Err(e) => r@ == "✗ Failed to logout: "@ + e.message(),
        },
{
    match done {
        Ok(()) => "✓ Successfully logged out!".to_owned(),
        Err(e) => {
            let mut b = "✗ Failed to logout: ".to_owned();
            b.append(e.describe().as_str());
            b
        },
    }
}

pub open spec fn status_lines(status: Option<Seq<char>>) -> Seq<char> {
    match status {
        Some(s) => "\nCurrent status:\n"@ + s,
        None => seq![],
    }
}

/// The text printed when a selection of the tailnet called `name` ended
/// with `outcome`.
pub open spec fn selection_text(name: Seq<char>, outcome: Result<Outcome, ClientError>) -> Seq<char> {
    match outcome {
        Ok(Outcome::Switched { status }) => "✓ Successfully switched to "@ + name + "!"@
            + status_lines(status.deep_view()),
        Ok(Outcome::ConnectedDirect { status, .. }) => "Successfully connected to "@ + name
            + "!"@ + status_lines(status.deep_view()),
        Ok(Outcome::NeedsInteractiveAuth { .. }) => "Authentication URL received. Opening URL display..."@,
        Err(e) => "✗ Failed to start tailscale connection: "@ + e.message(),
    }
}

fn append_status(b: &mut String, status: &Option<String>)
    ensures
        final(b)@ == old(b)@ + status_lines(status.deep_view()),
{
    if let Some(s) = status {
        b.append("\nCurrent status:\n");
        b.append(s.as_str());
    }
}

pub fn selection_report(name: &str, outcome: &Result<Outcome, ClientError>) -> (r: String)
    ensures
        r@ == selection_text(name@, *outcome),
{
    match outcome {
        Ok(Outcome::Switched { status }) => {
            let mut b = "✓ Successfully switched to ".to_owned();
            b.append(name);
            b.append("!");
            append_status(&mut b, status);
            b
        },
        Ok(Outcome::ConnectedDirect { status, .. }) => {
            let mut b = "Successfully connected to ".to_owned();
            b.append(name);
            b.append("!");
            append_status(&mut b, status);
            b
        },
        Ok(Outcome::NeedsInteractiveAuth { .. }) => {
            "Authentication URL received. Opening URL display...".to_owned()
        },
        Err(e) => {
            let mut b = "✗ Failed to start tailscale connection: ".to_owned();
            b.append(e.describe().as_str());
            b
        },
    }
}

/// What follows the URL prompt: whether the browser is launched, and the
/// text printed. Where it is not, the URL is printed to be opened by hand.
#[derive(Debug)]
pub struct PromptFollowUp {
    pub launch_browser: bool,
    pub message: String,
}

pub fn after_url_prompt(open_browser: bool, url: &str) -> (r: PromptFollowUp)
    ensures
        r.launch_browser == open_browser,
        open_browser ==> r.message@ == "Opening browser..."@,
        !open_browser ==> r.message@
            == "Exited without opening browser.\nYou can manually open this URL to complete authentication:\n"@
            + url@ + "\n\nTailscale is still running in the background waiting for authentication."@,
{
    if open_browser {
        PromptFollowUp { launch_browser: true, message: "Opening browser...".to_owned() }
    } else {
        let mut b =
            "Exited without opening browser.\nYou can manually open this URL to complete authentication:\n".to_owned();
        b.append(url);
        b.append("\n\nTailscale is still running in the background waiting for authentication.");
        PromptFollowUp { launch_browser: false, message: b }
    }
}

/// The text printed once a browser launch for `url` was tried; `failure`
/// says why it could not be started, where it could not.
pub fn after_browser_launch(failure: Option<&String>, url: &str, tailnet_name: &str) -> (r: String)
    ensures
        match failure {
            None => r@ == "✓ Browser launch initiated!\n✓ Please complete authentication in your browser.\n✓ Select the '"@
                + tailnet_name@
                + "' tailnet when prompted.\n\nTailscale is running in the background.\nRun 'tailscale status' in a few moments to verify connection.\n\nIf browser didn't open, manually open this URL:\n"@
                + url@,
            Some(why) => r@ == "✗ Failed to launch browser: "@ + why@
                + "\n\nPlease manually open this URL in your browser:\n"@ + url@,
        },
{
    match failure {
        None => {
            let mut b =
                "✓ Browser launch initiated!\n✓ Please complete authentication in your browser.\n✓ Select the '".to_owned();
            b.append(tailnet_name);
            b.append(
                "' tailnet when prompted.\n\nTailscale is running in the background.\nRun 'tailscale status' in a few moments to verify connection.\n\nIf browser didn't open, manually open this URL:\n",
            );
            b.append(url);
            b
        },
        Some(why) => {
            let mut b = "✗ Failed to launch browser: ".to_owned();
            b.append(why.as_str());
            b.append("\n\nPlease manually open this URL in your browser:\n");
            b.append(url);
            b
        },
    }
}

} // verus!
