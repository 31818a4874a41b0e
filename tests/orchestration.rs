use tailswitch::config::{Config, Tailnet};
use tailswitch::engine::{CallResult, ClientCall, FlowStep, Outcome, SelectionFlow};
use tailswitch::registry::{Candidate, merge_with_declared};
use tailswitch::session::{
    after_browser_launch, after_url_prompt, ends_session, logout_report, nothing_to_offer,
    refresh_report,
    refresh_target, selection_report, status_report,
};
use tailswitch::tailscale::{ClientError, Completion, TailscaleClient};
use tailswitch::ui::{App, AppAction, Key, UrlDisplayApp};
use tailswitch::watcher::{AuthCapture, AuthUrlWatch, POLL_ATTEMPTS, PollStep, find_auth_url};

fn declared(name: &str, key: Option<&str>) -> Tailnet {
    Tailnet {
        name: name.to_string(),
        login_server: None,
        auth_key: key.map(|k| k.to_string()),
        flags: None,
    }
}

fn config(ts: Vec<Tailnet>) -> Config {
    Config { tailnets: ts }
}

fn row(name: &str, account: &str) -> (String, String) {
    (name.to_string(), account.to_string())
}

fn ok_done(stdout: &str) -> Completion {
    Completion::Exited { code: Some(0), stdout: stdout.to_string(), stderr: String::new() }
}

/// Runs a selection against scripted answers; the log reads are handed to a
/// watcher one per poll. Returns the outcome and every call asked for.
fn run_flow(
    selected: Tailnet,
    cfg: &Config,
    profiles_out: Option<&str>,
    switch_code: i32,
    status_out: &str,
    log_reads: &[Option<&str>],
) -> (Result<Outcome, ClientError>, Vec<ClientCall>, u32) {
    let client = TailscaleClient::new(false);
    let mut flow = SelectionFlow::new(selected, cfg);
    let mut calls = Vec::new();
    let mut polls = 0;
    let mut step = flow.start();
    loop {
        let call = match step {
            FlowStep::Finished(r) => return (r, calls, polls),
            FlowStep::Call(c) => c,
        };
        let result = match &call {
            ClientCall::InteractiveLogin(_) => {
                let mut watch = AuthUrlWatch::new();
                let mut capture = None;
                for read in log_reads {
                    if let Some(c) = watch.poll(*read).capture() {
                        capture = Some(c);
                        break;
                    }
                }
                let capture = match capture {
                    Some(c) => c,
                    None => loop {
                        if let Some(c) = watch.poll(None).capture() {
                            break c;
                        }
                    },
                };
                polls = watch.attempts();
                CallResult::Captured(Ok(capture))
            }
            ClientCall::ListProfiles => {
                let done = match profiles_out {
                    Some(out) => ok_done(out),
                    None => Completion::Exited { code: Some(1), stdout: String::new(), stderr: String::new() },
                };
                client.call_result(&call, &done).unwrap()
            }
            ClientCall::SwitchTo(_) => {
                let done = Completion::Exited { code: Some(switch_code), stdout: String::new(), stderr: String::new() };
                client.call_result(&call, &done).unwrap()
            }
            _ => client.call_result(&call, &ok_done(status_out)).unwrap(),
        };
        calls.push(call);
        step = flow.advance(result);
    }
}

#[test]
fn scenario_registered_profile_switches_fast() {
    let cfg = config(vec![declared("Work", None)]);
    let (r, calls, _) = run_flow(
        Tailnet::named("Work".to_string()),
        &cfg,
        Some("ID Tailnet Account\n1 Work user@x*\n"),
        0,
        "100.64.0.1 laptop",
        &[],
    );
    match r {
        Ok(Outcome::Switched { status }) => assert_eq!(status.as_deref(), Some("100.64.0.1 laptop")),
        other => panic!("unexpected {:?}", other),
    }
    assert!(matches!(calls[1], ClientCall::SwitchTo(ref n) if n == "Work"));
    assert!(calls.iter().all(|c| !matches!(c, ClientCall::InteractiveLogin(_) | ClientCall::BringUpWithKey(_) | ClientCall::Logout)));
}

#[test]
fn scenario_unregistered_with_key_brings_up() {
    let home = declared("Home", Some("k1"));
    let cfg = config(vec![home.clone()]);
    let (r, calls, _) = run_flow(home, &cfg, Some("ID Tailnet Account\n"), 0, "up", &[]);
    assert!(matches!(r, Ok(Outcome::ConnectedDirect { url_wait_timed_out: false, .. })));
    assert!(calls.iter().all(|c| !matches!(c, ClientCall::SwitchTo(_) | ClientCall::InteractiveLogin(_) | ClientCall::Logout)));
    let up = calls.iter().find_map(|c| match c {
        ClientCall::BringUpWithKey(t) => Some(t.clone()),
        _ => None,
    });
    let up = up.expect("bring-up asked for");
    let inv = TailscaleClient::new(false).invocation(&ClientCall::BringUpWithKey(up)).unwrap();
    assert_eq!(inv.args, vec!["up".to_string(), "--auth-key".to_string(), "k1".to_string()]);
}

#[test]
fn scenario_interactive_login_captures_url_on_third_read() {
    let travel = declared("Travel", None);
    let cfg = config(vec![travel.clone()]);
    let reads = [
        None,
        Some("starting\n"),
        Some("To authenticate, visit:\n\n\thttps://login.tailscale.com/a/abc123\n\nmore"),
        Some("https://login.tailscale.com/a/later"),
    ];
    let (r, calls, polls) = run_flow(travel, &cfg, Some(""), 0, "", &reads);
    let url = match r {
        Ok(Outcome::NeedsInteractiveAuth { url }) => url,
        other => panic!("unexpected {:?}", other),
    };
    assert_eq!(url, "https://login.tailscale.com/a/abc123");
    assert_eq!(polls, 3);
    assert!(calls.iter().all(|c| !matches!(c, ClientCall::Logout | ClientCall::SwitchTo(_))));
    let prompt = UrlDisplayApp::new(url.clone(), "Travel".to_string());
    assert_eq!(prompt.handle_key(Key::Esc), Some(false));
    let follow = after_url_prompt(false, prompt.url());
    assert!(!follow.launch_browser);
    assert!(follow.message.contains("https://login.tailscale.com/a/abc123"));
}

#[test]
fn login_without_url_times_out_after_all_attempts() {
    let travel = declared("Travel", None);
    let cfg = config(vec![]);
    let (r, _, polls) = run_flow(travel, &cfg, None, 0, "st", &[Some("nothing here"); 60]);
    assert!(matches!(r, Ok(Outcome::ConnectedDirect { url_wait_timed_out: true, .. })));
    assert_eq!(polls, POLL_ATTEMPTS);
}

#[test]
fn failed_switch_falls_back_to_login_with_selection() {
    let cfg = config(vec![declared("Work", Some("kw"))]);
    let (r, calls, _) = run_flow(
        Tailnet::named("Work".to_string()),
        &cfg,
        Some("ID T A\n1 Work u*\n"),
        1,
        "",
        &[Some("https://login.tailscale.com/a/zz")],
    );
    assert!(matches!(r, Ok(Outcome::NeedsInteractiveAuth { .. })));
    assert!(matches!(calls.last(), Some(ClientCall::InteractiveLogin(t)) if t.auth_key.is_none()));
}

#[test]
fn logged_out_after_switch_logs_in_with_declared_settings() {
    let cfg = config(vec![declared("Work", Some("kw"))]);
    let (r, calls, _) = run_flow(
        Tailnet::named("Work".to_string()),
        &cfg,
        Some("ID T A\n1 Work u\n"),
        0,
        "Logged out.",
        &[],
    );
    assert!(matches!(r, Ok(Outcome::ConnectedDirect { url_wait_timed_out: false, .. })));
    assert!(calls.iter().any(|c| matches!(c, ClientCall::BringUpWithKey(t) if t.auth_key.as_deref() == Some("kw"))));
    assert!(calls.iter().all(|c| !matches!(c, ClientCall::Logout)));
}

#[test]
fn failed_bring_up_is_a_login_error() {
    let mut flow = SelectionFlow::new(declared("Home", Some("k")), &config(vec![]));
    flow.start();
    let step = flow.advance(CallResult::Profiles(Ok(vec![])));
    assert!(matches!(step, FlowStep::Call(ClientCall::BringUpWithKey(_))));
    let done = Completion::Exited { code: Some(1), stdout: String::new(), stderr: String::new() };
    let res = TailscaleClient::new(false).login_with_key(&done);
    match flow.advance(CallResult::BroughtUp(res)) {
        FlowStep::Finished(Err(e)) => assert_eq!(e.describe(), "Tailscale login failed with exit code: Some(1)"),
        other => panic!("unexpected {:?}", other),
    }
    assert!(flow.is_finished());
}

#[test]
fn mismatched_result_asks_again() {
    let mut flow = SelectionFlow::new(declared("Home", None), &config(vec![]));
    flow.start();
    let step = flow.advance(CallResult::Status(Ok(String::new())));
    assert!(matches!(step, FlowStep::Call(ClientCall::ListProfiles)));
}

#[test]
fn auth_url_extraction() {
    assert_eq!(
        find_auth_url("x https://login.tailscale.com/a/1\tz").as_deref(),
        Some("https://login.tailscale.com/a/1")
    );
    assert_eq!(find_auth_url("no url here\nhttps://example.com"), None);
    assert_eq!(
        find_auth_url("first https://login.tailscale.com/a/1\nsecond https://login.tailscale.com/a/2").as_deref(),
        Some("https://login.tailscale.com/a/1")
    );
    assert_eq!(find_auth_url("https://login.tailscale.com").as_deref(), Some("https://login.tailscale.com"));
}

#[test]
fn watcher_counts_attempts() {
    let mut w = AuthUrlWatch::new();
    assert!(matches!(w.poll(None), PollStep::Wait));
    assert!(matches!(w.poll(Some("x")), PollStep::Wait));
    match w.poll(Some("go to https://login.tailscale.com/a/q now")) {
        PollStep::Found(u) => assert_eq!(u, "https://login.tailscale.com/a/q"),
        other => panic!("unexpected {:?}", other),
    }
    assert_eq!(w.attempts(), 3);
    let mut w = AuthUrlWatch::new();
    for _ in 0..POLL_ATTEMPTS - 1 {
        assert!(matches!(w.poll(Some("")), PollStep::Wait));
    }
    assert!(matches!(w.poll(Some("")), PollStep::TimedOut));
    assert!(matches!(w.poll(Some("https://login.tailscale.com/a/late")), PollStep::TimedOut));
    assert_eq!(w.attempts(), POLL_ATTEMPTS);
    assert!(matches!(PollStep::TimedOut.capture(), Some(AuthCapture::TimedOut)));
    assert!(PollStep::Wait.capture().is_none());
}

#[test]
fn merge_lists_profiles_then_new_declared() {
    let reg = vec![row("Work", "user@x*"), row("Home", "me@home")];
    let decl = vec![declared("Travel", None), declared("Work", None), declared("Lab", None), declared("Travel", None)];
    let m = merge_with_declared(&reg, &decl);
    let names: Vec<&str> = m.iter().map(|c| c.name.as_str()).collect();
    assert_eq!(names, vec!["Work", "Home", "Travel", "Lab"]);
    assert!(m[0].is_active && m[0].is_registered);
    assert_eq!(m[0].display_account.as_deref(), Some("user@x"));
    assert!(!m[1].is_active && m[1].is_registered);
    assert!(!m[2].is_registered && !m[2].is_active && m[2].display_account.is_none());
    assert_eq!(m.iter().filter(|c| c.is_active).count(), 1);
    assert!(merge_with_declared(&vec![], &vec![]).is_empty());
}

fn candidates(names: &[&str], active: Option<usize>) -> Vec<Candidate> {
    names
        .iter()
        .enumerate()
        .map(|(i, n)| Candidate {
            name: n.to_string(),
            display_account: None,
            is_registered: true,
            is_active: Some(i) == active,
        })
        .collect()
}

#[test]
fn list_navigation_wraps() {
    let mut app = App::new_with_options(candidates(&["a", "b", "c"], None), config(vec![]));
    assert_eq!(app.selected_index(), Some(0));
    assert!(app.handle_key(Key::Up).is_none());
    assert_eq!(app.selected_index(), Some(2));
    assert!(app.handle_key(Key::Char('j')).is_none());
    assert_eq!(app.selected_index(), Some(0));
    app.next();
    app.next();
    assert_eq!(app.get_selected_tailnet_name().as_deref(), Some("c"));
    app.next();
    assert_eq!(app.selected_index(), Some(0));
    match app.handle_key(Key::Enter) {
        Some(AppAction::SelectTailnet(t)) => {
            assert_eq!(t.name, "a");
            assert!(t.auth_key.is_none() && t.flags.is_none());
        }
        other => panic!("unexpected {:?}", other),
    }
}

#[test]
fn empty_list_emits_no_selection() {
    let mut app = App::new_with_options(Vec::new(), config(vec![]));
    assert!(app.handle_key(Key::Down).is_none());
    assert!(app.handle_key(Key::Up).is_none());
    assert!(app.handle_key(Key::Enter).is_none());
    assert_eq!(app.selected_index(), None);
    assert!(app.get_active_tailnet_name().is_none());
    assert!(refresh_target(&app).is_none());
    assert!(matches!(app.handle_key(Key::Char('q')), Some(AppAction::Quit)));
}

#[test]
fn command_keys_and_output_view() {
    let mut app = App::new_with_options(candidates(&["a", "b"], Some(1)), config(vec![]));
    assert!(matches!(app.handle_key(Key::Char('u')), Some(AppAction::RunTailscaleUp)));
    assert!(matches!(app.handle_key(Key::Char('s')), Some(AppAction::ShowStatus)));
    assert!(matches!(app.handle_key(Key::Char('l')), Some(AppAction::Logout)));
    assert!(app.handle_key(Key::Char('x')).is_none());
    assert_eq!(app.get_active_tailnet_name().as_deref(), Some("b"));
    app.show_output("Logout".to_string(), "done".to_string());
    assert_eq!(app.output_view().unwrap().content, "done");
    assert!(app.handle_key(Key::Char('s')).is_none());
    assert!(app.output_view().is_some());
    assert!(app.handle_key(Key::Esc).is_none());
    assert!(app.output_view().is_none());
    app.show_output("Status".to_string(), "x".to_string());
    assert!(matches!(app.handle_key(Key::Char('q')), Some(AppAction::Quit)));
    assert!(app.output_view().is_none());
}

#[test]
fn url_prompt_keys() {
    let p = UrlDisplayApp::new("https://login.tailscale.com/a/1".to_string(), "T".to_string());
    assert_eq!(p.handle_key(Key::Enter), Some(true));
    assert_eq!(p.handle_key(Key::Char('q')), Some(false));
    assert_eq!(p.handle_key(Key::Char('c')), Some(false));
    assert_eq!(p.handle_key(Key::Down), None);
    assert_eq!(p.tailnet_name(), "T");
}

#[test]
fn refresh_uses_declared_settings() {
    let work = Tailnet {
        name: "Work".to_string(),
        login_server: None,
        auth_key: None,
        flags: Some(vec!["--ssh".to_string(), "--accept-routes".to_string()]),
    };
    let app = App::new_with_options(candidates(&["Work", "Home"], Some(1)), config(vec![work]));
    let t = refresh_target(&app).unwrap();
    assert_eq!(t.name, "Work");
    let (title, body) = refresh_report("Work", &t, &Ok(()), Some(&"st".to_string()));
    assert_eq!(title, "Tailscale Up - Work");
    assert_eq!(
        body,
        "✓ Successfully updated connection settings for 'Work'!\n\nApplied flags: --ssh --accept-routes\n\nst"
    );
    let (_, failed) = refresh_report("Home", &Tailnet::named("Home".to_string()), &Err(ClientError::UpFailed { code: Some(1) }), None);
    assert_eq!(failed, "✗ Failed to run tailscale up: Tailscale up failed with exit code: Some(1)");
}

#[test]
fn reports_for_status_logout_and_selection() {
    assert_eq!(status_report(&Ok("fine".to_string())), "fine");
    assert_eq!(
        status_report(&Err(ClientError::StatusFailed { stderr: "down".to_string() })),
        "✗ Failed to get status: Tailscale status failed: down"
    );
    assert_eq!(logout_report(&Ok(())), "✓ Successfully logged out!");
    assert_eq!(
        selection_report("Work", &Ok(Outcome::Switched { status: Some("s".to_string()) })),
        "✓ Successfully switched to Work!\nCurrent status:\ns"
    );
    assert_eq!(
        selection_report("Home", &Ok(Outcome::ConnectedDirect { status: None, url_wait_timed_out: true })),
        "Successfully connected to Home!"
    );
    assert!(ends_session(&AppAction::Quit));
    assert!(!ends_session(&AppAction::ShowStatus));
    assert_eq!(after_url_prompt(true, "u").message, "Opening browser...");
    assert!(after_browser_launch(Some(&"no setsid".to_string()), "https://u", "T").starts_with("✗ Failed to launch browser: no setsid"));
    assert!(after_browser_launch(None, "https://u", "T").ends_with("https://u"));
}

#[test]
fn nothing_to_offer_only_when_both_lists_are_empty() {
    assert!(nothing_to_offer(&vec![], &config(vec![])));
    assert!(!nothing_to_offer(&vec![row("Work", "u")], &config(vec![])));
    assert!(!nothing_to_offer(&vec![], &config(vec![declared("Home", None)])));
}
