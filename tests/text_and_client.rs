use tailswitch::config::{Config, Tailnet, config_file_in, join_path};
use tailswitch::tailscale::{
    ClientError, Completion, TailscaleClient, auth_log_path, login_arguments, parse_profile_table,
    up_arguments,
};
use tailswitch::text::{
    contains_str, decimal_string, join_with, signed_decimal_string, split_lines, split_words,
    trim_end_matching,
};

fn exited(code: i32, stdout: &str, stderr: &str) -> Completion {
    Completion::Exited { code: Some(code), stdout: stdout.to_string(), stderr: stderr.to_string() }
}

fn strings(v: &[&str]) -> Vec<String> {
    v.iter().map(|s| s.to_string()).collect()
}

#[test]
fn words_split_on_any_white_space() {
    assert_eq!(split_words("  a\tbb \u{00a0}c\n"), strings(&["a", "bb", "c"]));
    assert_eq!(split_words(""), Vec::<String>::new());
    assert_eq!(split_words("   "), Vec::<String>::new());
}

#[test]
fn lines_keep_empty_pieces() {
    assert_eq!(split_lines("a\n\nb"), strings(&["a", "", "b"]));
    assert_eq!(split_lines("a\n"), strings(&["a", ""]));
}

#[test]
fn decimal_digits() {
    assert_eq!(decimal_string(0), "0");
    assert_eq!(decimal_string(1700000000), "1700000000");
    assert_eq!(decimal_string(u64::MAX), "18446744073709551615");
    assert_eq!(signed_decimal_string(-42), "-42");
    assert_eq!(signed_decimal_string(i32::MIN), "-2147483648");
}

#[test]
fn joining_and_trimming() {
    assert_eq!(join_with(&strings(&["a", "b", "c"]), " "), "a b c");
    assert_eq!(join_with(&Vec::new(), " "), "");
    assert_eq!(trim_end_matching("user@x**", '*'), "user@x");
    assert_eq!(trim_end_matching("user@x", '*'), "user@x");
    assert!(contains_str("Tailscale is stopped. Logged out.", "Logged out"));
    assert!(!contains_str("Logged", "Logged out"));
}

#[test]
fn profile_table_skips_header_and_short_lines() {
    let out = "ID    Tailnet             Account\n\
               a1    Work                user@x*\n\
               b2    Home                me@home\n\
               c3\n\
               d4    Lonely\n";
    let rows = parse_profile_table(out);
    assert_eq!(
        rows,
        vec![
            ("Work".to_string(), "user@x*".to_string()),
            ("Home".to_string(), "me@home".to_string()),
            ("Lonely".to_string(), String::new()),
        ]
    );
    assert!(parse_profile_table("").is_empty());
    assert!(parse_profile_table("ID Tailnet Account").is_empty());
}

#[test]
fn list_profiles_reads_exit_status() {
    let c = TailscaleClient::new(false);
    let ok = c.list_profiles(&exited(0, "ID T A\n1 Work user@x*\n", ""));
    assert_eq!(ok.unwrap(), vec![("Work".to_string(), "user@x*".to_string())]);
    assert!(matches!(c.list_profiles(&exited(1, "", "")), Err(ClientError::ListFailed)));
    let ns = c.list_profiles(&Completion::NotStarted { reason: "no such file".to_string() });
    assert_eq!(ns.unwrap_err().describe(), "Failed to execute tailscale switch --list: no such file");
}

#[test]
fn command_lines_with_and_without_sudo() {
    let plain = TailscaleClient::new(false).switch_command("Work");
    assert_eq!(plain.program, "tailscale");
    assert_eq!(plain.args, strings(&["switch", "Work"]));
    assert!(!plain.capture_output);
    let sudo = TailscaleClient::new(true).status_command();
    assert_eq!(sudo.program, "sudo");
    assert_eq!(sudo.args, strings(&["tailscale", "status"]));
    assert!(sudo.capture_output);
    let lo = TailscaleClient::new(false).logout_command();
    assert_eq!(lo.args, strings(&["logout"]));
}

#[test]
fn up_and_login_arguments() {
    let t = Tailnet {
        name: "Home".to_string(),
        login_server: Some("https://hs.example".to_string()),
        auth_key: Some("k1".to_string()),
        flags: Some(strings(&["--accept-routes", "--ssh"])),
    };
    assert_eq!(
        up_arguments(&t),
        strings(&["up", "--login-server", "https://hs.example", "--auth-key", "k1", "--accept-routes", "--ssh"])
    );
    assert_eq!(
        login_arguments(&t),
        strings(&["login", "--login-server", "https://hs.example", "--accept-routes", "--ssh"])
    );
    assert_eq!(up_arguments(&Tailnet::named("X".to_string())), strings(&["up"]));
}

#[test]
fn login_script_and_log_path() {
    let log = auth_log_path(1700000000);
    assert_eq!(log, "/tmp/tailscale-auth-1700000000.log");
    let t = Tailnet {
        name: "Travel".to_string(),
        login_server: None,
        auth_key: None,
        flags: Some(strings(&["--ssh"])),
    };
    assert_eq!(
        TailscaleClient::new(true).login_script(&t, &log),
        "sudo tailscale login --ssh > /tmp/tailscale-auth-1700000000.log 2>&1 &"
    );
    assert_eq!(
        TailscaleClient::new(false).login_script(&Tailnet::named("T".to_string()), "/tmp/l.log"),
        "tailscale login > /tmp/l.log 2>&1 &"
    );
}

#[test]
fn status_and_logged_out_detection() {
    let c = TailscaleClient::new(false);
    assert_eq!(c.status(&exited(0, "100.1.2.3 host", "")).unwrap(), "100.1.2.3 host");
    assert_eq!(
        c.status(&exited(1, "", "daemon down")).unwrap_err().describe(),
        "Tailscale status failed: daemon down"
    );
    assert!(c.is_logged_out(&exited(0, "Logged out.", "")).unwrap());
    assert!(c.is_logged_out(&exited(1, "", "Log in at: https://login.tailscale.com/a/x")).unwrap());
    assert!(!c.is_logged_out(&exited(0, "100.1.2.3 host", "")).unwrap());
}

#[test]
fn exit_codes_in_messages() {
    let c = TailscaleClient::new(false);
    let t = Tailnet::named("Work".to_string());
    assert_eq!(
        c.run_up(&t, &exited(1, "", "")).unwrap_err().describe(),
        "Tailscale up failed with exit code: Some(1)"
    );
    assert!(c.run_up(&t, &exited(0, "", "")).is_ok());
    let killed = Completion::Exited { code: None, stdout: String::new(), stderr: String::new() };
    assert_eq!(
        c.logout(&killed).unwrap_err().describe(),
        "Tailscale logout failed with exit code: None"
    );
    assert_eq!(
        c.login_with_key(&exited(-2, "", "")).unwrap_err().describe(),
        "Tailscale login failed with exit code: Some(-2)"
    );
    assert_eq!(
        c.switch_to("Work", &exited(3, "", "")).unwrap_err().describe(),
        "Failed to switch to Work"
    );
    assert!(c.switch_to("Work", &exited(0, "", "")).is_ok());
    assert_eq!(
        c.login_start_error(&"denied".to_string()).describe(),
        "Failed to execute tailscale login: denied"
    );
}

#[test]
fn config_paths_and_defaults() {
    assert_eq!(config_file_in("/home/a/.config"), "/home/a/.config/tailswitch/config.toml");
    assert_eq!(config_file_in("/home/a/.config/"), "/home/a/.config/tailswitch/config.toml");
    assert_eq!(join_path("", "x"), "x");
    let d = Config::default();
    assert_eq!(d.tailnets.len(), 2);
    assert_eq!(d.tailnets[0].name, "Personal");
    assert_eq!(d.tailnets[1].login_server.as_deref(), Some("https://login.tailscale.com"));
    let found = d.find("Work").unwrap();
    assert_eq!(found.name, "Work");
    assert!(d.find("Nope").is_none());
    assert_eq!(d.find_or_named("Nope").name, "Nope");
    if let Ok(p) = Config::get_config_path_string() {
        assert!(p.ends_with("tailswitch/config.toml"));
    }
}
