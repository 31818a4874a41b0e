//! The command lines given to the Tailscale client and what their runs mean.
//! Each command is built here; whoever runs it hands back how it ended, and
//! the matching method reads the result.
use vstd::prelude::*;
use crate::config::{Tailnet, TailnetView};
use crate::text::{
    contains, contains_str, decimal, decimal_string, join_with, joined, lines, signed_decimal,
    signed_decimal_string, split_lines, split_words, words,
};

verus! {

/// A command line to run. Where `capture_output` is false the command keeps
/// the terminal (so that `sudo` can ask for a password).
#[derive(Debug)]
pub struct Invocation {
    pub program: String,
    pub args: Vec<String>,
    pub capture_output: bool,
}

impl Invocation {
    /// The program followed by its arguments.
    pub open spec fn argv(&self) -> Seq<Seq<char>> {
        seq![self.program@] + self.args.deep_view()
    }
}

/// How a run of an external command ended.
#[derive(Debug)]
pub enum Completion {
    /// The process could not be started, or not waited for.
    NotStarted { reason: String },
    /// The process ran; `code` is its exit code, `None` where a signal ended it.
    Exited { code: Option<i32>, stdout: String, stderr: String },
}

pub open spec fn succeeded(code: Option<i32>) -> bool {
    code == Some(0i32)
}

/// What went wrong with a command of the client.
#[derive(Debug)]
pub enum ClientError {
    /// The process of `action` could not be run.
    NotStarted { action: String, reason: String },
    LogoutFailed { code: Option<i32> },
    ListFailed,
    SwitchFailed { name: String },
    LoginFailed { code: Option<i32> },
    StatusFailed { stderr: String },
    UpFailed { code: Option<i32> },
}

/// An exit code as `{:?}` writes an `Option<i32>`.
pub open spec fn code_text(code: Option<i32>) -> Seq<char> {
    match code {
        Some(c) => "Some("@ + signed_decimal(c as int) + ")"@,
        None => "None"@,
    }
}

fn code_string(code: Option<i32>) -> (r: String)
    ensures
        r@ == code_text(code),
{
    match code {
        Some(c) => {
            let mut s = "Some(".to_owned();
            s.append(signed_decimal_string(c).as_str());
            s.append(")");
            s
        },
        None => "None".to_owned(),
    }
}

impl ClientError {
    pub open spec fn message(&self) -> Seq<char> {
        match self {
            ClientError::NotStarted { action, reason } => "Failed to execute "@ + action@ + ": "@
                + reason@,
            ClientError::LogoutFailed { code } => "Tailscale logout failed with exit code: "@
                + code_text(*code),
            ClientError::ListFailed => "Failed to list profiles"@,
            ClientError::SwitchFailed { name } => "Failed to switch to "@ + name@,
            ClientError::LoginFailed { code } => "Tailscale login failed with exit code: "@
                + code_text(*code),
            ClientError::StatusFailed { stderr } => "Tailscale status failed: "@ + stderr@,
            ClientError::UpFailed { code } => "Tailscale up failed with exit code: "@ + code_text(
                *code,
            ),
        }
    }

    /// The error as a line for the operator.
    pub fn describe(&self) -> (r: String)
        ensures
            r@ == self.message(),
    {
        match self {
            ClientError::NotStarted { action, reason } => {
                let mut s = "Failed to execute ".to_owned();
                s.append(action.as_str());
                s.append(": ");
                s.append(reason.as_str());
                s
            },
            ClientError::LogoutFailed { code } => {
                let mut s = "Tailscale logout failed with exit code: ".to_owned();
                s.append(code_string(*code).as_str());
                s
            },
            ClientError::ListFailed => "Failed to list profiles".to_owned(),
            ClientError::SwitchFailed { name } => {
                let mut s = "Failed to switch to ".to_owned();
                s.append(name.as_str());
                s
            },
            ClientError::LoginFailed { code } => {
                let mut s = "Tailscale login failed with exit code: ".to_owned();
                s.append(code_string(*code).as_str());
                s
            },
            ClientError::StatusFailed { stderr } => {
                let mut s = "Tailscale status failed: ".to_owned();
                s.append(stderr.as_str());
                s
            },
            ClientError::UpFailed { code } => {
                let mut s = "Tailscale up failed with exit code: ".to_owned();
                s.append(code_string(*code).as_str());
                s
            },
        }
    }
}

/// The full command line for the client with arguments `args`.
pub open spec fn tool_argv(use_sudo: bool, args: Seq<Seq<char>>) -> Seq<Seq<char>> {
    if use_sudo {
        seq!["sudo"@, "tailscale"@] + args
    } else {
        seq!["tailscale"@] + args
    }
}

pub open spec fn server_args(t: TailnetView) -> Seq<Seq<char>> {
    match t.login_server {
        Some(s) => seq!["--login-server"@, s],
        None => seq![],
    }
}

pub open spec fn key_args(t: TailnetView) -> Seq<Seq<char>> {
    match t.auth_key {
        Some(k) => seq!["--auth-key"@, k],
        None => seq![],
    }
}

pub open spec fn flag_args(t: TailnetView) -> Seq<Seq<char>> {
    match t.flags {
        Some(f) => f,
        None => seq![],
    }
}

/// The arguments of `up` for `t`: its server, its key, then its flags.
pub open spec fn up_args(t: TailnetView) -> Seq<Seq<char>> {
    seq!["up"@] + server_args(t) + key_args(t) + flag_args(t)
}

/// The arguments of an interactive `login` for `t`: its server, then its flags.
pub open spec fn login_args(t: TailnetView) -> Seq<Seq<char>> {
    seq!["login"@] + server_args(t) + flag_args(t)
}

/// The profile row that one line of `switch --list` gives: its second and
/// third words (the tailnet and the raw account), where it has two or more.
pub open spec fn profile_row(line: Seq<char>) -> Option<(Seq<char>, Seq<char>)> {
    let w = words(line);
    if w.len() >= 2 {
        Some((w[1], if w.len() > 2 { w[2] } else { seq![] }))
    } else {
        None
    }
}

pub open spec fn rows_of(ls: Seq<Seq<char>>) -> Seq<(Seq<char>, Seq<char>)>
    decreases ls.len(),
{
    if ls.len() == 0 {
        seq![]
    } else {
        let prev = rows_of(ls.drop_last());
        match profile_row(ls.last()) {
            Some(r) => prev.push(r),
            None => prev,
        }
    }
}

/// The profiles that a `switch --list` output lists: every line after the
/// header that has at least two words.
pub open spec fn profile_table(out: Seq<char>) -> Seq<(Seq<char>, Seq<char>)> {
    rows_of(lines(out).skip(1))
}

/// The profiles listed in `out`, the output of `switch --list`.
pub fn parse_profile_table(out: &str) -> (r: Vec<(String, String)>)
    ensures
        r.deep_view() == profile_table(out@),
{
    let ls = split_lines(out);
    let ghost lv = ls.deep_view();
    let ghost body = lv.skip(1);
    let mut rows: Vec<(String, String)> = Vec::new();
    if ls.len() == 0 {
        assert(body =~= seq![]);
        return rows;
    }
    let mut i: usize = 1;
    while i < ls.len()
        invariant
            1 <= i <= ls@.len(),
            lv == ls.deep_view(),
            body == lv.skip(1),
            rows.deep_view() == rows_of(body.take(i - 1)),
        decreases ls@.len() - i,
    {
        assert(body.take(i as int).drop_last() =~= body.take(i - 1));
        assert(body[i - 1] == lv[i as int]);
        let w = split_words(ls[i].as_str());
        if w.len() >= 2 {
            let account = if w.len() > 2 {
                w[2].clone()
            } else {
                String::new()
            };
            let ghost old_rows = rows.deep_view();
            let row = (w[1].clone(), account);
            rows.push(row);
            assert(rows.deep_view() =~= old_rows.push(row.deep_view()));
        }
        i += 1;
    }
    assert(body.take(i - 1) =~= body);
    rows
}

/// The path of the log that an interactive login started at time `stamp` writes.
pub open spec fn auth_log_path_spec(stamp: nat) -> Seq<char> {
    "/tmp/tailscale-auth-"@ + decimal(stamp) + ".log"@
}

pub fn auth_log_path(stamp: u64) -> (r: String)
    ensures
        r@ == auth_log_path_spec(stamp as nat),
{
    let mut s = "/tmp/tailscale-auth-".to_owned();
    s.append(decimal_string(stamp).as_str());
    s.append(".log");
    s
}

/// `r` is what a run of `logout` that ended as `done` means.
pub open spec fn reads_logout(done: Completion, r: Result<(), ClientError>) -> bool {
    match done {
        Completion::NotStarted { reason } => r matches Err(
            ClientError::NotStarted { action, reason: why },
        ) && action@ == "tailscale logout"@ && why@ == reason@,
        Completion::Exited { code, .. } => if succeeded(code) {
            r is Ok
        } else {
            r matches Err(ClientError::LogoutFailed { code: c }) && c == code
        },
    }
}

/// `r` is what a run of `switch --list` that ended as `done` means.
pub open spec fn reads_list_profiles(done: Completion, r: Result<Vec<(String, String)>, ClientError>) -> bool {
    match done {
        Completion::NotStarted { reason } => r matches Err(
            ClientError::NotStarted { action, reason: why },
        ) && action@ == "tailscale switch --list"@ && why@ == reason@,
        Completion::Exited { code, stdout, .. } => if succeeded(code) {
            r matches Ok(rows) && rows.deep_view() == profile_table(stdout@)
        } else {
            r matches Err(ClientError::ListFailed)
        },
    }
}

/// `r` is what a run of `switch` to `tailnet_name` that ended as `done` means.
pub open spec fn reads_switch_to(done: Completion, tailnet_name: Seq<char>, r: Result<(), ClientError>) -> bool {
    match done {
        Completion::NotStarted { reason } => r matches Err(
            ClientError::NotStarted { action, reason: why },
        ) && action@ == "tailscale switch"@ && why@ == reason@,
        Completion::Exited { code, .. } => if succeeded(code) {
            r is Ok
        } else {
            r matches Err(ClientError::SwitchFailed { name }) && name@ == tailnet_name
        },
    }
}

/// `r` is what a run of `status` that ended as `done` means.
pub open spec fn reads_status(done: Completion, r: Result<String, ClientError>) -> bool {
    match done {
        Completion::NotStarted { reason } => r matches Err(
            ClientError::NotStarted { action, reason: why },
        ) && action@ == "tailscale status"@ && why@ == reason@,
        Completion::Exited { code, stdout, stderr } => if succeeded(code) {
            r matches Ok(s) && s@ == stdout@
        } else {
            r matches Err(ClientError::StatusFailed { stderr: e }) && e@ == stderr@
        },
    }
}

/// `r` is what a run of `status` that ended as `done` says of a logged-out
/// profile: "Logged out" in its output or "Log in at:" in its errors,
/// whatever its exit code.
pub open spec fn reads_is_logged_out(done: Completion, r: Result<bool, ClientError>) -> bool {
    match done {
        Completion::NotStarted { reason } => r matches Err(
            ClientError::NotStarted { action, reason: why },
        ) && action@ == "tailscale status"@ && why@ == reason@,
        Completion::Exited { stdout, stderr, .. } => r == Ok::<bool, ClientError>(
            contains(stdout@, "Logged out"@) || contains(stderr@, "Log in at:"@),
        ),
    }
}

/// `r` is what a run of `up` that applies settings and ended as `done` means.
pub open spec fn reads_run_up(done: Completion, r: Result<(), ClientError>) -> bool {
    match done {
        Completion::NotStarted { reason } => r matches Err(
            ClientError::NotStarted { action, reason: why },
        ) && action@ == "tailscale up"@ && why@ == reason@,
        Completion::Exited { code, .. } => if succeeded(code) {
            r is Ok
        } else {
            r matches Err(ClientError::UpFailed { code: c }) && c == code
        },
    }
}

/// `r` is what a run of `up` that logs in with a key and ended as `done` means.
pub open spec fn reads_login_with_key(done: Completion, r: Result<(), ClientError>) -> bool {
    match done {
        Completion::NotStarted { reason } => r matches Err(
            ClientError::NotStarted { action, reason: why },
        ) && action@ == "tailscale up"@ && why@ == reason@,
        Completion::Exited { code, .. } => if succeeded(code) {
            r is Ok
        } else {
            r matches Err(ClientError::LoginFailed { code: c }) && c == code
        },
    }
}

/// Talks to the Tailscale client, through `sudo` where it needs elevation.
pub struct TailscaleClient {
    use_sudo: bool,
}

fn push_all(v: &mut Vec<String>, more: &Vec<String>)
    ensures
        final(v).deep_view() == old(v).deep_view() + more.deep_view(),
{
    let ghost start = v.deep_view();
    let mut i: usize = 0;
    while i < more.len()
        invariant
            i <= more@.len(),
            v.deep_view() == start + more.deep_view().take(i as int),
        decreases more@.len() - i,
    {
        let ghost before = v.deep_view();
        v.push(more[i].clone());
        assert(v.deep_view() =~= before.push(more.deep_view()[i as int]));
        i += 1;
        assert(start + more.deep_view().take(i as int) =~= before.push(
            more.deep_view()[i - 1],
        ));
    }
    assert(more.deep_view().take(i as int) =~= more.deep_view());
}

fn push_str(v: &mut Vec<String>, s: &str)
    ensures
        final(v).deep_view() == old(v).deep_view().push(s@),
{
    let ghost before = v.deep_view();
    v.push(s.to_owned());
    assert(v.deep_view() =~= before.push(s@));
}

fn server_and_flags(t: &Tailnet, with_key: bool, first: &str) -> (r: Vec<String>)
    ensures
        r.deep_view() == seq![first@] + server_args(t@) + (if with_key {
            key_args(t@)
        } else {
            seq![]
        }) + flag_args(t@),
{
    let mut v: Vec<String> = Vec::new();
    push_str(&mut v, first);
    if let Some(s) = &t.login_server {
        push_str(&mut v, "--login-server");
        push_str(&mut v, s.as_str());
    }
    if with_key {
        if let Some(k) = &t.auth_key {
            push_str(&mut v, "--auth-key");
            push_str(&mut v, k.as_str());
        }
    }
    if let Some(f) = &t.flags {
        push_all(&mut v, f);
    }
    assert(v.deep_view() =~= seq![first@] + server_args(t@) + (if with_key {
        key_args(t@)
    } else {
        seq![]
    }) + flag_args(t@));
    v
}

/// The arguments of `up` for `t`.
pub fn up_arguments(t: &Tailnet) -> (r: Vec<String>)
    ensures
        r.deep_view() == up_args(t@),
{
    server_and_flags(t, true, "up")
}

/// The arguments of an interactive `login` for `t`.
pub fn login_arguments(t: &Tailnet) -> (r: Vec<String>)
    ensures
        r.deep_view() == login_args(t@),
{
    let r = server_and_flags(t, false, "login");
    assert(r.deep_view() =~= login_args(t@));
    r
}

fn one_arg(a: &str) -> (r: Vec<String>)
    ensures
        r.deep_view() == seq![a@],
{
    let mut v: Vec<String> = Vec::new();
    push_str(&mut v, a);
    assert(v.deep_view() =~= seq![a@]);
    v
}

fn two_args(a: &str, b: &str) -> (r: Vec<String>)
    ensures
        r.deep_view() == seq![a@, b@],
{
    let mut v: Vec<String> = Vec::new();
    push_str(&mut v, a);
    push_str(&mut v, b);
    assert(v.deep_view() =~= seq![a@, b@]);
    v
}

/// The error for a process of `action` that could not be run.
fn not_started(action: &str, reason: &String) -> (e: ClientError)
    ensures
        e matches ClientError::NotStarted { action: a, reason: r } && a@ == action@ && r@
            == reason@,
{
    ClientError::NotStarted { action: action.to_owned(), reason: reason.clone() }
}

impl TailscaleClient {
    pub closed spec fn uses_sudo(&self) -> bool {
        self.use_sudo
    }

    pub fn new(use_sudo: bool) -> (r: Self)
        ensures
            r.uses_sudo() == use_sudo,
    {
        TailscaleClient { use_sudo }
    }

    /// The client run with `args`, prefixed with `sudo` where needed.
    pub fn command(&self, args: Vec<String>, capture_output: bool) -> (r: Invocation)
        ensures
            r.argv() == tool_argv(self.uses_sudo(), args.deep_view()),
            r.capture_output == capture_output,
    {
        if self.use_sudo {
            let mut full = one_arg("tailscale");
            push_all(&mut full, &args);
            let r = Invocation { program: "sudo".to_owned(), args: full, capture_output };
            assert(r.argv() =~= tool_argv(self.uses_sudo(), args.deep_view()));
            r
        } else {
            let r = Invocation { program: "tailscale".to_owned(), args, capture_output };
            assert(r.argv() =~= tool_argv(self.uses_sudo(), args.deep_view()));
            r
        }
    }

    pub fn logout_command(&self) -> (r: Invocation)
        ensures
            r.argv() == tool_argv(self.uses_sudo(), seq!["logout"@]),
            !r.capture_output,
    {
        self.command(one_arg("logout"), false)
    }

    /// Reads the run of `logout`.
    pub fn logout(&self, done: &Completion) -> (r: Result<(), ClientError>)
        ensures
            reads_logout(*done, r),
    {
        match done {
            Completion::NotStarted { reason } => Err(not_started("tailscale logout", reason)),
            Completion::Exited { code, .. } => {
                if *code == Some(0i32) {
                    Ok(())
                } else {
                    Err(ClientError::LogoutFailed { code: *code })
                }
            },
        }
    }

    pub fn list_profiles_command(&self) -> (r: Invocation)
        ensures
            r.argv() == tool_argv(self.uses_sudo(), seq!["switch"@, "--list"@]),
            r.capture_output,
    {
        self.command(two_args("switch", "--list"), true)
    }

    /// Reads the run of `switch --list`: the profiles as `(tailnet, raw
    /// account)`, the account keeping the active marker.
    pub fn list_profiles(&self, done: &Completion) -> (r: Result<Vec<(String, String)>, ClientError>)
        ensures
            reads_list_profiles(*done, r),
    {
        match done {
            Completion::NotStarted { reason } => Err(not_started("tailscale switch --list", reason)),
            Completion::Exited { code, stdout, .. } => {
                if *code == Some(0i32) {
                    Ok(parse_profile_table(stdout.as_str()))
                } else {
                    Err(ClientError::ListFailed)
                }
            },
        }
    }

    pub fn switch_command(&self, tailnet_name: &str) -> (r: Invocation)
        ensures
            r.argv() == tool_argv(self.uses_sudo(), seq!["switch"@, tailnet_name@]),
            !r.capture_output,
    {
        self.command(two_args("switch", tailnet_name), false)
    }

    /// Reads the run of `switch <tailnet_name>`.
    pub fn switch_to(&self, tailnet_name: &str, done: &Completion) -> (r: Result<(), ClientError>)
        ensures
            reads_switch_to(*done, tailnet_name@, r),
    {
        match done {
            Completion::NotStarted { reason } => Err(not_started("tailscale switch", reason)),
            Completion::Exited { code, .. } => {
                if *code == Some(0i32) {
                    Ok(())
                } else {
                    Err(ClientError::SwitchFailed { name: tailnet_name.to_owned() })
                }
            },
        }
    }

    pub fn status_command(&self) -> (r: Invocation)
        ensures
            r.argv() == tool_argv(self.uses_sudo(), seq!["status"@]),
            r.capture_output,
    {
        self.command(one_arg("status"), true)
    }

    /// Reads the run of `status`: its standard output.
    pub fn status(&self, done: &Completion) -> (r: Result<String, ClientError>)
        ensures
            reads_status(*done, r),
    {
        match done {
            Completion::NotStarted { reason } => Err(not_started("tailscale status", reason)),
            Completion::Exited { code, stdout, stderr } => {
                if *code == Some(0i32) {
                    Ok(stdout.clone())
                } else {
                    Err(ClientError::StatusFailed { stderr: stderr.clone() })
                }
            },
        }
    }

    /// Reads a run of `status` for signs of a logged-out profile: "Logged out"
    /// in its output or "Log in at:" in its errors, whatever its exit code.
    pub fn is_logged_out(&self, done: &Completion) -> (r: Result<bool, ClientError>)
        ensures
            reads_is_logged_out(*done, r),
    {
        match done {
            Completion::NotStarted { reason } => Err(not_started("tailscale status", reason)),
            Completion::Exited { stdout, stderr, .. } => {
                Ok(contains_str(stdout.as_str(), "Logged out") || contains_str(
                    stderr.as_str(),
                    "Log in at:",
                ))
            },
        }
    }

    /// `up` with the server, key and flags of `tailnet`, in the foreground.
    pub fn up_command(&self, tailnet: &Tailnet) -> (r: Invocation)
        ensures
            r.argv() == tool_argv(self.uses_sudo(), up_args(tailnet@)),
            !r.capture_output,
    {
        self.command(up_arguments(tailnet), false)
    }

    /// Reads the run of `up` that applies the settings of `tailnet`.
    pub fn run_up(&self, tailnet: &Tailnet, done: &Completion) -> (r: Result<(), ClientError>)
        ensures
            reads_run_up(*done, r),
    {
        match done {
            Completion::NotStarted { reason } => Err(not_started("tailscale up", reason)),
            Completion::Exited { code, .. } => {
                if *code == Some(0i32) {
                    Ok(())
                } else {
                    Err(ClientError::UpFailed { code: *code })
                }
            },
        }
    }

    /// Reads the run of `up` that logs in with an authentication key.
    pub fn login_with_key(&self, done: &Completion) -> (r: Result<(), ClientError>)
        ensures
            reads_login_with_key(*done, r),
    {
        match done {
            Completion::NotStarted { reason } => Err(not_started("tailscale up", reason)),
            Completion::Exited { code, .. } => {
                if *code == Some(0i32) {
                    Ok(())
                } else {
                    Err(ClientError::LoginFailed { code: *code })
                }
            },
        }
    }

    /// The error for an interactive login whose background process could not
    /// be started.
    pub fn login_start_error(&self, reason: &String) -> (e: ClientError)
        ensures
            e matches ClientError::NotStarted { action: a, reason: r } && a@ == "tailscale login"@
                && r@ == reason@,
    {
        not_started("tailscale login", reason)
    }

    /// The shell line that starts an interactive login for `tailnet` in the
    /// background, its output going to `log_file`.
    pub fn login_script(&self, tailnet: &Tailnet, log_file: &str) -> (r: String)
        ensures
            r@ == joined(tool_argv(self.uses_sudo(), login_args(tailnet@)), " "@) + " > "@
                + log_file@ + " 2>&1 &"@,
    {
        let mut line: Vec<String> = Vec::new();
        if self.use_sudo {
            push_str(&mut line, "sudo");
        }
        push_str(&mut line, "tailscale");
        push_all(&mut line, &login_arguments(tailnet));
        assert(line.deep_view() =~= tool_argv(self.uses_sudo(), login_args(tailnet@)));
        let mut s = join_with(&line, " ");
        s.append(" > ");
        s.append(log_file);
        s.append(" 2>&1 &");
        s
    }
}

} // verus!
