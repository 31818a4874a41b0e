//! The declared tailnets and where their file lives.
use vstd::prelude::*;
use crate::text::same_text;

verus! {

/// A tailnet the operator wants to reach, with what a login to it needs.
#[derive(Debug)]
pub struct Tailnet {
    pub name: String,
    pub login_server: Option<String>,
    pub auth_key: Option<String>,
    pub flags: Option<Vec<String>>,
}

pub ghost struct TailnetView {
    pub name: Seq<char>,
    pub login_server: Option<Seq<char>>,
    pub auth_key: Option<Seq<char>>,
    pub flags: Option<Seq<Seq<char>>>,
}

impl View for Tailnet {
    type V = TailnetView;

    open spec fn view(&self) -> TailnetView {
        TailnetView {
            name: self.name@,
            login_server: self.login_server.deep_view(),
            auth_key: self.auth_key.deep_view(),
            flags: self.flags.deep_view(),
        }
    }
}

pub fn clone_strings(v: &Vec<String>) -> (r: Vec<String>)
    ensures
        r.deep_view() == v.deep_view(),
{
    let r = v.clone();
    assert(r@ =~= v@);
    r
}

impl Clone for Tailnet {
    fn clone(&self) -> (r: Self)
        ensures
            r@ == self@,
    {
        let flags = match &self.flags {
            Some(f) => Some(clone_strings(f)),
            None => None,
        };
        Tailnet {
            name: self.name.clone(),
            login_server: self.login_server.clone(),
            auth_key: self.auth_key.clone(),
            flags,
        }
    }
}

impl Tailnet {
    /// A tailnet known by its name alone, as an entry picked from the list.
    pub fn named(name: String) -> (r: Tailnet)
        ensures
            r@ == (TailnetView {
                name: name@,
                login_server: None,
                auth_key: None,
                flags: None,
            }),
    {
        Tailnet { name, login_server: None, auth_key: None, flags: None }
    }
}

/// The declared tailnets, in the order they were written.
#[derive(Debug, Clone)]
pub struct Config {
    pub tailnets: Vec<Tailnet>,
}

pub open spec fn tailnets_view(ts: Seq<Tailnet>) -> Seq<TailnetView> {
    ts.map_values(|t: Tailnet| t@)
}

impl View for Config {
    type V = Seq<TailnetView>;

    open spec fn view(&self) -> Seq<TailnetView> {
        tailnets_view(self.tailnets@)
    }
}

/// The index of the first declared tailnet called `name`, if any.
pub open spec fn declared_index(ts: Seq<TailnetView>, name: Seq<char>, k: int) -> bool {
    0 <= k < ts.len() && ts[k].name == name && forall|j: int| 0 <= j < k ==> ts[j].name != name
}

pub open spec fn declares(ts: Seq<TailnetView>, name: Seq<char>) -> bool {
    exists|k: int| 0 <= k < ts.len() && ts[k].name == name
}

impl Config {
    /// The first declared tailnet called `name`, with its login settings.
    pub fn find(&self, name: &str) -> (r: Option<Tailnet>)
        ensures
            match r {
                Some(t) => exists|k: int| declared_index(self@, name@, k) && t@ == self@[k],
                None => !declares(self@, name@),
            },
    {
        let mut i: usize = 0;
        while i < self.tailnets.len()
            invariant
                i <= self.tailnets@.len(),
                self@.len() == self.tailnets@.len(),
                forall|j: int| 0 <= j < i ==> self@[j].name != name@,
            decreases self.tailnets@.len() - i,
        {
            if same_text(self.tailnets[i].name.as_str(), name) {
                assert(declared_index(self@, name@, i as int));
                return Some(self.tailnets[i].clone());
            }
            i += 1;
        }
        None
    }

    /// The declared tailnet called `name`, or else one with that name and no
    /// login settings.
    pub fn find_or_named(&self, name: &str) -> (r: Tailnet)
        ensures
            declares(self@, name@) ==> exists|k: int| declared_index(self@, name@, k) && r@ == self@[k],
            !declares(self@, name@) ==> r@ == (TailnetView {
                name: name@,
                login_server: None,
                auth_key: None,
                flags: None,
            }),
    {
        match self.find(name) {
            Some(t) => t,
            None => Tailnet::named(name.to_owned()),
        }
    }
}

} // verus!

verus! {

/// Relies on dirs::config_dir: the user's configuration directory, where the
/// platform and the environment give one. Nothing is known of its value.
#[verifier::external_body]
fn user_config_dir() -> (r: Option<String>) {
    match dirs::config_dir() {
        Some(p) => Some(p.to_string_lossy().to_string()),
        None => None,
    }
}

/// `part` joined under the directory `dir`, with one separator between.
pub open spec fn path_join(dir: Seq<char>, part: Seq<char>) -> Seq<char> {
    if dir.len() == 0 || dir.last() == '/' {
        dir + part
    } else {
        dir + seq!['/'] + part
    }
}

pub fn join_path(dir: &str, part: &str) -> (r: String)
    ensures
        r@ == path_join(dir@, part@),
{
    let n = dir.unicode_len();
    let mut s = dir.to_owned();
    if n > 0 && dir.get_char(n - 1) != '/' {
        let sep = "/";
        proof {
            reveal_strlit("/");
        }
        s.append(sep);
    }
    s.append(part);
    s
}

/// The configuration file under the configuration directory `dir`.
pub open spec fn config_file_in_spec(dir: Seq<char>) -> Seq<char> {
    path_join(path_join(dir, "tailswitch"@), "config.toml"@)
}

pub fn config_file_in(dir: &str) -> (r: String)
    ensures
        r@ == config_file_in_spec(dir@),
{
    let app_dir = join_path(dir, "tailswitch");
    join_path(app_dir.as_str(), "config.toml")
}

/// Why the configuration file cannot be placed.
pub enum ConfigError {
    NoConfigDir,
}

impl ConfigError {
    pub fn describe(&self) -> (r: String)
        ensures
            r@ == "Failed to get config directory"@,
    {
        "Failed to get config directory".to_owned()
    }
}

impl Config {
    /// The path of the configuration file: `tailswitch/config.toml` under the
    /// user's configuration directory.
    pub fn get_config_path_string() -> (r: Result<String, ConfigError>)
        ensures
            r matches Ok(p) ==> exists|dir: Seq<char>| p@ == config_file_in_spec(dir),
    {
        match user_config_dir() {
            Some(dir) => Ok(config_file_in(dir.as_str())),
            None => Err(ConfigError::NoConfigDir),
        }
    }
}

impl Default for Config {
    /// A personal tailnet, and a work tailnet on the default login server.
    fn default() -> (r: Config)
        ensures
            r@ == seq![
                TailnetView { name: "Personal"@, login_server: None, auth_key: None, flags: None },
                TailnetView {
                    name: "Work"@,
                    login_server: Some("https://login.tailscale.com"@),
                    auth_key: None,
                    flags: None,
                },
            ],
    {
        let mut tailnets: Vec<Tailnet> = Vec::new();
        tailnets.push(Tailnet::named("Personal".to_owned()));
        tailnets.push(
            Tailnet {
                name: "Work".to_owned(),
                login_server: Some("https://login.tailscale.com".to_owned()),
                auth_key: None,
                flags: None,
            },
        );
        let r = Config { tailnets };
        assert(r@ =~= seq![
            TailnetView { name: "Personal"@, login_server: None, auth_key: None, flags: None },
            TailnetView {
                name: "Work"@,
                login_server: Some("https://login.tailscale.com"@),
                auth_key: None,
                flags: None,
            },
        ]);
        r
    }
}

} // verus!
