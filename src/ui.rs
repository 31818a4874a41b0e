//! The modal menu: a list of tailnets to move through and pick from, an
//! output view that shows what a command printed, and the prompt that shows
//! an authentication URL. Keys come in one at a time; a key that ends an
//! interaction cycle yields the action the operator chose.
use vstd::prelude::*;
use crate::config::{Config, Tailnet, TailnetView};
use crate::registry::{Candidate, CandidateView, candidates_view};

verus! {

/// What the operator asked for.
#[derive(Debug)]
pub enum AppAction {
    SelectTailnet(Tailnet),
    RunTailscaleUp,
    ShowStatus,
    Logout,
    Quit,
}

/// A key press, as far as the menus tell keys apart.
#[derive(Clone, Copy, PartialEq, Eq, Structural)]
pub enum Key {
    Up,
    Down,
    Enter,
    Esc,
    Char(char),
    Other,
}

/// The result of a command, shown until the operator goes back.
#[derive(Debug)]
pub struct OutputView {
    pub title: String,
    pub content: String,
}

/// The main menu.
pub struct App {
    options: Vec<Candidate>,
    selected: Option<usize>,
    config: Config,
    output_view: Option<OutputView>,
}

pub open spec fn next_index(i: Option<nat>, len: nat) -> Option<nat> {
    if len == 0 {
        None
    } else {
        match i {
            Some(k) => if k + 1 >= len {
                Some(0)
            } else {
                Some(k + 1)
            },
            None => Some(0),
        }
    }
}

pub open spec fn previous_index(i: Option<nat>, len: nat) -> Option<nat> {
    if len == 0 {
        None
    } else {
        match i {
            Some(k) => if k == 0 {
                Some((len - 1) as nat)
            } else {
                Some((k - 1) as nat)
            },
            None => Some(0),
        }
    }
}

/// Down from the last entry comes back to the first, and up from the first
/// goes to the last.
pub proof fn lemma_highlight_wraps(len: nat)
    requires
        len > 0,
    ensures
        next_index(Some((len - 1) as nat), len) == Some(0nat),
        previous_index(Some(0nat), len) == Some((len - 1) as nat),
{
}

pub open spec fn first_active(cs: Seq<CandidateView>, k: int) -> bool {
    0 <= k < cs.len() && cs[k].is_active && forall|j: int| 0 <= j < k ==> !cs[j].is_active
}

impl App {
    pub closed spec fn options_view(&self) -> Seq<CandidateView> {
        candidates_view(self.options@)
    }

    /// The highlighted entry.
    pub closed spec fn selection(&self) -> Option<nat> {
        match self.selected {
            Some(i) => Some(i as nat),
            None => None,
        }
    }

    /// The title and text of the output view, while it is shown.
    pub closed spec fn output(&self) -> Option<(Seq<char>, Seq<char>)> {
        match self.output_view {
            Some(o) => Some((o.title@, o.content@)),
            None => None,
        }
    }

    pub closed spec fn declared_view(&self) -> Seq<TailnetView> {
        self.config@
    }

    /// A highlight exactly when there are entries, and always on one of them.
    pub open spec fn wf(&self) -> bool {
        &&& (self.options_view().len() > 0) == (self.selection() is Some)
        &&& self.selection() matches Some(i) ==> i < self.options_view().len()
    }

    pub fn new_with_options(options: Vec<Candidate>, config: Config) -> (r: Self)
        ensures
            r.wf(),
            r.options_view() == candidates_view(options@),
            r.selection() == (if options@.len() > 0 {
                Some(0nat)
            } else {
                None
            }),
            r.output() is None,
            r.declared_view() == config@,
    {
        let selected = if options.len() > 0 {
            Some(0)
        } else {
            None
        };
        App { options, selected, config, output_view: None }
    }

    pub fn options(&self) -> (r: &Vec<Candidate>)
        ensures
            candidates_view(r@) == self.options_view(),
    {
        &self.options
    }

    pub fn selected_index(&self) -> (r: Option<usize>)
        ensures
            match r {
                Some(i) => self.selection() == Some(i as nat),
                None => self.selection() is None,
            },
    {
        self.selected
    }

    /// The declared tailnets the menu was built with.
    pub fn declared(&self) -> (r: &Config)
        ensures
            r@ == self.declared_view(),
    {
        &self.config
    }

    pub fn output_view(&self) -> (r: Option<&OutputView>)
        ensures
            match r {
                Some(o) => self.output() == Some((o.title@, o.content@)),
                None => self.output() is None,
            },
    {
        match &self.output_view {
            Some(o) => Some(o),
            None => None,
        }
    }

    /// Moves the highlight down, from the last entry to the first.
    pub fn next(&mut self)
        requires
            old(self).wf(),
        ensures
            final(self).wf(),
            final(self).selection() == next_index(
                old(self).selection(),
                old(self).options_view().len(),
            ),
            final(self).options_view() == old(self).options_view(),
            final(self).output() == old(self).output(),
            final(self).declared_view() == old(self).declared_view(),
    {
        let n = self.options.len();
        if n == 0 {
            return;
        }
        let i = match self.selected {
            Some(i) => if i >= n - 1 {
                0
            } else {
                i + 1
            },
            None => 0,
        };
        self.selected = Some(i);
    }

    /// Moves the highlight up, from the first entry to the last.
    pub fn previous(&mut self)
        requires
            old(self).wf(),
        ensures
            final(self).wf(),
            final(self).selection() == previous_index(
                old(self).selection(),
                old(self).options_view().len(),
            ),
            final(self).options_view() == old(self).options_view(),
            final(self).output() == old(self).output(),
            final(self).declared_view() == old(self).declared_view(),
    {
        let n = self.options.len();
        if n == 0 {
            return;
        }
        let i = match self.selected {
            Some(i) => if i == 0 {
                n - 1
            } else {
                i - 1
            },
            None => 0,
        };
        self.selected = Some(i);
    }

    /// The name of the highlighted entry.
    pub fn get_selected_tailnet_name(&self) -> (r: Option<String>)
        ensures
            match r {
                Some(n) => self.selection() matches Some(i) && i < self.options_view().len()
                    && n@ == self.options_view()[i as int].name,
                None => !(self.selection() matches Some(i) && i < self.options_view().len()),
            },
    {
        match self.selected {
            Some(i) => if i < self.options.len() {
                Some(self.options[i].name.clone())
            } else {
                None
            },
            None => None,
        }
    }

    /// The name of the first active entry.
    pub fn get_active_tailnet_name(&self) -> (r: Option<String>)
        ensures
            match r {
                Some(n) => exists|k: int|
                    first_active(self.options_view(), k) && n@ == self.options_view()[k].name,
                None => forall|k: int|
                    0 <= k < self.options_view().len() ==> !self.options_view()[k].is_active,
            },
    {
        let mut i: usize = 0;
        while i < self.options.len()
            invariant
                i <= self.options@.len(),
                self.options_view() == candidates_view(self.options@),
                forall|j: int| 0 <= j < i ==> !self.options_view()[j].is_active,
            decreases self.options@.len() - i,
        {
            if self.options[i].is_active {
                assert(first_active(self.options_view(), i as int));
                return Some(self.options[i].name.clone());
            }
            i += 1;
        }
        None
    }

    /// Shows `content` under `title` until the operator goes back.
    pub fn show_output(&mut self, title: String, content: String)
        requires
            old(self).wf(),
        ensures
            final(self).wf(),
            final(self).output() == Some((title@, content@)),
            final(self).options_view() == old(self).options_view(),
            final(self).selection() == old(self).selection(),
            final(self).declared_view() == old(self).declared_view(),
    {
        self.output_view = Some(OutputView { title, content });
    }

    /// Takes one key. Where it ends the interaction cycle, the action chosen.
    ///
    /// In the output view Enter and Esc go back to the list and `q` quits.
    /// In the list `j`/Down and `k`/Up move the highlight, Enter picks the
    /// highlighted tailnet, `u` applies its settings, `s` shows the status,
    /// `l` logs out and `q` quits. Other keys change nothing.
    pub fn handle_key(&mut self, key: Key) -> (r: Option<AppAction>)
        requires
            old(self).wf(),
        ensures
            final(self).wf(),
            final(self).options_view() == old(self).options_view(),
            final(self).declared_view() == old(self).declared_view(),
            old(self).options_view().len() == 0 && key == Key::Enter ==> r is None,
            old(self).output() is Some ==> {
                &&& final(self).selection() == old(self).selection()
                &&& (key == Key::Enter || key == Key::Esc) ==> r is None && final(self).output() is None
                &&& key == Key::Char('q') ==> (r matches Some(AppAction::Quit)) && final(self).output() is None
                &&& !(key == Key::Enter || key == Key::Esc || key == Key::Char('q')) ==> r is None
                    && final(self).output() == old(self).output()
            },
            old(self).output() is None ==> {
                &&& final(self).output() is None
                &&& (key == Key::Down || key == Key::Char('j')) ==> r is None
                    && final(self).selection() == next_index(
                    old(self).selection(),
                    old(self).options_view().len(),
                )
                &&& (key == Key::Up || key == Key::Char('k')) ==> r is None
                    && final(self).selection() == previous_index(
                    old(self).selection(),
                    old(self).options_view().len(),
                )
                &&& !(key == Key::Down || key == Key::Char('j') || key == Key::Up || key == Key::Char('k'))
                    ==> final(self).selection() == old(self).selection()
                &&& key == Key::Char('q') ==> (r matches Some(AppAction::Quit))
                &&& key == Key::Char('u') ==> (r matches Some(AppAction::RunTailscaleUp))
                &&& key == Key::Char('s') ==> (r matches Some(AppAction::ShowStatus))
                &&& key == Key::Char('l') ==> (r matches Some(AppAction::Logout))
                &&& key == Key::Enter ==> match old(self).selection() {
                    Some(i) => (r matches Some(AppAction::SelectTailnet(t)) && t@ == (TailnetView {
                        name: old(self).options_view()[i as int].name,
                        login_server: None,
                        auth_key: None,
                        flags: None,
                    })),
                    None => r is None,
                }
                &&& !(key == Key::Char('q') || key == Key::Char('u') || key == Key::Char('s')
                    || key == Key::Char('l') || key == Key::Enter) ==> r is None
            },
    {
        if self.output_view.is_some() {
            match key {
                Key::Enter | Key::Esc => {
                    self.output_view = None;
                    None
                },
                Key::Char('q') => {
                    self.output_view = None;
                    Some(AppAction::Quit)
                },
                _ => None,
            }
        } else {
            match key {
                Key::Char('q') => Some(AppAction::Quit),
                Key::Down | Key::Char('j') => {
                    self.next();
                    None
                },
                Key::Up | Key::Char('k') => {
                    self.previous();
                    None
                },
                Key::Char('u') => Some(AppAction::RunTailscaleUp),
                Key::Char('s') => Some(AppAction::ShowStatus),
                Key::Char('l') => Some(AppAction::Logout),
                Key::Enter => match self.selected {
                    Some(i) => if i < self.options.len() {
                        Some(AppAction::SelectTailnet(Tailnet::named(self.options[i].name.clone())))
                    } else {
                        None
                    },
                    None => None,
                },
                _ => None,
            }
        }
    }
}

/// The prompt that shows an authentication URL.
pub struct UrlDisplayApp {
    url: String,
    tailnet_name: String,
}

impl UrlDisplayApp {
    pub closed spec fn url_view(&self) -> Seq<char> {
        self.url@
    }

    pub closed spec fn name_view(&self) -> Seq<char> {
        self.tailnet_name@
    }

    pub fn new(url: String, tailnet_name: String) -> (r: Self)
        ensures
            r.url_view() == url@,
            r.name_view() == tailnet_name@,
    {
        UrlDisplayApp { url, tailnet_name }
    }

    pub fn url(&self) -> (r: &String)
        ensures
            r@ == self.url_view(),
    {
        &self.url
    }

    pub fn tailnet_name(&self) -> (r: &String)
        ensures
            r@ == self.name_view(),
    {
        &self.tailnet_name
    }

    /// Takes one key. Enter ends the prompt asking for the browser; `q`, Esc
    /// and `c` end it without; other keys change nothing.
    pub fn handle_key(&self, key: Key) -> (r: Option<bool>)
        ensures
            key == Key::Enter ==> r == Some(true),
            (key == Key::Char('q') || key == Key::Esc || key == Key::Char('c')) ==> r == Some(false),
            !(key == Key::Enter || key == Key::Char('q') || key == Key::Esc || key == Key::Char('c'))
                ==> r is None,
    {
        match key {
            Key::Enter => Some(true),
            Key::Char('q') | Key::Esc | Key::Char('c') => Some(false),
            _ => None,
        }
    }
}

} // verus!
