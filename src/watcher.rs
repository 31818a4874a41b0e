//! Capturing the one-time authentication URL that a backgrounded login
//! writes to its log: a bounded number of polls, each handed what the log
//! held at that moment.
use vstd::prelude::*;
use crate::text::{
    chars_of, find_first, find_run_end, first_occurrence, is_space, lemma_run_end, run_end,
};

verus! {

/// Where every authentication URL of the login service begins.
pub const AUTH_URL_PREFIX: &'static str = "https://login.tailscale.com";

/// How many times the log is read before the wait is given up.
pub const POLL_ATTEMPTS: u32 = 50;

/// The pause before each read of the log, in milliseconds.
pub const POLL_INTERVAL_MS: u64 = 200;

/// The URL that `s` holds: the run of non-white-space characters that starts
/// at the first place where the prefix stands.
pub open spec fn url_in(s: Seq<char>) -> Option<Seq<char>> {
    if exists|k: int| first_occurrence(s, AUTH_URL_PREFIX@, k) {
        let k = choose|k: int| first_occurrence(s, AUTH_URL_PREFIX@, k);
        Some(s.subrange(k, run_end(s, k)))
    } else {
        None
    }
}

/// The URL in the log contents `contents`, if there is one. Any URL found
/// starts with the prefix and holds no white space.
pub fn find_auth_url(contents: &str) -> (r: Option<String>)
    ensures
        match r {
            Some(u) => url_in(contents@) == Some(u@),
            None => url_in(contents@) is None,
        },
        r matches Some(u) ==> u@.len() >= AUTH_URL_PREFIX@.len() && u@.subrange(
            0,
            AUTH_URL_PREFIX@.len() as int,
        ) == AUTH_URL_PREFIX@ && forall|t: int| 0 <= t < u@.len() ==> !is_space(#[trigger] u@[t]),
{
    let s = chars_of(contents);
    let p = chars_of(AUTH_URL_PREFIX);
    match find_first(&s, &p) {
        Some(k) => {
            let e = find_run_end(&s, k);
            proof {
                reveal_strlit("https://login.tailscale.com");
                let k2 = choose|k2: int| first_occurrence(s@, p@, k2);
                assert(k2 == k as int) by {
                    if k2 < k {
                    } else if k2 > k {
                    }
                }
                lemma_run_end(s@, k as int);
                assert(!is_space(s@[k as int])) by {
                    assert(s@.subrange(k as int, k + p@.len())[0] == p@[0]);
                }
                assert forall|t: int| k <= t < k + p@.len() implies !is_space(s@[t]) by {
                    assert(s@.subrange(k as int, k + p@.len())[t - k] == p@[t - k]);
                }
                if e < k + p@.len() {
                    assert(is_space(s@[e as int]));
                }
            }
            let u = contents.substring_char(k, e).to_owned();
            assert(u@.subrange(0, p@.len() as int) =~= p@);
            Some(u)
        },
        None => None,
    }
}

/// How a wait for the authentication URL ended.
#[derive(Debug)]
pub enum AuthCapture {
    Found(String),
    TimedOut,
}

/// What one read of the log settled.
#[derive(Debug)]
pub enum PollStep {
    /// The URL is there; the wait is over.
    Found(String),
    /// Nothing yet; read again after the interval.
    Wait,
    /// The last attempt went by without a URL.
    TimedOut,
}

pub ghost enum PollView {
    Found(Seq<char>),
    Wait,
    TimedOut,
}

impl View for PollStep {
    type V = PollView;

    open spec fn view(&self) -> PollView {
        match self {
            PollStep::Found(u) => PollView::Found(u@),
            PollStep::Wait => PollView::Wait,
            PollStep::TimedOut => PollView::TimedOut,
        }
    }
}

/// One poll from `attempts` polls already made, given what the log held
/// (`None` where it could not be read yet): the count afterwards and the step.
pub open spec fn poll_spec(attempts: nat, read: Option<Seq<char>>) -> (nat, PollView) {
    if attempts >= POLL_ATTEMPTS {
        (attempts, PollView::TimedOut)
    } else {
        let found = match read {
            Some(s) => url_in(s),
            None => None,
        };
        match found {
            Some(u) => (attempts + 1, PollView::Found(u)),
            None => if attempts + 1 >= POLL_ATTEMPTS {
                (attempts + 1, PollView::TimedOut)
            } else {
                (attempts + 1, PollView::Wait)
            },
        }
    }
}

/// Polls made one after another from `attempts`, each given the next read of
/// `reads`, until one settles: how it settled and the count of polls made.
pub open spec fn run_polls(attempts: nat, reads: Seq<Option<Seq<char>>>) -> (PollView, nat)
    decreases reads.len(),
{
    if reads.len() == 0 {
        (PollView::Wait, attempts)
    } else {
        let (next, step) = poll_spec(attempts, reads[0]);
        if step is Wait {
            run_polls(next, reads.drop_first())
        } else {
            (step, next)
        }
    }
}

pub open spec fn read_url(read: Option<Seq<char>>) -> Option<Seq<char>> {
    match read {
        Some(s) => url_in(s),
        None => None,
    }
}

impl PollStep {
    /// How the wait ended, once it has.
    pub fn capture(self) -> (r: Option<AuthCapture>)
        ensures
            match self {
                PollStep::Found(u) => r matches Some(AuthCapture::Found(v)) && v@ == u@,
                PollStep::Wait => r is None,
                PollStep::TimedOut => r matches Some(AuthCapture::TimedOut),
            },
    {
        match self {
            PollStep::Found(u) => Some(AuthCapture::Found(u)),
            PollStep::Wait => None,
            PollStep::TimedOut => Some(AuthCapture::TimedOut),
        }
    }
}

/// The wait for the URL of one login attempt.
pub struct AuthUrlWatch {
    attempts: u32,
}

impl AuthUrlWatch {
    pub closed spec fn attempts_made(&self) -> nat {
        self.attempts as nat
    }

    pub fn new() -> (r: Self)
        ensures
            r.attempts_made() == 0,
    {
        AuthUrlWatch { attempts: 0 }
    }

    /// How many polls have been made.
    pub fn attempts(&self) -> (r: u32)
        ensures
            r == self.attempts_made(),
    {
        self.attempts
    }

    /// Takes one read of the log (`None` where it could not be read) and
    /// settles the wait if the read holds a URL or was the last allowed.
    pub fn poll(&mut self, contents: Option<&str>) -> (r: PollStep)
        ensures
            (final(self).attempts_made(), r@) == poll_spec(
                old(self).attempts_made(),
                match contents {
                    Some(s) => Some(s@),
                    None => None,
                },
            ),
    {
        if self.attempts >= POLL_ATTEMPTS {
            return PollStep::TimedOut;
        }
        self.attempts = self.attempts + 1;
        let found = match contents {
            Some(s) => find_auth_url(s),
            None => None,
        };
        match found {
            Some(u) => PollStep::Found(u),
            None => if self.attempts >= POLL_ATTEMPTS {
                PollStep::TimedOut
            } else {
                PollStep::Wait
            },
        }
    }
}

/// A log that first holds a URL at the `k`-th read (counting from one, `k`
/// at most the bound) yields that URL after exactly `k` polls.
pub proof fn lemma_found_on_kth_read(reads: Seq<Option<Seq<char>>>, k: nat)
    requires
        1 <= k <= POLL_ATTEMPTS,
        k <= reads.len(),
        forall|i: int| 0 <= i < k - 1 ==> read_url(#[trigger] reads[i]) is None,
        read_url(reads[k - 1]) is Some,
    ensures
        run_polls(0, reads) == (PollView::Found(read_url(reads[k - 1])->Some_0), k),
{
    lemma_polls_from(0, reads, k);
}

proof fn lemma_polls_from(a: nat, reads: Seq<Option<Seq<char>>>, k: nat)
    requires
        1 <= k <= reads.len(),
        a + k <= POLL_ATTEMPTS,
        forall|i: int| 0 <= i < k - 1 ==> read_url(#[trigger] reads[i]) is None,
        read_url(reads[k - 1]) is Some,
    ensures
        run_polls(a, reads) == (PollView::Found(read_url(reads[k - 1])->Some_0), a + k),
    decreases k,
{
    if k > 1 {
        let rest = reads.drop_first();
        assert(read_url(reads[0]) is None);
        assert forall|i: int| 0 <= i < k - 2 implies read_url(#[trigger] rest[i]) is None by {
            assert(rest[i] == reads[i + 1]);
        }
        assert(rest[k - 2] == reads[k - 1]);
        lemma_polls_from(a + 1, rest, (k - 1) as nat);
    }
}

/// A log that holds no URL in any of the allowed reads ends the wait as timed
/// out after exactly the bound of polls.
pub proof fn lemma_times_out(reads: Seq<Option<Seq<char>>>)
    requires
        POLL_ATTEMPTS <= reads.len(),
        forall|i: int| 0 <= i < POLL_ATTEMPTS ==> read_url(#[trigger] reads[i]) is None,
    ensures
        run_polls(0, reads) == (PollView::TimedOut, POLL_ATTEMPTS as nat),
{
    lemma_silent_from(0, reads);
}

proof fn lemma_silent_from(a: nat, reads: Seq<Option<Seq<char>>>)
    requires
        a < POLL_ATTEMPTS,
        POLL_ATTEMPTS - a <= reads.len(),
        forall|i: int| 0 <= i < POLL_ATTEMPTS - a ==> read_url(#[trigger] reads[i]) is None,
    ensures
        run_polls(a, reads) == (PollView::TimedOut, POLL_ATTEMPTS as nat),
    decreases POLL_ATTEMPTS - a,
{
    assert(read_url(reads[0]) is None);
    if a + 1 < POLL_ATTEMPTS {
        let rest = reads.drop_first();
        assert forall|i: int| 0 <= i < POLL_ATTEMPTS - (a + 1) implies read_url(
            #[trigger] rest[i],
        ) is None by {
            assert(rest[i] == reads[i + 1]);
        }
        lemma_silent_from(a + 1, rest);
    }
}

} // verus!
