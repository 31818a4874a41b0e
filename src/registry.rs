//! The offers shown to the operator: registered profiles first, then the
//! declared tailnets that no profile covers yet.
use vstd::prelude::*;
use crate::config::{Tailnet, TailnetView, tailnets_view};
use crate::text::{ends_with_char, last_char_is, same_text, trim_end_char, trim_end_matching};

verus! {

/// The character that the client appends to the account of the active profile.
pub const ACTIVE_MARKER: char = '*';

/// One entry of the menu.
#[derive(Debug)]
pub struct Candidate {
    pub name: String,
    /// The account of a registered profile, without the active marker.
    pub display_account: Option<String>,
    pub is_registered: bool,
    pub is_active: bool,
}

pub ghost struct CandidateView {
    pub name: Seq<char>,
    pub display_account: Option<Seq<char>>,
    pub is_registered: bool,
    pub is_active: bool,
}

impl View for Candidate {
    type V = CandidateView;

    open spec fn view(&self) -> CandidateView {
        CandidateView {
            name: self.name@,
            display_account: self.display_account.deep_view(),
            is_registered: self.is_registered,
            is_active: self.is_active,
        }
    }
}

pub open spec fn candidates_view(cs: Seq<Candidate>) -> Seq<CandidateView> {
    cs.map_values(|c: Candidate| c@)
}

/// The offer for a registered profile `(name, raw account)`.
pub open spec fn registered_offer(p: (Seq<char>, Seq<char>)) -> CandidateView {
    CandidateView {
        name: p.0,
        display_account: Some(trim_end_char(p.1, ACTIVE_MARKER)),
        is_registered: true,
        is_active: ends_with_char(p.1, ACTIVE_MARKER),
    }
}

/// The offer for a declared tailnet that no profile covers.
pub open spec fn declared_offer(name: Seq<char>) -> CandidateView {
    CandidateView { name, display_account: None, is_registered: false, is_active: false }
}

pub open spec fn menu_names(m: Seq<CandidateView>) -> Seq<Seq<char>> {
    m.map_values(|c: CandidateView| c.name)
}

pub open spec fn profile_names(r: Seq<(Seq<char>, Seq<char>)>) -> Seq<Seq<char>> {
    r.map_values(|p: (Seq<char>, Seq<char>)| p.0)
}

pub open spec fn declared_names(d: Seq<TailnetView>) -> Seq<Seq<char>> {
    d.map_values(|t: TailnetView| t.name)
}

/// The declared names that are appended after the registered ones: in
/// declaration order, each once, none that a profile already has.
pub open spec fn appended_names(reg: Seq<Seq<char>>, decl: Seq<Seq<char>>) -> Seq<Seq<char>>
    decreases decl.len(),
{
    if decl.len() == 0 {
        seq![]
    } else {
        let prev = appended_names(reg, decl.drop_last());
        let n = decl.last();
        if reg.contains(n) || prev.contains(n) {
            prev
        } else {
            prev.push(n)
        }
    }
}

/// The menu built from the profiles `r` and the declared tailnets `d`.
pub open spec fn merged(r: Seq<(Seq<char>, Seq<char>)>, d: Seq<TailnetView>) -> Seq<CandidateView> {
    r.map_values(|p: (Seq<char>, Seq<char>)| registered_offer(p)) + appended_names(
        profile_names(r),
        declared_names(d),
    ).map_values(|n: Seq<char>| declared_offer(n))
}

fn offer_for_profile(p: &(String, String)) -> (c: Candidate)
    ensures
        c@ == registered_offer(p.deep_view()),
{
    Candidate {
        name: p.0.clone(),
        display_account: Some(trim_end_matching(p.1.as_str(), ACTIVE_MARKER)),
        is_registered: true,
        is_active: last_char_is(p.1.as_str(), ACTIVE_MARKER),
    }
}

fn has_name(cs: &Vec<Candidate>, name: &str) -> (r: bool)
    ensures
        r == candidates_view(cs@).map_values(|c: CandidateView| c.name).contains(name@),
{
    let ghost names = candidates_view(cs@).map_values(|c: CandidateView| c.name);
    let mut i: usize = 0;
    while i < cs.len()
        invariant
            i <= cs@.len(),
            names == candidates_view(cs@).map_values(|c: CandidateView| c.name),
            forall|j: int| 0 <= j < i ==> names[j] != name@,
        decreases cs@.len() - i,
    {
        if same_text(cs[i].name.as_str(), name) {
            assert(names[i as int] == name@);
            return true;
        }
        i += 1;
    }
    false
}

/// Registered profiles first, each active when its raw account carries the
/// marker; then each declared tailnet whose name is not on the menu yet.
pub fn merge_with_declared(registered: &Vec<(String, String)>, declared: &Vec<Tailnet>) -> (r: Vec<
    Candidate,
>)
    ensures
        candidates_view(r@) == merged(registered.deep_view(), tailnets_view(declared@)),
{
    let ghost rv = registered.deep_view();
    let ghost dv = tailnets_view(declared@);
    let mut out: Vec<Candidate> = Vec::new();
    let mut i: usize = 0;
    while i < registered.len()
        invariant
            i <= registered@.len(),
            rv == registered.deep_view(),
            candidates_view(out@) == rv.take(i as int).map_values(
                |p: (Seq<char>, Seq<char>)| registered_offer(p),
            ),
        decreases registered@.len() - i,
    {
        let c = offer_for_profile(&registered[i]);
        let ghost old_out = out@;
        let ghost cv = c@;
        assert(registered[i as int].deep_view() == rv[i as int]);
        out.push(c);
        assert(out@ == old_out.push(c));
        assert(candidates_view(out@) =~= candidates_view(old_out).push(cv));
        assert(rv.take(i + 1) =~= rv.take(i as int).push(rv[i as int]));
        i += 1;
        assert(candidates_view(out@) =~= rv.take(i as int).map_values(
            |p: (Seq<char>, Seq<char>)| registered_offer(p),
        ));
    }
    assert(rv.take(i as int) =~= rv);
    let ghost head = candidates_view(out@);
    let ghost reg = profile_names(rv);
    let ghost decl = declared_names(dv);
    assert(head.map_values(|c: CandidateView| c.name) =~= reg);
    let mut j: usize = 0;
    while j < declared.len()
        invariant
            j <= declared@.len(),
            dv == tailnets_view(declared@),
            decl == declared_names(dv),
            head.len() == rv.len(),
            candidates_view(out@) == head + appended_names(reg, decl.take(j as int)).map_values(
                |n: Seq<char>| declared_offer(n),
            ),
            candidates_view(out@).map_values(|c: CandidateView| c.name) == reg + appended_names(
                reg,
                decl.take(j as int),
            ),
        decreases declared@.len() - j,
    {
        let ghost prev = appended_names(reg, decl.take(j as int));
        let ghost n = decl[j as int];
        assert(decl.take(j + 1).drop_last() =~= decl.take(j as int));
        let name = &declared[j].name;
        let ghost names_before = reg + prev;
        assert(names_before.contains(n) == (reg.contains(n) || prev.contains(n))) by {
            if prev.contains(n) {
                let k = choose|k: int| 0 <= k < prev.len() && prev[k] == n;
                assert(names_before[reg.len() + k] == n);
            }
            if reg.contains(n) {
                let k = choose|k: int| 0 <= k < reg.len() && reg[k] == n;
                assert(names_before[k] == n);
            }
            if names_before.contains(n) {
                let k = choose|k: int| 0 <= k < names_before.len() && names_before[k] == n;
                if k >= reg.len() {
                    assert(prev[k - reg.len()] == n);
                }
            }
        }
        if !has_name(&out, name.as_str()) {
            let c = Candidate {
                name: name.clone(),
                display_account: None,
                is_registered: false,
                is_active: false,
            };
            let ghost old_out = out@;
            assert(c@ == declared_offer(n));
            out.push(c);
            assert(out@ == old_out.push(c));
            assert(candidates_view(out@) =~= candidates_view(old_out).push(declared_offer(n)));
            assert(candidates_view(out@).map_values(|c: CandidateView| c.name) =~= candidates_view(
                old_out,
            ).map_values(|c: CandidateView| c.name).push(n));
            assert(candidates_view(out@) =~= head + prev.push(n).map_values(
                |n: Seq<char>| declared_offer(n),
            ));
            assert(candidates_view(out@).map_values(|c: CandidateView| c.name) =~= reg + prev.push(
                n,
            ));
        }
        j += 1;
    }
    assert(decl.take(j as int) =~= decl);
    out
}

} // verus!

verus! {

/// `k` is the first index of `n` in `s`.
pub open spec fn first_pos(s: Seq<Seq<char>>, n: Seq<char>, k: int) -> bool {
    0 <= k < s.len() && s[k] == n && forall|j: int| 0 <= j < k ==> s[j] != n
}

pub open spec fn declared_at_all(s: Seq<Seq<char>>, n: Seq<char>) -> bool {
    exists|a: int| first_pos(s, n, a)
}

pub open spec fn distinct_names(s: Seq<Seq<char>>) -> bool {
    forall|i: int, j: int| 0 <= i < s.len() && 0 <= j < s.len() && i != j ==> s[i] != s[j]
}

proof fn lemma_appended(reg: Seq<Seq<char>>, decl: Seq<Seq<char>>)
    ensures
        forall|n: Seq<char>| #[trigger]
            appended_names(reg, decl).contains(n) <==> (decl.contains(n) && !reg.contains(n)),
        distinct_names(appended_names(reg, decl)),
        forall|i: int, j: int, a: int, b: int|
            0 <= i < j < appended_names(reg, decl).len() && #[trigger] first_pos(decl, appended_names(reg, decl)[i], a) && #[trigger] first_pos(decl, appended_names(reg, decl)[j], b) ==> a < b,
        forall|i: int|
            #![trigger appended_names(reg, decl)[i]]
            0 <= i < appended_names(reg, decl).len() ==> declared_at_all(
                decl,
                appended_names(reg, decl)[i],
            ),
    decreases decl.len(),
{
    if decl.len() > 0 {
        let d0 = decl.drop_last();
        let n = decl.last();
        let l = decl.len() - 1;
        lemma_appended(reg, d0);
        let prev = appended_names(reg, d0);
        let app = appended_names(reg, decl);
        assert forall|m: Seq<char>| #[trigger] decl.contains(m) <==> (d0.contains(m) || m == n) by {
            if decl.contains(m) {
                let k = choose|k: int| 0 <= k < decl.len() && decl[k] == m;
                if k < l {
                    assert(d0[k] == m);
                }
            }
            if d0.contains(m) {
                let k = choose|k: int| 0 <= k < d0.len() && d0[k] == m;
                assert(decl[k] == m);
            }
            if m == n {
                assert(decl[l] == m);
            }
        }
        // the first index of an earlier name is the same in the longer list
        assert forall|m: Seq<char>, a: int| #[trigger] first_pos(d0, m, a) implies first_pos(decl, m, a) by {
            assert(d0[a] == decl[a]);
            assert forall|j: int| 0 <= j < a implies decl[j] != m by {
                assert(d0[j] == decl[j]);
            }
        }
        assert forall|m: Seq<char>, a: int, b: int|
            #[trigger] first_pos(decl, m, a) && #[trigger] first_pos(decl, m, b) implies a == b by {
            if a < b {
                assert(decl[a] == m);
            }
            if b < a {
                assert(decl[b] == m);
            }
        }
        if reg.contains(n) || prev.contains(n) {
            assert(app == prev);
            assert forall|i: int| #![trigger app[i]] 0 <= i < app.len() implies declared_at_all(decl, app[i]) by {
                assert(declared_at_all(d0, prev[i]));
                    let a = choose|a: int| first_pos(d0, prev[i], a);
                assert(first_pos(decl, app[i], a));
            }
            assert forall|m: Seq<char>| #[trigger]
                app.contains(m) <==> (decl.contains(m) && !reg.contains(m)) by {
                if m == n && !reg.contains(m) {
                    assert(prev.contains(n));
                }
            }
        } else {
            assert(app == prev.push(n));
            assert forall|m: Seq<char>| #[trigger]
                app.contains(m) <==> (decl.contains(m) && !reg.contains(m)) by {
                if app.contains(m) {
                    let k = choose|k: int| 0 <= k < app.len() && app[k] == m;
                    if k < prev.len() {
                        assert(prev[k] == m);
                    }
                }
                if prev.contains(m) {
                    let k = choose|k: int| 0 <= k < prev.len() && prev[k] == m;
                    assert(app[k] == m);
                }
                if m == n {
                    assert(app[prev.len() as int] == m);
                }
            }
            assert(!d0.contains(n));
            assert(first_pos(decl, n, l)) by {
                assert forall|j: int| 0 <= j < l implies decl[j] != n by {
                    assert(d0[j] == decl[j]);
                }
            }
            assert forall|i: int| #![trigger app[i]] 0 <= i < app.len() implies declared_at_all(decl, app[i]) by {
                if i < prev.len() {
                    assert(declared_at_all(d0, prev[i]));
                    let a = choose|a: int| first_pos(d0, prev[i], a);
                    assert(first_pos(decl, app[i], a));
                } else {
                    assert(first_pos(decl, app[i], l));
                }
            }
            assert forall|i: int, j: int|
                0 <= i < app.len() && 0 <= j < app.len() && i != j implies app[i] != app[j] by {
                if i == prev.len() && j < prev.len() {
                    assert(prev.contains(app[j]));
                }
                if j == prev.len() && i < prev.len() {
                    assert(prev.contains(app[i]));
                }
            }
            assert forall|i: int, j: int, a: int, b: int|
                0 <= i < j < app.len() && #[trigger] first_pos(decl, app[i], a) && #[trigger] first_pos(decl, app[j], b) implies a < b by {
                assert(declared_at_all(d0, prev[i]));
                let a0 = choose|a0: int| first_pos(d0, prev[i], a0);
                assert(first_pos(decl, app[i], a0));
                assert(a == a0);
                if j < prev.len() {
                    assert(declared_at_all(d0, prev[j]));
                    let b0 = choose|b0: int| first_pos(d0, prev[j], b0);
                    assert(first_pos(decl, app[j], b0));
                    assert(b == b0);
                } else {
                    assert(b == l);
                }
            }
        }
    }
}

/// The menu holds exactly the names of the profiles and of the declared
/// tailnets. The profiles come first, in their order, each its own offer;
/// after them only declared tailnets that are not registered, in the order of
/// their first declaration. Where no two profiles share a name, no two
/// entries do.
pub proof fn lemma_merge_names(r: Seq<(Seq<char>, Seq<char>)>, d: Seq<TailnetView>)
    ensures
        forall|n: Seq<char>|
            #![trigger menu_names(merged(r, d)).contains(n)]
            menu_names(merged(r, d)).contains(n) <==> (profile_names(
                r,
            ).contains(n) || declared_names(d).contains(n)),
        merged(r, d).len() >= r.len(),
        forall|i: int| 0 <= i < r.len() ==> #[trigger] merged(r, d)[i] == registered_offer(r[i]),
        forall|i: int|
            r.len() <= i < merged(r, d).len() ==> !(#[trigger] merged(r, d)[i]).is_registered
                && !profile_names(r).contains(merged(r, d)[i].name),
        forall|i: int, j: int, a: int, b: int|
            r.len() <= i < j < merged(r, d).len() && #[trigger] first_pos(declared_names(d), merged(r, d)[i].name, a) && #[trigger] first_pos(declared_names(d), merged(r, d)[j].name, b) ==> a < b,
        distinct_names(profile_names(r)) ==> distinct_names(
            menu_names(merged(r, d)),
        ),
{
    let reg = profile_names(r);
    let decl = declared_names(d);
    let app = appended_names(reg, decl);
    lemma_appended(reg, decl);
    let m = merged(r, d);
    let names = menu_names(m);
    assert(names =~= reg + app);
    assert forall|n: Seq<char>|
        #![trigger names.contains(n)]
        names.contains(n) <==> (reg.contains(n) || decl.contains(n)) by {
        if names.contains(n) {
            let k = choose|k: int| 0 <= k < names.len() && names[k] == n;
            if k >= reg.len() {
                assert(app[k - reg.len()] == n);
            }
        }
        if reg.contains(n) {
            let k = choose|k: int| 0 <= k < reg.len() && reg[k] == n;
            assert(names[k] == n);
        }
        if decl.contains(n) && !reg.contains(n) {
            assert(app.contains(n));
            let k = choose|k: int| 0 <= k < app.len() && app[k] == n;
            assert(names[reg.len() + k] == n);
        }
    }
    assert forall|i: int| r.len() <= i < m.len() implies !(#[trigger] m[i]).is_registered
        && !reg.contains(m[i].name) by {
        assert(m[i].name == app[i - r.len()]);
        assert(app.contains(app[i - r.len()]));
    }
    assert forall|i: int, j: int, a: int, b: int|
        r.len() <= i < j < m.len() && #[trigger] first_pos(decl, m[i].name, a) && #[trigger] first_pos(decl, m[j].name, b) implies a < b by {
        assert(m[i].name == app[i - r.len()]);
        assert(m[j].name == app[j - r.len()]);
    }
    if distinct_names(reg) {
        assert forall|i: int, j: int|
            0 <= i < names.len() && 0 <= j < names.len() && i != j implies names[i]
            != names[j] by {
            if i < reg.len() && j >= reg.len() {
                assert(app.contains(names[j]));
                assert(reg.contains(names[i]));
            }
            if j < reg.len() && i >= reg.len() {
                assert(app.contains(names[i]));
                assert(reg.contains(names[j]));
            }
        }
    }
}

/// An entry is active exactly when it is a profile whose raw account carried
/// the marker; so where at most one raw account carries it, at most one
/// entry is active.
pub proof fn lemma_merge_active(r: Seq<(Seq<char>, Seq<char>)>, d: Seq<TailnetView>)
    ensures
        forall|i: int|
            0 <= i < merged(r, d).len() ==> ((#[trigger] merged(r, d)[i]).is_active <==> (i
                < r.len() && ends_with_char(r[i].1, ACTIVE_MARKER))),
        (forall|i: int, j: int|
            0 <= i < r.len() && 0 <= j < r.len() && ends_with_char(r[i].1, ACTIVE_MARKER)
                && ends_with_char(r[j].1, ACTIVE_MARKER) ==> i == j) ==> forall|i: int, j: int|
            0 <= i < merged(r, d).len() && 0 <= j < merged(r, d).len() && (#[trigger] merged(
                r,
                d,
            )[i]).is_active && (#[trigger] merged(r, d)[j]).is_active ==> i == j,
{
    let m = merged(r, d);
    assert forall|i: int|
        0 <= i < m.len() implies ((#[trigger] m[i]).is_active <==> (i < r.len() && ends_with_char(
            r[i].1,
            ACTIVE_MARKER,
        ))) by {
        if i < r.len() {
            assert(m[i] == registered_offer(r[i]));
        }
    }
}

} // verus!
