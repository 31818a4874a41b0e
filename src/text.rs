//! Character-level text helpers shared by the parsers of command output.
use vstd::prelude::*;

verus! {

/// Unicode `White_Space`, the set that `char::is_whitespace` tests.
pub open spec fn is_space(c: char) -> bool {
    let u = c as u32;
    ||| 0x09 <= u <= 0x0d
    ||| u == 0x20
    ||| u == 0x85
    ||| u == 0xa0
    ||| u == 0x1680
    ||| 0x2000 <= u <= 0x200a
    ||| u == 0x2028
    ||| u == 0x2029
    ||| u == 0x202f
    ||| u == 0x205f
    ||| u == 0x3000
}

pub fn is_space_char(c: char) -> (r: bool)
    ensures
        r == is_space(c),
{
    let u = c as u32;
    (0x09 <= u && u <= 0x0d) || u == 0x20 || u == 0x85 || u == 0xa0 || u == 0x1680 || (0x2000
        <= u && u <= 0x200a) || u == 0x2028 || u == 0x2029 || u == 0x202f || u == 0x205f || u
        == 0x3000
}

/// The characters of `s`, one per element.
pub fn chars_of(s: &str) -> (r: Vec<char>)
    ensures
        r@ == s@,
{
    let n = s.unicode_len();
    let mut v: Vec<char> = Vec::new();
    let mut i: usize = 0;
    while i < n
        invariant
            n == s@.len(),
            i <= n,
            v@ == s@.take(i as int),
        decreases n - i,
    {
        v.push(s.get_char(i));
        i += 1;
        assert(v@ =~= s@.take(i as int));
    }
    assert(v@ =~= s@);
    v
}

/// Splitting on a separator, read left to right: the pieces already closed
/// and the piece still open. `ws` selects the separator: any white space,
/// where empty pieces are dropped, or else the newline, where they are kept.
pub open spec fn piece_scan(s: Seq<char>, ws: bool) -> (Seq<Seq<char>>, Seq<char>)
    decreases s.len(),
{
    if s.len() == 0 {
        (seq![], seq![])
    } else {
        let (done, cur) = piece_scan(s.drop_last(), ws);
        let c = s.last();
        if ws && is_space(c) {
            if cur.len() > 0 {
                (done.push(cur), seq![])
            } else {
                (done, seq![])
            }
        } else if !ws && c == '\n' {
            (done.push(cur), seq![])
        } else {
            (done, cur.push(c))
        }
    }
}

/// The maximal runs of non-white-space characters of `s`, in order
/// (what `str::split_whitespace` yields).
pub open spec fn words(s: Seq<char>) -> Seq<Seq<char>> {
    let (done, cur) = piece_scan(s, true);
    if cur.len() > 0 {
        done.push(cur)
    } else {
        done
    }
}

/// The pieces of `s` between newlines, empty ones included.
pub open spec fn lines(s: Seq<char>) -> Seq<Seq<char>> {
    let (done, cur) = piece_scan(s, false);
    done.push(cur)
}

proof fn lemma_scan_step(s: Seq<char>, i: int, ws: bool)
    requires
        0 <= i < s.len(),
    ensures
        piece_scan(s.take(i + 1), ws) == ({
            let (done, cur) = piece_scan(s.take(i), ws);
            let c = s[i];
            if ws && is_space(c) {
                if cur.len() > 0 {
                    (done.push(cur), seq![])
                } else {
                    (done, seq![])
                }
            } else if !ws && c == '\n' {
                (done.push(cur), seq![])
            } else {
                (done, cur.push(c))
            }
        }),
{
    assert(s.take(i + 1).drop_last() =~= s.take(i));
}

fn split_pieces(s: &str, ws: bool) -> (r: Vec<String>)
    ensures
        r.deep_view() == (if ws { words(s@) } else { lines(s@) }),
{
    let cs = chars_of(s);
    let n = cs.len();
    let mut done: Vec<String> = Vec::new();
    let mut start: usize = 0;
    let mut i: usize = 0;
    while i < n
        invariant
            n == s@.len(),
            cs@ == s@,
            start <= i <= n,
            piece_scan(s@.take(i as int), ws) == (done.deep_view(), s@.subrange(
                start as int,
                i as int,
            )),
        decreases n - i,
    {
        let c = cs[i];
        proof {
            lemma_scan_step(s@, i as int, ws);
        }
        let ghost cur = s@.subrange(start as int, i as int);
        let ghost d0 = done.deep_view();
        if ws && is_space_char(c) {
            if start < i {
                let w = s.substring_char(start, i).to_owned();
                done.push(w);
                assert(done.deep_view() =~= d0.push(cur));
            }
            start = i + 1;
        } else if !ws && c == '\n' {
            let w = s.substring_char(start, i).to_owned();
            done.push(w);
            assert(done.deep_view() =~= d0.push(cur));
            start = i + 1;
        }
        i += 1;
        assert(s@.subrange(start as int, i as int) =~= if start == i {
            seq![]
        } else {
            cur.push(c)
        });
    }
    assert(s@.take(n as int) =~= s@);
    let ghost d0 = done.deep_view();
    let ghost cur = s@.subrange(start as int, n as int);
    if !ws || start < n {
        let w = s.substring_char(start, n).to_owned();
        done.push(w);
        assert(done.deep_view() =~= d0.push(cur));
    }
    done
}

/// The words of `s`, as `str::split_whitespace` yields them.
pub fn split_words(s: &str) -> (r: Vec<String>)
    ensures
        r.deep_view() == words(s@),
{
    split_pieces(s, true)
}

/// The lines of `s`: the pieces between newlines, empty ones included.
pub fn split_lines(s: &str) -> (r: Vec<String>)
    ensures
        r.deep_view() == lines(s@),
{
    split_pieces(s, false)
}

} // verus!

verus! {

/// `p` stands in `s` starting at index `k`.
pub open spec fn occurs_at(s: Seq<char>, p: Seq<char>, k: int) -> bool {
    0 <= k && k + p.len() <= s.len() && s.subrange(k, k + p.len()) == p
}

/// `k` is the first index at which `p` stands in `s`.
pub open spec fn first_occurrence(s: Seq<char>, p: Seq<char>, k: int) -> bool {
    occurs_at(s, p, k) && forall|j: int| 0 <= j < k ==> !occurs_at(s, p, j)
}

pub open spec fn contains(s: Seq<char>, p: Seq<char>) -> bool {
    exists|k: int| occurs_at(s, p, k)
}

fn matches_at(s: &Vec<char>, p: &Vec<char>, k: usize) -> (r: bool)
    requires
        k <= s@.len(),
    ensures
        r == occurs_at(s@, p@, k as int),
{
    if p.len() > s.len() - k {
        return false;
    }
    let mut j: usize = 0;
    while j < p.len()
        invariant
            k + p.len() <= s.len(),
            j <= p@.len(),
            forall|t: int| 0 <= t < j ==> s@[k + t] == p@[t],
        decreases p@.len() - j,
    {
        if s[k + j] != p[j] {
            assert(s@.subrange(k as int, k + p@.len())[j as int] != p@[j as int]);
            return false;
        }
        j += 1;
    }
    assert(s@.subrange(k as int, k + p@.len()) =~= p@);
    true
}

/// The first index at which `p` stands in `s`, if any.
pub fn find_first(s: &Vec<char>, p: &Vec<char>) -> (r: Option<usize>)
    ensures
        match r {
            Some(k) => first_occurrence(s@, p@, k as int),
            None => !contains(s@, p@),
        },
{
    let mut k: usize = 0;
    while k < s.len()
        invariant
            k <= s@.len(),
            forall|j: int| 0 <= j < k ==> !occurs_at(s@, p@, j),
        decreases s@.len() - k,
    {
        if matches_at(s, p, k) {
            return Some(k);
        }
        k += 1;
    }
    if matches_at(s, p, k) {
        return Some(k);
    }
    assert forall|j: int| !occurs_at(s@, p@, j) by {
        if 0 <= j && j > k {
            assert(j + p@.len() > s@.len());
        }
    }
    None
}

/// Whether `p` stands anywhere in `s`.
pub fn contains_str(s: &str, p: &str) -> (r: bool)
    ensures
        r == contains(s@, p@),
{
    let sc = chars_of(s);
    let pc = chars_of(p);
    match find_first(&sc, &pc) {
        Some(_) => true,
        None => false,
    }
}

/// The end of the run of non-white-space characters of `s` that starts at `k`.
pub open spec fn run_end(s: Seq<char>, k: int) -> int
    decreases s.len() - k,
{
    if k < 0 || k >= s.len() || is_space(s[k]) {
        k
    } else {
        run_end(s, k + 1)
    }
}

pub proof fn lemma_run_end(s: Seq<char>, k: int)
    requires
        0 <= k <= s.len(),
    ensures
        k <= run_end(s, k) <= s.len(),
        forall|t: int| k <= t < run_end(s, k) ==> !is_space(#[trigger] s[t]),
        run_end(s, k) < s.len() ==> is_space(s[run_end(s, k)]),
    decreases s.len() - k,
{
    if k < s.len() && !is_space(s[k]) {
        lemma_run_end(s, k + 1);
    }
}

/// The end of the run of non-white-space characters of `s` that starts at `k`.
pub fn find_run_end(s: &Vec<char>, k: usize) -> (r: usize)
    requires
        k <= s@.len(),
    ensures
        r == run_end(s@, k as int),
{
    let mut e: usize = k;
    while e < s.len() && !is_space_char(s[e])
        invariant
            k <= e <= s@.len(),
            run_end(s@, k as int) == run_end(s@, e as int),
        decreases s@.len() - e,
    {
        e += 1;
    }
    e
}

/// `s` ends with `c`.
pub open spec fn ends_with_char(s: Seq<char>, c: char) -> bool {
    s.len() > 0 && s.last() == c
}

pub fn last_char_is(s: &str, c: char) -> (r: bool)
    ensures
        r == ends_with_char(s@, c),
{
    let n = s.unicode_len();
    n > 0 && s.get_char(n - 1) == c
}

/// `s` with every trailing `c` taken off (`str::trim_end_matches` with one char).
pub open spec fn trim_end_char(s: Seq<char>, c: char) -> Seq<char>
    decreases s.len(),
{
    if s.len() > 0 && s.last() == c {
        trim_end_char(s.drop_last(), c)
    } else {
        s
    }
}

pub fn trim_end_matching(s: &str, c: char) -> (r: String)
    ensures
        r@ == trim_end_char(s@, c),
{
    let mut n = s.unicode_len();
    assert(s@.take(n as int) =~= s@);
    while n > 0 && s.get_char(n - 1) == c
        invariant
            n <= s@.len(),
            trim_end_char(s@.take(n as int), c) == trim_end_char(s@, c),
        decreases n,
    {
        assert(s@.take(n as int).drop_last() =~= s@.take(n - 1));
        n -= 1;
    }
    assert(s@.take(n as int) =~= s@.subrange(0, n as int));
    s.substring_char(0, n).to_owned()
}

} // verus!

verus! {

/// Whether `a` and `b` hold the same characters.
pub fn same_text(a: &str, b: &str) -> (r: bool)
    ensures
        r == (a@ == b@),
{
    let ac = chars_of(a);
    let bc = chars_of(b);
    if ac.len() != bc.len() {
        return false;
    }
    let mut i: usize = 0;
    while i < ac.len()
        invariant
            ac@ == a@,
            bc@ == b@,
            ac@.len() == bc@.len(),
            i <= ac@.len(),
            forall|t: int| 0 <= t < i ==> ac@[t] == bc@[t],
        decreases ac@.len() - i,
    {
        if ac[i] != bc[i] {
            return false;
        }
        i += 1;
    }
    assert(a@ =~= b@);
    true
}

} // verus!

verus! {

pub open spec fn digit_char(d: nat) -> char {
    if d == 0 { '0' } else if d == 1 { '1' } else if d == 2 { '2' } else if d == 3 { '3' }
    else if d == 4 { '4' } else if d == 5 { '5' } else if d == 6 { '6' } else if d == 7 { '7' }
    else if d == 8 { '8' } else { '9' }
}

/// The decimal digits of `n`, most significant first, without leading zeros.
pub open spec fn decimal(n: nat) -> Seq<char>
    decreases n,
{
    if n < 10 {
        seq![digit_char(n)]
    } else {
        decimal(n / 10).push(digit_char(n % 10))
    }
}

fn digit_text(d: u64) -> (r: &'static str)
    requires
        d < 10,
    ensures
        r@ == seq![digit_char(d as nat)],
{
    let digits = "0123456789";
    proof {
        reveal_strlit("0123456789");
    }
    digits.substring_ascii(d as usize, d as usize + 1)
}

/// `n` written in decimal.
pub fn decimal_string(n: u64) -> (r: String)
    ensures
        r@ == decimal(n as nat),
    decreases n,
{
    if n < 10 {
        digit_text(n).to_owned()
    } else {
        let mut s = decimal_string(n / 10);
        s.append(digit_text(n % 10));
        s
    }
}

/// `n` written in decimal, with a minus sign where it is negative.
pub open spec fn signed_decimal(n: int) -> Seq<char> {
    if n < 0 {
        seq!['-'] + decimal((-n) as nat)
    } else {
        decimal(n as nat)
    }
}

pub fn signed_decimal_string(n: i32) -> (r: String)
    ensures
        r@ == signed_decimal(n as int),
{
    if n < 0 {
        let minus = "-";
        proof {
            reveal_strlit("-");
        }
        let m: i64 = -(n as i64);
        let mut s = minus.to_owned();
        s.append(decimal_string(m as u64).as_str());
        s
    } else {
        decimal_string(n as u64)
    }
}

/// The pieces `ws` with `sep` between each two of them.
pub open spec fn joined(ws: Seq<Seq<char>>, sep: Seq<char>) -> Seq<char>
    decreases ws.len(),
{
    if ws.len() == 0 {
        seq![]
    } else if ws.len() == 1 {
        ws[0]
    } else {
        joined(ws.drop_last(), sep) + sep + ws.last()
    }
}

pub fn join_with(ws: &Vec<String>, sep: &str) -> (r: String)
    ensures
        r@ == joined(ws.deep_view(), sep@),
{
    let ghost v = ws.deep_view();
    let mut out = String::new();
    let mut i: usize = 0;
    while i < ws.len()
        invariant
            i <= ws@.len(),
            v == ws.deep_view(),
            out@ == joined(v.take(i as int), sep@),
        decreases ws@.len() - i,
    {
        assert(v.take(i + 1).drop_last() =~= v.take(i as int));
        if i > 0 {
            out.append(sep);
        }
        out.append(ws[i].as_str());
        i += 1;
        assert(out@ =~= joined(v.take(i as int), sep@));
    }
    assert(v.take(i as int) =~= v);
    out
}

} // verus!
