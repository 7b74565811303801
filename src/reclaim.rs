use crate::health::is_digit;
use crate::text::{contains_bytes, has_infix};
use vstd::prelude::*;

verus! {

/// ASCII white space, which separates the columns of a process listing.
pub open spec fn is_space(b: u8) -> bool {
    (9 <= b && b <= 13) || b == 32
}

/// The bytes of `opencode`, the word that the sidecar's process name holds.
pub open spec fn sidecar_bytes() -> Seq<u8> {
    seq![111u8, 112u8, 101u8, 110u8, 99u8, 111u8, 100u8, 101u8]
}

/// Whether a process name is the sidecar's.
pub open spec fn names_sidecar_process(name: Seq<u8>) -> bool {
    has_infix(name, sidecar_bytes())
}

/// The first position from `i` on that holds no white space.
pub open spec fn skip_space(t: Seq<u8>, i: int) -> int
    decreases t.len() - i,
{
    if 0 <= i < t.len() && is_space(t[i]) {
        skip_space(t, i + 1)
    } else {
        i
    }
}

/// The first position from `i` on that holds white space.
pub open spec fn skip_word(t: Seq<u8>, i: int) -> int
    decreases t.len() - i,
{
    if 0 <= i < t.len() && !is_space(t[i]) {
        skip_word(t, i + 1)
    } else {
        i
    }
}

/// The value of a run of decimal digits.
pub open spec fn digits_value(d: Seq<u8>) -> nat
    decreases d.len(),
{
    if d.len() == 0 {
        0
    } else {
        digits_value(d.drop_last()) * 10 + (d.last() - 48) as nat
    }
}

/// The digits of a decimal number, without its optional leading `+`.
pub open spec fn unsigned_digits(t: Seq<u8>) -> Seq<u8> {
    if t.len() > 0 && t[0] == 43 {
        t.drop_first()
    } else {
        t
    }
}

/// A `u32` written in decimal, with an optional leading `+`.
pub open spec fn parse_u32(t: Seq<u8>) -> Option<u32> {
    let d = unsigned_digits(t);
    if d.len() > 0 && (forall|k: int| 0 <= k < d.len() ==> is_digit(#[trigger] d[k]))
        && digits_value(d) <= u32::MAX {
        Some(digits_value(d) as u32)
    } else {
        None
    }
}

/// `[a, b)` is a line of `s`: it starts at the start or after a newline and
/// runs to the next newline or the end.
pub open spec fn is_line(s: Seq<u8>, a: int, b: int) -> bool {
    &&& 0 <= a <= b <= s.len()
    &&& (a == 0 || s[a - 1] == 10)
    &&& (b == s.len() || s[b] == 10)
    &&& forall|k: int| a <= k < b ==> s[k] != 10
}

/// The two listings the reclaimer reads.
#[derive(Clone, Copy, PartialEq, Eq, Structural, Debug)]
pub enum Listing {
    /// `ps -A -o pid,comm`: a process id, then the process name.
    ProcessTable,
    /// `lsof -t`: one process id per line.
    PidList,
}

/// The first word of a line, as a process id.
pub open spec fn first_pid(line: Seq<u8>) -> Option<u32> {
    let a = skip_space(line, 0);
    parse_u32(line.subrange(a, skip_word(line, a)))
}

/// What follows the first word of a line.
pub open spec fn after_first_word(line: Seq<u8>) -> Seq<u8> {
    line.subrange(skip_word(line, skip_space(line, 0)), line.len() as int)
}

/// The process a line of a listing names for reclaiming: in a process table,
/// a process other than `own` whose name is the sidecar's; in a pid list, the
/// single process id of the line, where it is not `own`.
pub open spec fn pid_of_line(listing: Listing, line: Seq<u8>, own: u32) -> Option<u32> {
    match listing {
        Listing::ProcessTable => match first_pid(line) {
            Some(p) => if p != own && names_sidecar_process(after_first_word(line)) {
                Some(p)
            } else {
                None
            },
            None => None,
        },
        Listing::PidList => match first_pid(line) {
            Some(p) => if p != own && skip_space(line, skip_word(line, skip_space(line, 0)))
                == line.len() {
                Some(p)
            } else {
                None
            },
            None => None,
        },
    }
}

fn skip_space_exec(t: &Vec<u8>, i: usize) -> (r: usize)
    requires
        i <= t@.len(),
    ensures
        r == skip_space(t@, i as int),
        i <= r <= t@.len(),
{
    let mut j = i;
    while j < t.len() && (9 <= t[j] && t[j] <= 13 || t[j] == 32)
        invariant
            i <= j <= t@.len(),
            skip_space(t@, i as int) == skip_space(t@, j as int),
        decreases t@.len() - j,
    {
        j = j + 1;
    }
    j
}

fn skip_word_exec(t: &Vec<u8>, i: usize) -> (r: usize)
    requires
        i <= t@.len(),
    ensures
        r == skip_word(t@, i as int),
        i <= r <= t@.len(),
{
    let mut j = i;
    while j < t.len() && !(9 <= t[j] && t[j] <= 13 || t[j] == 32)
        invariant
            i <= j <= t@.len(),
            skip_word(t@, i as int) == skip_word(t@, j as int),
        decreases t@.len() - j,
    {
        j = j + 1;
    }
    j
}

proof fn lemma_digits_step(t: Seq<u8>, a: int, i: int)
    requires
        0 <= a <= i < t.len(),
    ensures
        digits_value(t.subrange(a, i + 1)) == digits_value(t.subrange(a, i)) * 10 + (t[i]
            - 48) as nat,
{
    assert(t.subrange(a, i + 1).drop_last() =~= t.subrange(a, i));
}

proof fn lemma_capped_step(v: nat, d: nat, cap: nat)
    requires
        cap > 0,
    ensures
        (if v * 10 + d > cap {
            cap
        } else {
            v * 10 + d
        }) == ({
            let c = if v > cap {
                cap
            } else {
                v
            };
            if c * 10 + d > cap {
                cap
            } else {
                c * 10 + d
            }
        }),
{
    if v > cap {
        assert(v * 10 + d > cap) by (nonlinear_arith)
            requires
                v > cap,
        ;
        assert(cap * 10 + d > cap) by (nonlinear_arith)
            requires
                cap > 0,
        ;
    }
}

/// The `u32` written in `t[a..b]`.
fn parse_u32_exec(t: &Vec<u8>, a: usize, b: usize) -> (r: Option<u32>)
    requires
        a <= b <= t@.len(),
    ensures
        r == parse_u32(t@.subrange(a as int, b as int)),
{
    let ghost w = t@.subrange(a as int, b as int);
    let mut start = a;
    if a < b && t[a] == 43 {
        start = a + 1;
    }
    let ghost d = t@.subrange(start as int, b as int);
    assert(d =~= unsigned_digits(w));
    if start == b {
        return None;
    }
    let cap: u64 = 4294967296;
    let mut acc: u64 = 0;
    let mut i = start;
    assert(t@.subrange(start as int, start as int) =~= Seq::<u8>::empty());
    while i < b
        invariant
            a <= start <= i <= b <= t@.len(),
            d == t@.subrange(start as int, b as int),
            w == t@.subrange(a as int, b as int),
            d == unsigned_digits(w),
            forall|k: int| start <= k < i ==> is_digit(t@[k]),
            acc as nat == (if digits_value(t@.subrange(start as int, i as int)) > cap as nat {
                cap as nat
            } else {
                digits_value(t@.subrange(start as int, i as int))
            }),
            cap == 4294967296,
        decreases b - i,
    {
        if !(48 <= t[i] && t[i] <= 57) {
            assert(d[i - start] == t@[i as int]);
            assert(!is_digit(d[i - start]));
            assert(!(forall|k: int| 0 <= k < d.len() ==> is_digit(#[trigger] d[k])));
            assert(parse_u32(w) is None);
            return None;
        }
        proof {
            lemma_digits_step(t@, start as int, i as int);
            lemma_capped_step(
                digits_value(t@.subrange(start as int, i as int)),
                (t@[i as int] - 48) as nat,
                cap as nat,
            );
        }
        acc = acc * 10 + (t[i] - 48) as u64;
        if acc > cap {
            acc = cap;
        }
        i = i + 1;
    }
    assert(t@.subrange(start as int, i as int) =~= d);
    assert(forall|k: int| 0 <= k < d.len() ==> is_digit(#[trigger] d[k]) && d[k] == t@[start + k]);
    if acc >= cap {
        None
    } else {
        Some(acc as u32)
    }
}

/// The reclaim candidate that one line of a listing names.
pub fn line_pid(listing: Listing, line: &Vec<u8>, own_pid: u32) -> (r: Option<u32>)
    ensures
        r == pid_of_line(listing, line@, own_pid),
{
    let a = skip_space_exec(line, 0);
    let b = skip_word_exec(line, a);
    let pid = parse_u32_exec(line, a, b);
    match listing {
        Listing::ProcessTable => match pid {
            Some(p) => {
                if p == own_pid {
                    return None;
                }
                let mut rest: Vec<u8> = Vec::new();
                let mut k = b;
                while k < line.len()
                    invariant
                        b <= k <= line@.len(),
                        rest@ == line@.subrange(b as int, k as int),
                    decreases line@.len() - k,
                {
                    rest.push(line[k]);
                    k = k + 1;
                    assert(rest@ =~= line@.subrange(b as int, k as int));
                }
                let word = sidecar_word();
                if contains_bytes(&rest, &word) {
                    Some(p)
                } else {
                    None
                }
            },
            None => None,
        },
        Listing::PidList => match pid {
            Some(p) => {
                if p != own_pid && skip_space_exec(line, b) == line.len() {
                    Some(p)
                } else {
                    None
                }
            },
            None => None,
        },
    }
}

fn sidecar_word() -> (r: Vec<u8>)
    ensures
        r@ == sidecar_bytes(),
{
    let r: Vec<u8> = vec![111u8, 112u8, 101u8, 110u8, 99u8, 111u8, 100u8, 101u8];
    assert(r@ =~= sidecar_bytes());
    r
}

/// Whether a process name, as `ps -o comm=` prints it, is the sidecar's.
pub fn is_sidecar_process(name: &Vec<u8>) -> (r: bool)
    ensures
        r == names_sidecar_process(name@),
{
    let word = sidecar_word();
    contains_bytes(name, &word)
}

/// The process named by a line of `out`.
pub open spec fn named_by_some_line(out: Seq<u8>, listing: Listing, own: u32, p: u32) -> bool {
    exists|a: int, b: int|
        is_line(out, a, b) && #[trigger] pid_of_line(listing, out.subrange(a, b), own) == Some(p)
}

/// The first newline at or after `pos`, or the end.
fn line_end(out: &Vec<u8>, pos: usize) -> (r: usize)
    requires
        pos <= out@.len(),
    ensures
        pos <= r <= out@.len(),
        r == out@.len() || out@[r as int] == 10,
        forall|k: int| pos <= k < r ==> out@[k] != 10,
{
    let mut e = pos;
    while e < out.len() && out[e] != 10
        invariant
            pos <= e <= out@.len(),
            forall|k: int| pos <= k < e ==> out@[k] != 10,
        decreases out@.len() - e,
    {
        e = e + 1;
    }
    e
}

/// The processes that the lines of a listing name for reclaiming, never
/// `own_pid`. In a process table these are only processes whose name is the
/// sidecar's: a process by any other name is never selected, whatever port it
/// holds.
pub fn reclaim_candidates(out: &Vec<u8>, listing: Listing, own_pid: u32) -> (r: Vec<u32>)
    ensures
        forall|k: int| 0 <= k < r@.len() ==> named_by_some_line(out@, listing, own_pid, #[trigger] r@[k]),
        forall|a: int, b: int|
            is_line(out@, a, b) && (#[trigger] pid_of_line(listing, out@.subrange(a, b), own_pid)) is Some
                ==> r@.contains(pid_of_line(listing, out@.subrange(a, b), own_pid)->Some_0),
        forall|k: int| 0 <= k < r@.len() ==> r@[k] != own_pid,
{
    let n = out.len();
    let mut r: Vec<u32> = Vec::new();
    let mut pos: usize = 0;
    let mut done = false;
    while !done
        invariant
            n == out@.len(),
            pos <= n,
            pos == 0 || out@[pos - 1] == 10,
            forall|k: int| 0 <= k < r@.len() ==> named_by_some_line(out@, listing, own_pid, #[trigger] r@[k]),
            forall|a: int, b: int|
                is_line(out@, a, b) && (a < pos || (done && a == pos)) && (#[trigger] pid_of_line(listing, out@.subrange(a, b), own_pid)) is Some
                    ==> r@.contains(pid_of_line(listing, out@.subrange(a, b), own_pid)->Some_0),
            done ==> forall|a: int, b: int| #[trigger] is_line(out@, a, b) ==> a <= pos,
            forall|k: int| 0 <= k < r@.len() ==> r@[k] != own_pid,
        decreases n - pos + (if done { 0int } else { 1int }),
    {
        let e = line_end(out, pos);
        let mut line: Vec<u8> = Vec::new();
        let mut k = pos;
        while k < e
            invariant
                pos <= k <= e <= out@.len(),
                line@ == out@.subrange(pos as int, k as int),
            decreases e - k,
        {
            line.push(out[k]);
            k = k + 1;
            assert(line@ =~= out@.subrange(pos as int, k as int));
        }
        assert(is_line(out@, pos as int, e as int));
        let ghost before = r@;
        match line_pid(listing, &line, own_pid) {
            Some(p) => {
                r.push(p);
                assert(r@[r@.len() - 1] == p);
                assert(named_by_some_line(out@, listing, own_pid, p));
                assert forall|k: int| 0 <= k < r@.len() implies named_by_some_line(out@, listing, own_pid, #[trigger] r@[k]) by {
                    if k < before.len() {
                        assert(r@[k] == before[k]);
                    }
                }
            },
            None => {},
        }
        assert forall|x: u32| before.contains(x) implies r@.contains(x) by {
            let i = choose|i: int| 0 <= i < before.len() && before[i] == x;
            assert(r@[i] == x);
        }
        assert forall|a: int, b: int| is_line(out@, a, b) && pos <= a <= e implies a == pos && b == e by {
            if a > pos {
                assert(out@[a - 1] != 10);
            }
            if b < e {
                assert(out@[b] != 10);
            }
            if b > e {
                assert(out@[e as int] == 10);
            }
        }
        if e == n {
            done = true;
        } else {
            pos = e + 1;
        }
    }
    r
}

/// A process that a process table names for reclaiming is never the current
/// process, and the rest of its line, its name, is the sidecar's.
pub proof fn lemma_reclaims_only_sidecar(out: Seq<u8>, own: u32, p: u32)
    requires
        named_by_some_line(out, Listing::ProcessTable, own, p),
    ensures
        p != own,
        exists|a: int, b: int|
            is_line(out, a, b) && first_pid(out.subrange(a, b)) == Some(p) && names_sidecar_process(
                #[trigger] after_first_word(out.subrange(a, b)),
            ),
{
    let (a, b) = choose|a: int, b: int|
        is_line(out, a, b) && #[trigger] pid_of_line(Listing::ProcessTable, out.subrange(a, b), own)
            == Some(p);
    assert(names_sidecar_process(after_first_word(out.subrange(a, b))));
}

} // verus!
