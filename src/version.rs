use crate::text::{chars_of, is_white, same_chars, white};
use vstd::prelude::*;

verus! {

/// The version reported when no binary is installed or it cannot be queried.
pub open spec fn sentinel() -> Seq<char> {
    seq!['0', '.', '0', '.', '0']
}

/// `s` without its trailing white space.
pub open spec fn trim_end(s: Seq<char>) -> Seq<char>
    decreases s.len(),
{
    if s.len() > 0 && is_white(s.last()) {
        trim_end(s.drop_last())
    } else {
        s
    }
}

/// `s` without its leading white space.
pub open spec fn trim_start(s: Seq<char>) -> Seq<char>
    decreases s.len(),
{
    if s.len() > 0 && is_white(s[0]) {
        trim_start(s.drop_first())
    } else {
        s
    }
}

pub open spec fn trim(s: Seq<char>) -> Seq<char> {
    trim_start(trim_end(s))
}

/// The run of non-white characters at the end of `s`.
pub open spec fn last_word(s: Seq<char>) -> Seq<char>
    decreases s.len(),
{
    if s.len() == 0 || is_white(s.last()) {
        Seq::empty()
    } else {
        last_word(s.drop_last()).push(s.last())
    }
}

/// The version that a binary's `--version` output reports: the last word of
/// the trimmed output where it holds a dot, else the whole trimmed output.
pub open spec fn version_in_output(out: Seq<char>) -> Seq<char> {
    let t = trim(out);
    let w = last_word(t);
    if w.contains('.') {
        w
    } else {
        t
    }
}

/// The installed version: the sentinel where no binary is installed or the
/// query did not exit successfully, else the version its output reports.
pub open spec fn resolved_version(installed: bool, exited_ok: bool, out: Seq<char>) -> Seq<char> {
    if !installed || !exited_ok {
        sentinel()
    } else {
        version_in_output(out)
    }
}

proof fn lemma_trim_end_step(s: Seq<char>, end: int)
    requires
        0 < end <= s.len(),
        is_white(s[end - 1]),
    ensures
        trim_end(s.subrange(0, end)) == trim_end(s.subrange(0, end - 1)),
{
    assert(s.subrange(0, end).drop_last() =~= s.subrange(0, end - 1));
}

proof fn lemma_trim_start_step(s: Seq<char>, start: int, end: int)
    requires
        0 <= start < end <= s.len(),
        is_white(s[start]),
    ensures
        trim_start(s.subrange(start, end)) == trim_start(s.subrange(start + 1, end)),
{
    assert(s.subrange(start, end).drop_first() =~= s.subrange(start + 1, end));
}

proof fn lemma_last_word_step(s: Seq<char>, start: int, w: int, end: int)
    requires
        0 <= start < w <= end <= s.len(),
        !is_white(s[w - 1]),
        last_word(s.subrange(start, end)) == last_word(s.subrange(start, w)) + s.subrange(w, end),
    ensures
        last_word(s.subrange(start, end)) == last_word(s.subrange(start, w - 1)) + s.subrange(
            w - 1,
            end,
        ),
{
    let a = s.subrange(start, w);
    assert(a.drop_last() =~= s.subrange(start, w - 1));
    assert(last_word(a) == last_word(s.subrange(start, w - 1)).push(s[w - 1]));
    assert(last_word(s.subrange(start, w - 1)).push(s[w - 1]) + s.subrange(w, end) =~= last_word(
        s.subrange(start, w - 1),
    ) + s.subrange(w - 1, end));
}

/// Reads the version out of what a binary printed for `--version`.
pub fn version_from_output(out: &str) -> (r: String)
    ensures
        r@ == version_in_output(out@),
{
    let cs = chars_of(out);
    let n = cs.len();
    let ghost s = out@;
    let mut end: usize = n;
    assert(s.subrange(0, n as int) =~= s);
    while end > 0 && white(cs[end - 1])
        invariant
            cs@ == s,
            n == s.len(),
            end <= n,
            trim_end(s) == trim_end(s.subrange(0, end as int)),
        decreases end,
    {
        proof {
            lemma_trim_end_step(s, end as int);
        }
        end = end - 1;
    }
    assert(trim_end(s) == s.subrange(0, end as int)) by {
        assert(s.subrange(0, n as int) =~= s);
    }
    let mut start: usize = 0;
    while start < end && white(cs[start])
        invariant
            cs@ == s,
            end <= n == s.len(),
            start <= end,
            trim(s) == trim_start(s.subrange(start as int, end as int)),
        decreases end - start,
    {
        proof {
            lemma_trim_start_step(s, start as int, end as int);
        }
        start = start + 1;
    }
    assert(trim(s) =~= s.subrange(start as int, end as int)) by {
        assert(trim_start(s.subrange(start as int, end as int)) == s.subrange(
            start as int,
            end as int,
        ));
    }
    let mut w: usize = end;
    assert(s.subrange(w as int, end as int) =~= Seq::<char>::empty());
    assert(last_word(s.subrange(start as int, end as int)) =~= last_word(
        s.subrange(start as int, w as int),
    ) + s.subrange(w as int, end as int));
    while w > start && !white(cs[w - 1])
        invariant
            cs@ == s,
            end <= n == s.len(),
            start <= w <= end,
            last_word(s.subrange(start as int, end as int)) == last_word(
                s.subrange(start as int, w as int),
            ) + s.subrange(w as int, end as int),
        decreases w,
    {
        proof {
            lemma_last_word_step(s, start as int, w as int, end as int);
        }
        w = w - 1;
    }
    assert(last_word(s.subrange(start as int, w as int)) =~= Seq::<char>::empty());
    assert(last_word(trim(s)) =~= s.subrange(w as int, end as int));
    let mut k: usize = w;
    let mut dotted = false;
    while k < end
        invariant
            cs@ == s,
            end <= n == s.len(),
            w <= k <= end,
            dotted <==> exists|i: int| w <= i < k && s[i] == '.',
        decreases end - k,
    {
        if cs[k] == '.' {
            dotted = true;
        }
        k = k + 1;
    }
    let ghost word = s.subrange(w as int, end as int);
    assert(dotted == word.contains('.')) by {
        if dotted {
            let i = choose|i: int| w <= i < end && s[i] == '.';
            assert(word[i - w] == '.');
        }
        if word.contains('.') {
            let j = choose|j: int| 0 <= j < word.len() && word[j] == '.';
            assert(s[w + j] == '.');
        }
    }
    if dotted {
        String::from_str(out.substring_char(w, end))
    } else {
        String::from_str(out.substring_char(start, end))
    }
}

/// The installed version, from whether a binary is installed, whether its
/// version query exited successfully, and what it printed.
pub fn resolve_version(installed: bool, exited_ok: bool, out: &str) -> (r: String)
    ensures
        r@ == resolved_version(installed, exited_ok, out@),
{
    if !installed || !exited_ok {
        let r = String::from_str("0.0.0");
        proof {
            reveal_strlit("0.0.0");
        }
        assert(r@ =~= sentinel());
        r
    } else {
        version_from_output(out)
    }
}

#[verifier::external_type_specification]
#[verifier::external_body]
pub struct ExSemverVersion(semver::Version);

/// Whether `semver::Version::parse` accepts the text.
pub uninterp spec fn semver_accepts(text: Seq<char>) -> bool;

/// Whether the version parsed from `a` orders before the one parsed from `b`
/// (both texts accepted by `semver::Version::parse`).
pub uninterp spec fn semver_precedes(a: Seq<char>, b: Seq<char>) -> bool;

/// Relies on `semver::Version::parse`: it succeeds exactly on the texts that
/// are semantic versions, which depends on the text alone.
#[verifier::external_body]
fn parse_semver(text: &str) -> (r: Option<semver::Version>)
    ensures
        r.is_some() == semver_accepts(text@),
{
    semver::Version::parse(text).ok()
}

/// A semantic version together with the text it was parsed from.
pub struct ParsedVersion {
    version: semver::Version,
    text: Ghost<Seq<char>>,
}

impl ParsedVersion {
    pub closed spec fn source(&self) -> Seq<char> {
        self.text@
    }

    /// Parses `text` as a semantic version; `None` where it is not one.
    pub fn parse(text: &str) -> (r: Option<ParsedVersion>)
        ensures
            r.is_some() == semver_accepts(text@),
            r matches Some(p) ==> p.source() == text@,
    {
        match parse_semver(text) {
            Some(version) => Some(ParsedVersion { version, text: Ghost(text@) }),
            None => None,
        }
    }
}

/// Relies on the ordering of `semver::Version` (derived: major, minor, patch,
/// pre-release, build metadata in turn). A `ParsedVersion` is only built by
/// `ParsedVersion::parse`, so its version is the one parsed from its text.
#[verifier::external_body]
fn semver_newer(a: &ParsedVersion, b: &ParsedVersion) -> (r: bool)
    ensures
        r == semver_precedes(b.source(), a.source()),
{
    a.version > b.version
}

/// `s` without one leading `v`.
pub open spec fn strip_v(s: Seq<char>) -> Seq<char> {
    if s.len() > 0 && s[0] == 'v' {
        s.drop_first()
    } else {
        s
    }
}

/// Whether `latest` is an update over `current`: compared as semantic
/// versions where both are ones (after one leading `v` is dropped), else
/// whenever the texts differ and `latest` is not the sentinel.
pub open spec fn update_available(current: Seq<char>, latest: Seq<char>) -> bool {
    let c = strip_v(current);
    let l = strip_v(latest);
    if semver_accepts(l) && semver_accepts(c) {
        semver_precedes(c, l)
    } else {
        l != c && l != sentinel()
    }
}

fn without_v(s: &str) -> (r: &str)
    ensures
        r@ == strip_v(s@),
{
    let n = s.unicode_len();
    if n > 0 && s.get_char(0) == 'v' {
        s.substring_char(1, n)
    } else {
        s
    }
}

/// Whether the release tagged `latest` is an update over the installed
/// version `current`.
pub fn is_update_available(current: &str, latest: &str) -> (r: bool)
    ensures
        r == update_available(current@, latest@),
{
    let c = without_v(current);
    let l = without_v(latest);
    let pl = ParsedVersion::parse(l);
    let pc = ParsedVersion::parse(c);
    match (pl, pc) {
        (Some(pl), Some(pc)) => semver_newer(&pl, &pc),
        _ => {
            let lc = chars_of(l);
            let cc = chars_of(c);
            let zero = chars_of("0.0.0");
            proof {
                reveal_strlit("0.0.0");
            }
            assert(zero@ =~= sentinel());
            !same_chars(&lc, &cc) && !same_chars(&lc, &zero)
        },
    }
}

} // verus!
