//! The answer of a C64 Ultimate to the discovery probe: a banner such as
//! `*** C64 Ultimate (V1.47) 3.14 ***`, read for its version token.

use vstd::prelude::*;
use vstd::slice::slice_subrange;
use vstd::utf8::{decode_utf8, valid_utf8};
use crate::text::{chars_of, string_from_utf8};

verus! {

/// The four bytes of the probe that is broadcast.
pub open spec fn probe_bytes() -> Seq<u8> {
    seq![0x70u8, 0x69u8, 0x6Eu8, 0x67u8]
}

/// The text that a banner must hold: `C64 Ultimate`.
pub open spec fn marker() -> Seq<char> {
    seq!['C', '6', '4', ' ', 'U', 'l', 't', 'i', 'm', 'a', 't', 'e']
}

/// Whether `c` separates tokens: the characters that Unicode marks as
/// White_Space.
pub open spec fn is_space(c: char) -> bool {
    let n = c as u32;
    ||| 0x09 <= n <= 0x0D
    ||| n == 0x20
    ||| n == 0x85
    ||| n == 0xA0
    ||| n == 0x1680
    ||| 0x2000 <= n <= 0x200A
    ||| n == 0x2028
    ||| n == 0x2029
    ||| n == 0x202F
    ||| n == 0x205F
    ||| n == 0x3000
}

/// Whether `c` may stand in a version token: a decimal digit or a dot.
pub open spec fn is_version_char(c: char) -> bool {
    '0' <= c <= '9' || c == '.'
}

/// Whether `token` is made of digits and dots alone.
pub open spec fn is_version(token: Seq<char>) -> bool {
    forall|i: int| 0 <= i < token.len() ==> is_version_char(#[trigger] token[i])
}

/// Whether `pat` stands in `s` at index `i`.
pub open spec fn occurs_at(s: Seq<char>, pat: Seq<char>, i: int) -> bool {
    &&& 0 <= i
    &&& i + pat.len() <= s.len()
    &&& s.subrange(i, i + pat.len()) == pat
}

/// The index of the first place at or after `from` where `pat` stands in
/// `s`.
pub open spec fn find_from(s: Seq<char>, pat: Seq<char>, from: int) -> Option<int>
    decreases s.len() + 1 - from,
{
    if 0 <= from && from + pat.len() <= s.len() {
        if occurs_at(s, pat, from) {
            Some(from)
        } else {
            find_from(s, pat, from + 1)
        }
    } else {
        None
    }
}

/// What stands between the first `pat` in `s` and the next one after it, or
/// the end of `s` where there is no next one; nothing where `s` holds no
/// `pat`.
pub open spec fn second_piece(s: Seq<char>, pat: Seq<char>) -> Option<Seq<char>> {
    match find_from(s, pat, 0) {
        None => None,
        Some(i) => {
            let rest = s.skip(i + pat.len());
            match find_from(rest, pat, 0) {
                None => Some(rest),
                Some(j) => Some(rest.take(j)),
            }
        },
    }
}

/// The number of characters at the start of `s` that satisfy `space`
/// (`want` true) or do not (`want` false).
pub open spec fn run_length(s: Seq<char>, want: bool) -> nat
    decreases s.len(),
{
    if s.len() > 0 && is_space(s[0]) == want {
        1 + run_length(s.skip(1), want)
    } else {
        0
    }
}

/// The first token of `s`: its first run of characters that are no
/// separators; nothing where `s` holds only separators.
pub open spec fn first_token(s: Seq<char>) -> Option<Seq<char>> {
    let body = s.skip(run_length(s, true) as int);
    if body.len() == 0 {
        None
    } else {
        Some(body.take(run_length(body, false) as int))
    }
}

/// The version token of a banner: behind the first marker, and before the
/// next one, the text between its first `)` and its next `)` is taken, and
/// of that the first token, which must be made of digits and dots alone.
pub open spec fn version_token(banner: Seq<char>) -> Option<Seq<char>> {
    match second_piece(banner, marker()) {
        None => None,
        Some(named) => match second_piece(named, seq![')']) {
            None => None,
            Some(tail) => match first_token(tail) {
                None => None,
                Some(token) => if is_version(token) {
                    Some(token)
                } else {
                    None
                },
            },
        },
    }
}

/// What `find_from` finds is the first place at or after `from` where `pat`
/// stands; it finds nothing only where `pat` stands nowhere from there on.
pub proof fn lemma_find_from(s: Seq<char>, pat: Seq<char>, from: int)
    requires
        0 <= from,
    ensures
        match find_from(s, pat, from) {
            Some(i) => from <= i && occurs_at(s, pat, i) && forall|k: int|
                from <= k < i ==> !occurs_at(s, pat, k),
            None => forall|k: int| from <= k ==> !occurs_at(s, pat, k),
        },
    decreases s.len() + 1 - from,
{
    if from + pat.len() <= s.len() && !occurs_at(s, pat, from) {
        lemma_find_from(s, pat, from + 1);
    }
}

/// A run ends at the end of the text or before the first character of the
/// other sort, and holds only characters of its own sort.
pub proof fn lemma_run_length(s: Seq<char>, want: bool)
    ensures
        run_length(s, want) <= s.len(),
        forall|k: int| 0 <= k < run_length(s, want) ==> is_space(#[trigger] s[k]) == want,
        run_length(s, want) < s.len() ==> is_space(s[run_length(s, want) as int]) != want,
    decreases s.len(),
{
    if s.len() > 0 && is_space(s[0]) == want {
        let rest = s.skip(1);
        lemma_run_length(rest, want);
        assert forall|k: int| 0 <= k < run_length(s, want) implies is_space(#[trigger] s[k])
            == want by {
            if k > 0 {
                assert(s[k] == rest[k - 1]);
            }
        }
        if run_length(s, want) < s.len() {
            assert(s[run_length(s, want) as int] == rest[run_length(rest, want) as int]);
        }
    }
}

/// A first token is not empty and holds no separator; there is none only
/// where the text holds separators alone.
pub proof fn lemma_first_token(s: Seq<char>)
    ensures
        match first_token(s) {
            Some(t) => t.len() > 0 && forall|k: int| 0 <= k < t.len() ==> !is_space(#[trigger] t[k]),
            None => forall|k: int| 0 <= k < s.len() ==> is_space(#[trigger] s[k]),
        },
{
    lemma_run_length(s, true);
    let body = s.skip(run_length(s, true) as int);
    if body.len() > 0 {
        lemma_run_length(body, false);
        assert(body[0] == s[run_length(s, true) as int]);
    }
}

/// A banner with a version token holds the marker and, somewhere behind
/// it, a `)`; the token is not empty and made of digits and dots alone.
pub proof fn lemma_version_token(banner: Seq<char>)
    requires
        version_token(banner) is Some,
    ensures
        exists|i: int, j: int|
            occurs_at(banner, marker(), i) && i + marker().len() <= j < banner.len() && banner[j]
                == ')',
        version_token(banner)->0.len() > 0,
        is_version(version_token(banner)->0),
{
    let close = seq![')'];
    lemma_find_from(banner, marker(), 0);
    let i = find_from(banner, marker(), 0)->0;
    let rest = banner.skip(i + marker().len());
    let named = second_piece(banner, marker())->0;
    lemma_find_from(rest, marker(), 0);
    lemma_find_from(named, close, 0);
    let p = find_from(named, close, 0)->0;
    assert(named.subrange(p, p + 1)[0] == ')');
    assert(named[p] == banner[i + marker().len() + p]);
    assert(occurs_at(banner, marker(), i) && i + marker().len() <= i + marker().len() + p
        < banner.len() && banner[i + marker().len() + p] == ')');
    lemma_first_token(second_piece(named, close)->0);
}

/// Tells whether `c` separates tokens.
pub fn separates(c: char) -> (b: bool)
    ensures
        b == is_space(c),
{
    let n: u32 = c as u32;
    (0x09 <= n && n <= 0x0D) || n == 0x20 || n == 0x85 || n == 0xA0 || n == 0x1680 || (0x2000 <= n
        && n <= 0x200A) || n == 0x2028 || n == 0x2029 || n == 0x202F || n == 0x205F || n == 0x3000
}

/// Tells whether `pat` stands in `s` at index `i`.
fn stands_at(s: &[char], pat: &[char], i: usize) -> (b: bool)
    requires
        i + pat@.len() <= s@.len(),
    ensures
        b == occurs_at(s@, pat@, i as int),
{
    let n: usize = s.len();
    let mut k: usize = 0;
    while k < pat.len()
        invariant
            k <= pat@.len(),
            n == s@.len(),
            i + pat@.len() <= s@.len(),
            forall|j: int| 0 <= j < k ==> s@[i + j] == pat@[j],
        decreases pat@.len() - k,
    {
        if s[i + k] != pat[k] {
            assert(s@.subrange(i as int, i + pat@.len())[k as int] == s@[i + k]);
            return false;
        }
        k = k + 1;
    }
    assert(s@.subrange(i as int, i + pat@.len()) =~= pat@);
    true
}

/// Finds the first place where `pat` stands in `s`.
fn find(s: &[char], pat: &[char]) -> (r: Option<usize>)
    ensures
        match r {
            Some(i) => find_from(s@, pat@, 0) == Some(i as int) && i + pat@.len() <= s@.len(),
            None => find_from(s@, pat@, 0) is None,
        },
{
    if pat.len() > s.len() {
        return None;
    }
    let last: usize = s.len() - pat.len();
    let mut i: usize = 0;
    while i < last
        invariant
            last == s@.len() - pat@.len(),
            i <= last,
            find_from(s@, pat@, 0) == find_from(s@, pat@, i as int),
        decreases last - i,
    {
        if stands_at(s, pat, i) {
            return Some(i);
        }
        i = i + 1;
    }
    if stands_at(s, pat, last) {
        Some(last)
    } else {
        assert(find_from(s@, pat@, last + 1) is None);
        None
    }
}

/// Takes what stands between the first `pat` in `s` and the next one.
fn piece_after<'a>(s: &'a [char], pat: &[char]) -> (r: Option<&'a [char]>)
    ensures
        match r {
            Some(piece) => second_piece(s@, pat@) == Some(piece@),
            None => second_piece(s@, pat@) is None,
        },
{
    match find(s, pat) {
        None => None,
        Some(i) => {
            let n: usize = s.len();
            let rest = slice_subrange(s, i + pat.len(), n);
            assert(rest@ =~= s@.skip(i + pat@.len()));
            match find(rest, pat) {
                None => Some(rest),
                Some(j) => {
                    let piece = slice_subrange(rest, 0, j);
                    assert(piece@ =~= rest@.take(j as int));
                    Some(piece)
                },
            }
        },
    }
}

/// Counts the characters at the start of `s` that are separators (`want`
/// true) or are none (`want` false).
fn run(s: &[char], want: bool) -> (n: usize)
    ensures
        n == run_length(s@, want),
        n <= s@.len(),
{
    let mut n: usize = 0;
    assert(s@.skip(0) =~= s@);
    while n < s.len() && separates(s[n]) == want
        invariant
            n <= s@.len(),
            run_length(s@, want) == n + run_length(s@.skip(n as int), want),
        decreases s@.len() - n,
    {
        assert(s@.skip(n as int).skip(1) =~= s@.skip(n + 1));
        n = n + 1;
    }
    n
}

/// Takes the first token of `s`.
fn token<'a>(s: &'a [char]) -> (r: Option<&'a [char]>)
    ensures
        match r {
            Some(t) => first_token(s@) == Some(t@),
            None => first_token(s@) is None,
        },
{
    let start = run(s, true);
    let body = slice_subrange(s, start, s.len());
    assert(body@ =~= s@.skip(start as int));
    if body.len() == 0 {
        None
    } else {
        let n = run(body, false);
        let t = slice_subrange(body, 0, n);
        assert(t@ =~= body@.take(n as int));
        Some(t)
    }
}

/// Reads the version token out of a banner, where the banner has one.
pub fn banner_version(banner: &str) -> (r: Option<String>)
    ensures
        match r {
            Some(v) => version_token(banner@) == Some(v@),
            None => version_token(banner@) is None,
        },
{
    let text = chars_of(banner);
    let name: [char; 12] = ['C', '6', '4', ' ', 'U', 'l', 't', 'i', 'm', 'a', 't', 'e'];
    let paren: [char; 1] = [')'];
    assert(name@ =~= marker());
    assert(paren@ =~= seq![')']);
    let named = match piece_after(text.as_slice(), name.as_slice()) {
        Some(p) => p,
        None => { return None; },
    };
    let tail = match piece_after(named, paren.as_slice()) {
        Some(p) => p,
        None => { return None; },
    };
    let found = match token(tail) {
        Some(t) => t,
        None => { return None; },
    };
    let mut version = String::new();
    let mut i: usize = 0;
    while i < found.len()
        invariant
            i <= found@.len(),
            version@ == found@.take(i as int),
            version_token(banner@) == if is_version(found@) {
                Some(found@)
            } else {
                None
            },
            forall|j: int| 0 <= j < i ==> is_version_char(#[trigger] found@[j]),
        decreases found@.len() - i,
    {
        let c = found[i];
        if !(('0' <= c && c <= '9') || c == '.') {
            assert(!is_version_char(found@[i as int]));
            assert(!is_version(found@));
            return None;
        }
        version.push(c);
        i = i + 1;
        assert(version@ =~= found@.take(i as int));
    }
    assert(found@.take(found@.len() as int) =~= found@);
    assert(is_version(found@));
    Some(version)
}

/// The UDP port that the probe is broadcast to.
pub const PROBE_PORT: u16 = 64;

/// How long an answer is waited for, in milliseconds.
pub const PROBE_TIMEOUT_MS: u64 = 500;

/// The probe that is broadcast: the four bytes of `ping`.
pub fn probe() -> (bytes: Vec<u8>)
    ensures
        bytes@ == probe_bytes(),
{
    let mut bytes: Vec<u8> = Vec::new();
    bytes.push(0x70);
    bytes.push(0x69);
    bytes.push(0x6E);
    bytes.push(0x67);
    assert(bytes@ =~= probe_bytes());
    bytes
}

/// What came of the one receive that follows the probe.
pub enum Probe {
    /// A datagram came: its payload, and the address it was sent from.
    Reply { payload: Vec<u8>, sender: String },
    /// Nothing came within the timeout.
    TimedOut,
    /// The socket could not be set up, written or read.
    Failed,
}

/// How a discovery ended.
pub enum Discovery {
    /// A device answered from `address` with a banner of this `version`.
    Found { address: String, version: String },
    /// Nothing answered in time.
    TimedOut,
    /// What answered sent no banner of a C64 Ultimate.
    Malformed,
    /// The socket failed.
    Failed,
}

/// The version token that a payload carries: that of its text, where the
/// payload is valid UTF-8.
pub open spec fn payload_version(payload: Seq<u8>) -> Option<Seq<char>> {
    if valid_utf8(payload) {
        version_token(decode_utf8(payload))
    } else {
        None
    }
}

/// Judges the outcome of a probe. The first datagram is the answer,
/// whoever sent it; the address found is that of its sender, whatever the
/// payload claims.
pub fn judge(probe: Probe) -> (d: Discovery)
    ensures
        match probe {
            Probe::Reply { payload, sender } => match payload_version(payload@) {
                Some(v) => d matches Discovery::Found { address, version } && address == sender
                    && version@ == v,
                None => d is Malformed,
            },
            Probe::TimedOut => d is TimedOut,
            Probe::Failed => d is Failed,
        },
{
    match probe {
        Probe::Reply { payload, sender } => {
            match string_from_utf8(payload) {
                None => Discovery::Malformed,
                Some(text) => {
                    proof {
                        vstd::utf8::encode_utf8_decode_utf8(text@);
                    }
                    match banner_version(text.as_str()) {
                        Some(version) => Discovery::Found { address: sender, version },
                        None => Discovery::Malformed,
                    }
                },
            }
        },
        Probe::TimedOut => Discovery::TimedOut,
        Probe::Failed => Discovery::Failed,
    }
}

impl Discovery {
    /// The address found, if one was: every other ending is "not found".
    pub fn address(self) -> (a: Option<String>)
        ensures
            match self {
                Discovery::Found { address, version } => a == Some(address),
                _ => a is None,
            },
    {
        match self {
            Discovery::Found { address, version } => Some(address),
            _ => None,
        }
    }
}

} // verus!
