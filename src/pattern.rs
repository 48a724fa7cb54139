use vstd::prelude::*;
use vstd::utf8::is_ascii_chars;

use crate::error::FaitheError;

verus! {

/// One position of a pattern: a byte that must be equal, or any byte.
#[derive(Debug, Clone, Copy, PartialEq, Eq, Structural)]
pub enum ByteMatch {
    /// Only this byte matches.
    Exact(u8),
    /// Every byte matches.
    Any,
}

impl ByteMatch {
    /// Whether this position accepts byte `b`.
    pub open spec fn accepts(self, b: u8) -> bool {
        match self {
            ByteMatch::Exact(e) => e == b,
            ByteMatch::Any => true,
        }
    }

    /// Tests one byte against this position.
    pub fn matches(&self, b: u8) -> (r: bool)
        ensures
            r == self.accepts(b),
    {
        match self {
            ByteMatch::Exact(e) => *e == b,
            ByteMatch::Any => true,
        }
    }
}

/// Whether window `w` matches pattern `p`: it is long enough, and every
/// position of `p` accepts the byte at the same offset of `w`.
pub open spec fn window_matches(p: Seq<ByteMatch>, w: Seq<u8>) -> bool {
    &&& w.len() >= p.len()
    &&& forall|k: int| 0 <= k < p.len() ==> #[trigger] p[k].accepts(w[k])
}

/// Whether pattern `p` matches region `r` at start offset `i`, the whole
/// window lying inside the region.
pub open spec fn matches_at(p: Seq<ByteMatch>, r: Seq<u8>, i: int) -> bool {
    &&& 0 <= i
    &&& i + p.len() <= r.len()
    &&& forall|k: int| 0 <= k < p.len() ==> #[trigger] p[k].accepts(r[i + k])
}

/// The start offsets below `n` at which `p` matches `r`, in ascending order.
pub open spec fn match_starts(p: Seq<ByteMatch>, r: Seq<u8>, n: int) -> Seq<int>
    decreases n,
{
    if n <= 0 {
        Seq::empty()
    } else if matches_at(p, r, n - 1) {
        match_starts(p, r, n - 1).push(n - 1)
    } else {
        match_starts(p, r, n - 1)
    }
}

/// Every start offset at which `p` matches `r`, in ascending order.
pub open spec fn all_matches(p: Seq<ByteMatch>, r: Seq<u8>) -> Seq<int> {
    match_starts(p, r, r.len() + 1 as int)
}

/// The pattern that a code-style byte array and mask describe.
pub open spec fn code_pattern(bytes: Seq<u8>, mask: Seq<u8>) -> Seq<ByteMatch> {
    Seq::new(bytes.len(), |i: int| if mask[i] == 0x3f { ByteMatch::Any } else { ByteMatch::Exact(bytes[i]) })
}

/// ASCII whitespace as pattern text separates tokens: space, tab, line feed,
/// form feed and carriage return.
pub open spec fn is_space(b: u8) -> bool {
    b == 0x20 || b == 0x09 || b == 0x0a || b == 0x0c || b == 0x0d
}

/// Where the token that starts at `i` ends: the first whitespace byte at or
/// after `i`, or the end of the text.
pub open spec fn token_end(s: Seq<u8>, i: int) -> int
    decreases s.len() - i,
{
    if i < 0 || i >= s.len() || is_space(s[i]) {
        i
    } else {
        token_end(s, i + 1)
    }
}

/// The whitespace-separated tokens of `s` from offset `i` on.
pub open spec fn tokens_from(s: Seq<u8>, i: int) -> Seq<Seq<u8>>
    decreases s.len() - i,
    via tokens_from_decreases
{
    if i < 0 || i >= s.len() {
        Seq::empty()
    } else if is_space(s[i]) {
        tokens_from(s, i + 1)
    } else {
        seq![s.subrange(i, token_end(s, i))] + tokens_from(s, token_end(s, i))
    }
}

#[via_fn]
proof fn tokens_from_decreases(s: Seq<u8>, i: int) {
    if 0 <= i < s.len() && !is_space(s[i]) {
        lemma_token_end_bounds(s, i + 1);
    }
}

proof fn lemma_token_end_bounds(s: Seq<u8>, i: int)
    ensures
        token_end(s, i) >= i,
        i <= s.len() ==> token_end(s, i) <= s.len(),
    decreases s.len() - i,
{
    if 0 <= i < s.len() && !is_space(s[i]) {
        lemma_token_end_bounds(s, i + 1);
    }
}

/// Value of an ASCII hexadecimal digit, either case; -1 for any other byte.
pub open spec fn hex_digit_value(b: u8) -> int {
    if 0x30 <= b <= 0x39 {
        b - 0x30
    } else if 0x41 <= b <= 0x46 {
        b - 0x41 + 10
    } else if 0x61 <= b <= 0x66 {
        b - 0x61 + 10
    } else {
        -1
    }
}

/// Base-16 value of a run of hexadecimal digits.
pub open spec fn hex_value(d: Seq<u8>) -> int
    decreases d.len(),
{
    if d.len() == 0 {
        0
    } else {
        hex_value(d.drop_last()) * 16 + hex_digit_value(d.last())
    }
}

/// Whether every byte of `d` is a hex digit.
pub open spec fn all_hex_digits(d: Seq<u8>) -> bool {
    forall|k: int| 0 <= k < d.len() ==> hex_digit_value(#[trigger] d[k]) >= 0
}

/// The digits of a hex byte token: the token without a leading `+`.
pub open spec fn unsigned_digits(t: Seq<u8>) -> Seq<u8> {
    if t.len() > 0 && t[0] == 0x2b {
        t.drop_first()
    } else {
        t
    }
}

/// A byte written in base 16: an optional `+`, then one or more hex digits
/// whose value fits in a byte.
pub open spec fn hex_byte(t: Seq<u8>) -> Option<u8> {
    let d = unsigned_digits(t);
    if d.len() > 0 && all_hex_digits(d) && hex_value(d) < 256 {
        Some(hex_value(d) as u8)
    } else {
        None
    }
}

/// The matcher that one token stands for. IDA style (`peid == false`):
/// `?` or a hex byte. PEiD style: exactly two characters, `??` or a hex byte.
pub open spec fn token_matcher(t: Seq<u8>, peid: bool) -> Option<ByteMatch> {
    if peid && t.len() != 2 {
        None
    } else if (!peid && t == seq![0x3fu8]) || (peid && t == seq![0x3fu8, 0x3fu8]) {
        Some(ByteMatch::Any)
    } else {
        match hex_byte(t) {
            Some(b) => Some(ByteMatch::Exact(b)),
            None => None,
        }
    }
}

/// The pattern that text bytes `s` describe, or `None` when a token is invalid.
pub open spec fn parse_text(s: Seq<u8>, peid: bool) -> Option<Seq<ByteMatch>> {
    let toks = tokens_from(s, 0);
    if forall|k: int| 0 <= k < toks.len() ==> (#[trigger] token_matcher(toks[k], peid)) is Some {
        Some(toks.map_values(|t: Seq<u8>| token_matcher(t, peid)->0))
    } else {
        None
    }
}

/// The bytes of ASCII text.
pub open spec fn ascii_bytes(text: Seq<char>) -> Seq<u8> {
    Seq::new(text.len(), |i: int| text[i] as u8)
}

/// What compiling pattern text gives: `NonAsciiPattern` for text that is not
/// ASCII, `InvalidPattern` for a bad token, else the pattern.
pub open spec fn parse_pattern(text: Seq<char>, peid: bool) -> Result<Seq<ByteMatch>, FaitheError> {
    if !is_ascii_chars(text) {
        Err(FaitheError::NonAsciiPattern)
    } else {
        match parse_text(ascii_bytes(text), peid) {
            Some(p) => Ok(p),
            None => Err(FaitheError::InvalidPattern),
        }
    }
}

fn is_space_byte(b: u8) -> (r: bool)
    ensures
        r == is_space(b),
{
    b == 0x20 || b == 0x09 || b == 0x0a || b == 0x0c || b == 0x0d
}

fn hex_digit(b: u8) -> (r: Option<u8>)
    ensures
        r is Some <==> hex_digit_value(b) >= 0,
        r is Some ==> r->0 as int == hex_digit_value(b) && r->0 < 16,
{
    if 0x30 <= b && b <= 0x39 {
        Some(b - 0x30)
    } else if 0x41 <= b && b <= 0x46 {
        Some(b - 0x41 + 10)
    } else if 0x61 <= b && b <= 0x66 {
        Some(b - 0x61 + 10)
    } else {
        None
    }
}

/// Reads the hex byte written in `s[start..end]`.
fn parse_hex_byte(s: &[u8], start: usize, end: usize) -> (r: Option<u8>)
    requires
        start <= end <= s@.len(),
    ensures
        r == hex_byte(s@.subrange(start as int, end as int)),
{
    let ghost t = s@.subrange(start as int, end as int);
    let mut i: usize = start;
    if i < end && s[i] == 0x2bu8 {
        i += 1;
    }
    let ghost first = i as int;
    let ghost d = unsigned_digits(t);
    assert(d =~= s@.subrange(first, end as int));
    if i >= end {
        return None;
    }
    let mut v: u32 = 0;
    let mut big: bool = false;
    while i < end
        invariant
            0 <= first <= i <= end <= s@.len(),
            first < end,
            start <= end,
            t == s@.subrange(start as int, end as int),
            d == unsigned_digits(t),
            d == s@.subrange(first, end as int),
            forall|k: int| first <= k < i ==> hex_digit_value(#[trigger] s@[k]) >= 0,
            !big ==> v as int == hex_value(s@.subrange(first, i as int)) && v <= 255,
            big ==> hex_value(s@.subrange(first, i as int)) > 255,
        decreases end - i,
    {
        let ghost pre = s@.subrange(first, i as int);
        let ghost next = s@.subrange(first, i as int + 1);
        assert(next.drop_last() =~= pre);
        assert(next.last() == s@[i as int]);
        match hex_digit(s[i]) {
            None => {
                assert(d[i - first] == s@[i as int]);
                assert(hex_digit_value(d[i - first]) < 0);
                assert(!all_hex_digits(d));
                return None;
            },
            Some(x) => {
                if !big {
                    v = v * 16 + x as u32;
                    if v > 255 {
                        big = true;
                    }
                }
            },
        }
        i += 1;
    }
    assert(s@.subrange(first, i as int) =~= d);
    assert forall|k: int| 0 <= k < d.len() implies hex_digit_value(#[trigger] d[k]) >= 0 by {
        assert(d[k] == s@[first + k]);
    }
    if big {
        None
    } else {
        Some(v as u8)
    }
}

/// Reads the token `s[start..end]` as one matcher.
fn parse_token(s: &[u8], start: usize, end: usize, peid: bool) -> (r: Option<ByteMatch>)
    requires
        start <= end <= s@.len(),
    ensures
        r == token_matcher(s@.subrange(start as int, end as int), peid),
{
    let ghost t = s@.subrange(start as int, end as int);
    let len: usize = end - start;
    if peid && len != 2 {
        return None;
    }
    if !peid && len == 1 && s[start] == 0x3fu8 {
        assert(t =~= seq![0x3fu8]);
        return Some(ByteMatch::Any);
    }
    if peid && s[start] == 0x3fu8 && s[start + 1] == 0x3fu8 {
        assert(t =~= seq![0x3fu8, 0x3fu8]);
        return Some(ByteMatch::Any);
    }
    assert(!peid ==> t != seq![0x3fu8]) by {
        if !peid && t == seq![0x3fu8] {
            assert(t.len() == 1 && t[0] == s@[start as int]);
        }
    }
    assert(peid ==> t != seq![0x3fu8, 0x3fu8]) by {
        if peid && t == seq![0x3fu8, 0x3fu8] {
            assert(t[0] == s@[start as int] && t[1] == s@[start + 1]);
        }
    }
    match parse_hex_byte(s, start, end) {
        Some(b) => Some(ByteMatch::Exact(b)),
        None => None,
    }
}

/// Compiles text bytes of either notation.
fn parse_text_bytes(s: &[u8], peid: bool) -> (r: Option<Vec<ByteMatch>>)
    ensures
        r is Some ==> parse_text(s@, peid) == Some(r->0@),
        r is None ==> parse_text(s@, peid) is None,
{
    let n: usize = s.len();
    let mut out: Vec<ByteMatch> = Vec::new();
    let ghost done: Seq<Seq<u8>> = Seq::empty();
    let mut i: usize = 0;
    while i < n
        invariant
            n == s@.len(),
            i <= n,
            tokens_from(s@, 0) == done + tokens_from(s@, i as int),
            out@ == done.map_values(|t: Seq<u8>| token_matcher(t, peid)->0),
            forall|k: int| 0 <= k < done.len() ==> (#[trigger] token_matcher(done[k], peid)) is Some,
        decreases n - i,
    {
        if is_space_byte(s[i]) {
            assert(tokens_from(s@, i as int) == tokens_from(s@, i as int + 1));
            i += 1;
        } else {
            let mut j: usize = i + 1;
            while j < n && !is_space_byte(s[j])
                invariant
                    n == s@.len(),
                    i < j <= n,
                    token_end(s@, i as int) == token_end(s@, j as int),
                decreases n - j,
            {
                j += 1;
            }
            let ghost tok = s@.subrange(i as int, j as int);
            assert(token_end(s@, j as int) == j);
            assert(tokens_from(s@, i as int) == seq![tok] + tokens_from(s@, j as int));
            assert(done + tokens_from(s@, i as int) =~= done.push(tok) + tokens_from(s@, j as int));
            match parse_token(s, i, j, peid) {
                None => {
                    assert(tokens_from(s@, 0)[done.len() as int] == tok);
                    return None;
                },
                Some(m) => {
                    out.push(m);
                    proof {
                        done = done.push(tok);
                    }
                    assert(out@ =~= done.map_values(|t: Seq<u8>| token_matcher(t, peid)->0));
                },
            }
            i = j;
        }
    }
    assert(done + tokens_from(s@, n as int) =~= done);
    Some(out)
}

/// A compiled memory pattern: a sequence of byte matchers.
#[derive(Debug, Clone)]
pub struct Pattern(pub(crate) Vec<ByteMatch>);

impl View for Pattern {
    type V = Seq<ByteMatch>;

    open(crate) spec fn view(&self) -> Seq<ByteMatch> {
        self.0@
    }
}

impl Pattern {
    /// Number of positions in the pattern.
    pub fn len(&self) -> (r: usize)
        ensures
            r == self@.len(),
    {
        self.0.len()
    }

    /// Tests a window; a window shorter than the pattern never matches.
    pub fn matches(&self, data: &[u8]) -> (r: bool)
        ensures
            r == window_matches(self@, data@),
            data@.len() < self@.len() ==> !r,
    {
        if data.len() < self.0.len() {
            return false;
        }
        let mut i: usize = 0;
        while i < self.0.len()
            invariant
                0 <= i <= self.0@.len(),
                self.0@.len() <= data@.len(),
                forall|k: int| 0 <= k < i ==> #[trigger] self.0@[k].accepts(data@[k]),
            decreases self.0@.len() - i,
        {
            if !self.0[i].matches(data[i]) {
                return false;
            }
            i += 1;
        }
        true
    }

    /// Tests the window of `region` that starts at `start`.
    fn matches_in(&self, region: &[u8], start: usize) -> (r: bool)
        requires
            start + self@.len() <= region@.len(),
        ensures
            r == matches_at(self@, region@, start as int),
    {
        let n: usize = region.len();
        let mut i: usize = 0;
        while i < self.0.len()
            invariant
                0 <= i <= self.0@.len(),
                n == region@.len(),
                start + self.0@.len() <= region@.len(),
                forall|k: int| 0 <= k < i ==> #[trigger] self.0@[k].accepts(region@[start + k]),
            decreases self.0@.len() - i,
        {
            if !self.0[i].matches(region[start + i]) {
                return false;
            }
            i += 1;
        }
        true
    }

    /// Every start offset in `region` at which the pattern matches, in
    /// ascending order; overlapping matches are each reported.
    pub fn find_all(&self, region: &[u8]) -> (r: Vec<usize>)
        ensures
            r@.map_values(|x: usize| x as int) == all_matches(self@, region@),
    {
        let n: usize = region.len();
        let m: usize = self.0.len();
        let mut out: Vec<usize> = Vec::new();
        if m > n {
            proof {
                lemma_no_match_beyond(self@, region@, 0, n + 1);
            }
            assert(out@.map_values(|x: usize| x as int) =~= Seq::<int>::empty());
            return out;
        }
        let last: usize = n - m;
        let mut i: usize = 0;
        loop
            invariant_except_break
                out@.map_values(|x: usize| x as int) == match_starts(self@, region@, i as int),
            invariant
                m == self@.len(),
                n == region@.len(),
                last == n - m,
                i <= last,
            ensures
                out@.map_values(|x: usize| x as int) == match_starts(self@, region@, last + 1),
            decreases last - i,
        {
            let hit = self.matches_in(region, i);
            let ghost before = out@;
            if hit {
                out.push(i);
                assert(out@.map_values(|x: usize| x as int) =~= before.map_values(|x: usize| x as int).push(i as int));
            }
            if i == last {
                break;
            }
            i += 1;
        }
        proof {
            lemma_no_match_beyond(self@, region@, last + 1, n + 1);
        }
        out
    }

    /// The first start offset in `region` at which the pattern matches.
    pub fn find_first(&self, region: &[u8]) -> (r: Option<usize>)
        ensures
            r is None ==> all_matches(self@, region@).len() == 0,
            r is Some ==> all_matches(self@, region@).len() > 0
                && all_matches(self@, region@)[0] == r->0 as int
                && r->0 + self@.len() <= region@.len(),
    {
        let n: usize = region.len();
        let m: usize = self.0.len();
        if m > n {
            proof {
                lemma_no_match_beyond(self@, region@, 0, n + 1);
            }
            return None;
        }
        let last: usize = n - m;
        let mut i: usize = 0;
        loop
            invariant
                m == self@.len(),
                n == region@.len(),
                last == n - m,
                i <= last,
                match_starts(self@, region@, i as int).len() == 0,
            ensures
                match_starts(self@, region@, last + 1).len() == 0,
            decreases last - i,
        {
            if self.matches_in(region, i) {
                proof {
                    lemma_match_starts_prefix(self@, region@, i as int + 1, n + 1);
                }
                return Some(i);
            }
            if i == last {
                break;
            }
            i += 1;
        }
        proof {
            lemma_no_match_beyond(self@, region@, last + 1, n + 1);
        }
        None
    }

    /// Compiles text of either notation, after checking that it is ASCII.
    fn from_text(pat: &str, peid: bool) -> (r: Result<Self, FaitheError>)
        ensures
            r is Ok ==> parse_pattern(pat@, peid) == Ok::<Seq<ByteMatch>, FaitheError>(r->Ok_0@),
            r is Err ==> parse_pattern(pat@, peid) == Err::<Seq<ByteMatch>, FaitheError>(r->Err_0),
    {
        if !pat.is_ascii() {
            return Err(FaitheError::NonAsciiPattern);
        }
        let bytes = pat.as_bytes();
        proof {
            vstd::string::is_ascii_spec_bytes(pat);
            assert(bytes@ =~= ascii_bytes(pat@));
        }
        match parse_text_bytes(bytes, peid) {
            Some(v) => Ok(Pattern(v)),
            None => Err(FaitheError::InvalidPattern),
        }
    }

    /// Compiles an IDA-style pattern such as `"48 8B ? ? 90"`: tokens
    /// separated by whitespace, each `?` or a hex byte. Fails with
    /// `NonAsciiPattern` on text that is not ASCII and with `InvalidPattern`
    /// on any other token.
    pub fn try_from_ida_style(pat: &str) -> (r: Result<Self, FaitheError>)
        ensures
            r is Ok ==> parse_pattern(pat@, false) == Ok::<Seq<ByteMatch>, FaitheError>(r->Ok_0@),
            r is Err ==> parse_pattern(pat@, false) == Err::<Seq<ByteMatch>, FaitheError>(r->Err_0),
    {
        Self::from_text(pat, false)
    }

    /// Compiles an IDA-style pattern that is known to be valid.
    pub fn from_ida_style(pat: &str) -> (r: Self)
        requires
            parse_pattern(pat@, false) is Ok,
        ensures
            parse_pattern(pat@, false) == Ok::<Seq<ByteMatch>, FaitheError>(r@),
    {
        match Self::from_text(pat, false) {
            Ok(p) => p,
            Err(_) => Pattern(Vec::new()),
        }
    }

    /// Compiles a PEiD-style pattern such as `"48 8B ?? ?? 90"`: tokens
    /// separated by whitespace, each exactly two characters, `??` or a hex
    /// byte. Fails with `NonAsciiPattern` on text that is not ASCII and with
    /// `InvalidPattern` on any other token, such as one of another length.
    pub fn try_from_peid_style(pat: &str) -> (r: Result<Self, FaitheError>)
        ensures
            r is Ok ==> parse_pattern(pat@, true) == Ok::<Seq<ByteMatch>, FaitheError>(r->Ok_0@),
            r is Err ==> parse_pattern(pat@, true) == Err::<Seq<ByteMatch>, FaitheError>(r->Err_0),
    {
        Self::from_text(pat, true)
    }

    /// Compiles a PEiD-style pattern that is known to be valid.
    pub fn from_peid_style(pat: &str) -> (r: Self)
        requires
            parse_pattern(pat@, true) is Ok,
        ensures
            parse_pattern(pat@, true) == Ok::<Seq<ByteMatch>, FaitheError>(r@),
    {
        match Self::from_text(pat, true) {
            Ok(p) => p,
            Err(_) => Pattern(Vec::new()),
        }
    }

    /// Compiles a code-style pattern: `mask[i] == 0x3fu8` makes position `i`
    /// match any byte, any other mask byte makes it match `pat[i]` exactly.
    pub fn from_code_style(pat: &[u8], mask: &[u8]) -> (r: Self)
        requires
            pat@.len() == mask@.len(),
        ensures
            r@ == code_pattern(pat@, mask@),
    {
        let mut v: Vec<ByteMatch> = Vec::new();
        let mut i: usize = 0;
        while i < pat.len()
            invariant
                0 <= i <= pat@.len(),
                pat@.len() == mask@.len(),
                v@ =~= code_pattern(pat@, mask@).take(i as int),
            decreases pat@.len() - i,
        {
            if mask[i] == 0x3fu8 {
                v.push(ByteMatch::Any);
            } else {
                v.push(ByteMatch::Exact(pat[i]));
            }
            i += 1;
            assert(v@ =~= code_pattern(pat@, mask@).take(i as int));
        }
        Pattern(v)
    }

    /// Compiles a code-style pattern, failing with `PatternMaskMismatch`
    /// when the byte array and the mask differ in length.
    pub fn try_from_code_style(pat: &[u8], mask: &[u8]) -> (r: Result<Self, FaitheError>)
        ensures
            pat@.len() != mask@.len() ==> r == Err::<Self, FaitheError>(FaitheError::PatternMaskMismatch),
            pat@.len() == mask@.len() ==> r is Ok && r->Ok_0@ == code_pattern(pat@, mask@),
    {
        if pat.len() != mask.len() {
            Err(FaitheError::PatternMaskMismatch)
        } else {
            Ok(Self::from_code_style(pat, mask))
        }
    }
}

/// Past the last window that fits, no further start offset matches.
proof fn lemma_no_match_beyond(p: Seq<ByteMatch>, r: Seq<u8>, i: int, j: int)
    requires
        0 <= i <= j,
        i + p.len() > r.len(),
    ensures
        match_starts(p, r, j) == match_starts(p, r, i),
    decreases j - i,
{
    if j > i {
        lemma_no_match_beyond(p, r, i, j - 1);
    }
}

/// A longer bound only appends to the start offsets found below a shorter one.
proof fn lemma_match_starts_prefix(p: Seq<ByteMatch>, r: Seq<u8>, i: int, j: int)
    requires
        0 <= i <= j,
    ensures
        match_starts(p, r, j).len() >= match_starts(p, r, i).len(),
        forall|k: int| 0 <= k < match_starts(p, r, i).len()
            ==> #[trigger] match_starts(p, r, j)[k] == match_starts(p, r, i)[k],
    decreases j - i,
{
    if j > i {
        lemma_match_starts_prefix(p, r, i, j - 1);
    }
}

/// Every start offset below `n` in `match_starts` matches, they ascend
/// strictly, and every matching offset below `n` is among them.
proof fn lemma_match_starts_props(p: Seq<ByteMatch>, r: Seq<u8>, n: int)
    ensures
        forall|k: int| 0 <= k < match_starts(p, r, n).len()
            ==> 0 <= #[trigger] match_starts(p, r, n)[k] < n && matches_at(p, r, match_starts(p, r, n)[k]),
        forall|a: int, b: int| 0 <= a < b < match_starts(p, r, n).len()
            ==> match_starts(p, r, n)[a] < match_starts(p, r, n)[b],
        forall|i: int| 0 <= i < n && #[trigger] matches_at(p, r, i) ==> match_starts(p, r, n).contains(i),
    decreases n,
{
    if n > 0 {
        lemma_match_starts_props(p, r, n - 1);
        let prev = match_starts(p, r, n - 1);
        if matches_at(p, r, n - 1) {
            assert(match_starts(p, r, n) == prev.push(n - 1));
            assert forall|i: int| 0 <= i < n && #[trigger] matches_at(p, r, i) implies match_starts(p, r, n).contains(i) by {
                if i < n - 1 {
                    let k = choose|k: int| 0 <= k < prev.len() && prev[k] == i;
                    assert(match_starts(p, r, n)[k] == i);
                } else {
                    assert(match_starts(p, r, n)[prev.len() as int] == i);
                }
            }
        }
    }
}

/// `find_all` reports every start offset at which the pattern matches and
/// nothing else, each once and in ascending order, so that it gives as many
/// results as there are matching offsets, overlapping ones too.
pub proof fn find_all_reports_each_match_once(p: Seq<ByteMatch>, r: Seq<u8>)
    ensures
        forall|a: int, b: int| 0 <= a < b < all_matches(p, r).len()
            ==> all_matches(p, r)[a] < all_matches(p, r)[b],
        forall|i: int| #[trigger] matches_at(p, r, i) <==> all_matches(p, r).contains(i),
        all_matches(p, r).len() == Set::new(|i: int| matches_at(p, r, i)).len(),
{
    let n = r.len() + 1int;
    let all = all_matches(p, r);
    lemma_match_starts_props(p, r, n);
    assert forall|i: int| #[trigger] matches_at(p, r, i) <==> all.contains(i) by {
        if all.contains(i) {
            let k = choose|k: int| 0 <= k < all.len() && all[k] == i;
            assert(matches_at(p, r, all[k]));
        }
    }
    assert(all.no_duplicates()) by {
        assert forall|a: int, b: int| 0 <= a < all.len() && 0 <= b < all.len() && a != b implies all[a] != all[b] by {
            if a < b {
                assert(all[a] < all[b]);
            } else {
                assert(all[b] < all[a]);
            }
        }
    }
    all.unique_seq_to_set();
    assert(Set::new(|i: int| matches_at(p, r, i)) =~= all.to_set());
}

/// The pattern that matches exactly the bytes `bytes`.
pub open spec fn exact_pattern(bytes: Seq<u8>) -> Seq<ByteMatch> {
    bytes.map_values(|b: u8| ByteMatch::Exact(b))
}

/// A pattern of exact bytes matches those bytes, and fails once any single
/// byte of the window is changed.
pub proof fn exact_pattern_matches_only_its_bytes(bytes: Seq<u8>, k: int, x: u8)
    ensures
        window_matches(exact_pattern(bytes), bytes),
        0 <= k < bytes.len() && x != bytes[k] ==> !window_matches(exact_pattern(bytes), bytes.update(k, x)),
{
    let p = exact_pattern(bytes);
    assert forall|j: int| 0 <= j < p.len() implies #[trigger] p[j].accepts(bytes[j]) by {}
    if 0 <= k < bytes.len() && x != bytes[k] {
        assert(!p[k].accepts(bytes.update(k, x)[k]));
    }
}

/// Code style: bytes under a mask without `?` compile to the exact pattern of
/// those bytes, which matches them and fails once any single byte changes.
pub proof fn code_style_round_trip(bytes: Seq<u8>, mask: Seq<u8>, k: int, x: u8)
    requires
        mask.len() == bytes.len(),
        forall|i: int| 0 <= i < mask.len() ==> #[trigger] mask[i] != 0x3f,
    ensures
        code_pattern(bytes, mask) == exact_pattern(bytes),
        window_matches(code_pattern(bytes, mask), bytes),
        0 <= k < bytes.len() && x != bytes[k] ==> !window_matches(code_pattern(bytes, mask), bytes.update(k, x)),
{
    assert(code_pattern(bytes, mask) =~= exact_pattern(bytes));
    exact_pattern_matches_only_its_bytes(bytes, k, x);
}

/// Upper-case ASCII hex digit of a value below 16.
pub open spec fn hex_char(v: u8) -> u8 {
    if v < 10 {
        (0x30 + v) as u8
    } else {
        (0x41 + v - 10) as u8
    }
}

/// Text that writes each byte as two hex digits followed by a space; as the
/// whitespace between tokens is free, it reads the same in IDA and PEiD style.
pub open spec fn hex_text(bytes: Seq<u8>) -> Seq<u8>
    decreases bytes.len(),
{
    if bytes.len() == 0 {
        Seq::empty()
    } else {
        seq![hex_char(bytes[0] / 16), hex_char(bytes[0] % 16), 0x20u8] + hex_text(bytes.drop_first())
    }
}

proof fn lemma_token_end_shift(a: Seq<u8>, b: Seq<u8>, i: int)
    requires
        0 <= i,
    ensures
        token_end(a + b, a.len() + i) == a.len() + token_end(b, i),
    decreases b.len() - i,
{
    if i < b.len() {
        assert((a + b)[a.len() + i] == b[i]);
        if !is_space(b[i]) {
            lemma_token_end_shift(a, b, i + 1);
        }
    }
}

proof fn lemma_tokens_shift(a: Seq<u8>, b: Seq<u8>, i: int)
    requires
        0 <= i,
    ensures
        tokens_from(a + b, a.len() + i) == tokens_from(b, i),
    decreases b.len() - i,
{
    if i < b.len() {
        assert((a + b)[a.len() + i] == b[i]);
        if is_space(b[i]) {
            lemma_tokens_shift(a, b, i + 1);
        } else {
            lemma_token_end_shift(a, b, i);
            lemma_token_end_bounds(b, i + 1);
            let e = token_end(b, i);
            lemma_tokens_shift(a, b, e);
            assert((a + b).subrange(a.len() + i, a.len() + e) =~= b.subrange(i, e));
        }
    }
}

proof fn lemma_hex_char(v: u8)
    requires
        0 <= v < 16,
    ensures
        hex_digit_value(hex_char(v)) == v,
        !is_space(hex_char(v)),
        hex_char(v) != 0x3f,
        hex_char(v) != 0x2b,
{
}

proof fn lemma_hex_pair(b: u8, peid: bool)
    ensures
        token_matcher(seq![hex_char(b / 16), hex_char(b % 16)], peid) == Some(ByteMatch::Exact(b)),
{
    let t = seq![hex_char(b / 16), hex_char(b % 16)];
    lemma_hex_char(b / 16);
    lemma_hex_char(b % 16);
    assert(unsigned_digits(t) == t);
    assert(t.drop_last() =~= seq![hex_char(b / 16)]);
    assert(seq![hex_char(b / 16)].drop_last() =~= Seq::<u8>::empty());
    assert(hex_value(Seq::<u8>::empty()) == 0);
    assert(hex_value(seq![hex_char(b / 16)]) == b / 16);
    assert(t.last() == hex_char(b % 16));
    assert(hex_value(t) == (b / 16) * 16 + b % 16);
    assert((b / 16) * 16 + b % 16 == b) by (nonlinear_arith);
    assert(t != seq![0x3fu8]);
    assert(t != seq![0x3fu8, 0x3fu8]) by {
        assert(t[0] != 0x3f);
    }
}

proof fn lemma_hex_text_tokens(bytes: Seq<u8>)
    ensures
        tokens_from(hex_text(bytes), 0)
            == bytes.map_values(|b: u8| seq![hex_char(b / 16), hex_char(b % 16)]),
    decreases bytes.len(),
{
    if bytes.len() > 0 {
        let b = bytes[0];
        let head = seq![hex_char(b / 16), hex_char(b % 16), 0x20u8];
        let rest = hex_text(bytes.drop_first());
        let s = hex_text(bytes);
        assert(s == head + rest);
        lemma_hex_char(b / 16);
        lemma_hex_char(b % 16);
        assert(s[0] == head[0] && s[1] == head[1] && s[2] == head[2]);
        assert(token_end(s, 2) == 2);
        assert(token_end(s, 1) == 2);
        assert(token_end(s, 0) == 2);
        lemma_tokens_shift(head, rest, 0);
        assert(tokens_from(s, 2) == tokens_from(s, 3));
        lemma_hex_text_tokens(bytes.drop_first());
        assert(s.subrange(0, 2) =~= seq![hex_char(b / 16), hex_char(b % 16)]);
        assert(tokens_from(s, 0) =~= bytes.map_values(|b: u8| seq![hex_char(b / 16), hex_char(b % 16)]));
    } else {
        assert(tokens_from(hex_text(bytes), 0) =~= bytes.map_values(|b: u8| seq![hex_char(b / 16), hex_char(b % 16)]));
    }
}

/// IDA and PEiD style: text that writes N bytes as hex tokens compiles to the
/// exact pattern of those bytes, which matches them and fails once any
/// single byte changes.
pub proof fn text_round_trip(text: Seq<char>, bytes: Seq<u8>, peid: bool, k: int, x: u8)
    requires
        is_ascii_chars(text),
        ascii_bytes(text) == hex_text(bytes),
    ensures
        parse_pattern(text, peid) == Ok::<Seq<ByteMatch>, FaitheError>(exact_pattern(bytes)),
        window_matches(exact_pattern(bytes), bytes),
        0 <= k < bytes.len() && x != bytes[k] ==> !window_matches(exact_pattern(bytes), bytes.update(k, x)),
{
    let toks = tokens_from(hex_text(bytes), 0);
    lemma_hex_text_tokens(bytes);
    assert forall|j: int| 0 <= j < toks.len() implies (#[trigger] token_matcher(toks[j], peid)) is Some by {
        lemma_hex_pair(bytes[j], peid);
    }
    assert(toks.map_values(|t: Seq<u8>| token_matcher(t, peid)->0) =~= exact_pattern(bytes)) by {
        assert forall|j: int| 0 <= j < toks.len() implies
            toks.map_values(|t: Seq<u8>| token_matcher(t, peid)->0)[j] == exact_pattern(bytes)[j] by {
            lemma_hex_pair(bytes[j], peid);
        }
    }
    exact_pattern_matches_only_its_bytes(bytes, k, x);
}

} // verus!
