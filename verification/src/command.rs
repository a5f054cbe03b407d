//! The inbound textual command protocol.
//!
//! Commands arrive as raw bytes from the wireless transport.  A
//! command must be valid UTF-8; it is then dispatched on its prefix,
//! first match first, with the more specific `tone` checked before its
//! prefix `ton`.  Numeric arguments follow the first space of the
//! whitespace-trimmed line.

use vstd::prelude::*;

use vstd::slice::{slice_index_get, slice_subrange};

use crate::dbl::{dbl_parse, parse_bits};

verus! {

/// A parsed command, ready to be applied to the shared state.
#[derive(Clone, Copy, Debug, PartialEq, Eq, Structural)]
pub enum Command {
    /// Fire a one-shot audible alert.
    Tone,
    /// Clear the recording and start streaming to the sender.
    Ton,
    /// Stop streaming; the peer is kept but inactive.
    Toff,
    /// Retransmit the record at this index.
    ReTx(usize),
    /// Set the sea-level reference pressure to this binary64 pattern.
    Inhg(u64),
    /// Reset the altimeter stats.
    Reset,
    /// None of the recognized prefixes: inert.
    Unknown,
}

/// Why a command was dropped.
#[derive(Clone, Copy, Debug, PartialEq, Eq, Structural)]
pub enum CommandParseError {
    /// The bytes are not valid UTF-8.
    InvalidUtf8,
    /// A command that needs an argument came without one.
    MissingArgument,
    /// The argument did not parse as a number.
    InvalidNumber,
}

/// A UTF-8 continuation byte.
pub open spec fn is_utf8_cont(b: u8) -> bool {
    0x80 <= b && b <= 0xBF
}

/// Well-formed UTF-8, byte for byte: each ASCII byte stands alone, and
/// each longer sequence has the lead and continuation ranges of
/// RFC 3629 (overlong forms, surrogates and values past U+10FFFF are
/// excluded by the tighter ranges after lead bytes 0xE0, 0xED, 0xF0
/// and 0xF4).
pub open spec fn spec_utf8_valid(s: Seq<u8>) -> bool
    decreases s.len(),
{
    if s.len() == 0 {
        true
    } else {
        let b0 = s[0];
        if b0 < 0x80 {
            spec_utf8_valid(s.skip(1))
        } else if 0xC2 <= b0 && b0 <= 0xDF {
            s.len() >= 2 && is_utf8_cont(s[1]) && spec_utf8_valid(s.skip(2))
        } else if b0 == 0xE0 {
            s.len() >= 3 && 0xA0 <= s[1] && s[1] <= 0xBF && is_utf8_cont(s[2])
                && spec_utf8_valid(s.skip(3))
        } else if 0xE1 <= b0 && b0 <= 0xEC {
            s.len() >= 3 && is_utf8_cont(s[1]) && is_utf8_cont(s[2]) && spec_utf8_valid(s.skip(3))
        } else if b0 == 0xED {
            s.len() >= 3 && 0x80 <= s[1] && s[1] <= 0x9F && is_utf8_cont(s[2])
                && spec_utf8_valid(s.skip(3))
        } else if 0xEE <= b0 && b0 <= 0xEF {
            s.len() >= 3 && is_utf8_cont(s[1]) && is_utf8_cont(s[2]) && spec_utf8_valid(s.skip(3))
        } else if b0 == 0xF0 {
            s.len() >= 4 && 0x90 <= s[1] && s[1] <= 0xBF && is_utf8_cont(s[2])
                && is_utf8_cont(s[3]) && spec_utf8_valid(s.skip(4))
        } else if 0xF1 <= b0 && b0 <= 0xF3 {
            s.len() >= 4 && is_utf8_cont(s[1]) && is_utf8_cont(s[2]) && is_utf8_cont(s[3])
                && spec_utf8_valid(s.skip(4))
        } else if b0 == 0xF4 {
            s.len() >= 4 && 0x80 <= s[1] && s[1] <= 0x8F && is_utf8_cont(s[2])
                && is_utf8_cont(s[3]) && spec_utf8_valid(s.skip(4))
        } else {
            false
        }
    }
}

/// Checks that `data` is well-formed UTF-8.
pub fn utf8_valid(data: &[u8]) -> (r: bool)
    ensures
        r == spec_utf8_valid(data@),
{
    let n = data.len();
    let mut i: usize = 0;
    proof {
        assert(data@.skip(0) =~= data@);
    }
    while i < n
        invariant
            i <= n,
            n == data@.len(),
            spec_utf8_valid(data@) == spec_utf8_valid(data@.skip(i as int)),
        decreases n - i,
    {
        let ghost t = data@.skip(i as int);
        let b0 = *slice_index_get(data, i);
        if b0 < 0x80 {
            proof {
                assert(t.skip(1) =~= data@.skip(i + 1));
            }
            i = i + 1;
        } else if 0xC2 <= b0 && b0 <= 0xDF {
            if !(n - i >= 2 && is_cont(*slice_index_get(data, i + 1))) {
                return false;
            }
            proof {
                assert(t.skip(2) =~= data@.skip(i + 2));
            }
            i = i + 2;
        } else if b0 == 0xE0 {
            if !(n - i >= 3 && 0xA0 <= *slice_index_get(data, i + 1)
                && *slice_index_get(data, i + 1) <= 0xBF
                && is_cont(*slice_index_get(data, i + 2))) {
                return false;
            }
            proof {
                assert(t.skip(3) =~= data@.skip(i + 3));
            }
            i = i + 3;
        } else if 0xE1 <= b0 && b0 <= 0xEC {
            if !(n - i >= 3 && is_cont(*slice_index_get(data, i + 1))
                && is_cont(*slice_index_get(data, i + 2))) {
                return false;
            }
            proof {
                assert(t.skip(3) =~= data@.skip(i + 3));
            }
            i = i + 3;
        } else if b0 == 0xED {
            if !(n - i >= 3 && 0x80 <= *slice_index_get(data, i + 1)
                && *slice_index_get(data, i + 1) <= 0x9F
                && is_cont(*slice_index_get(data, i + 2))) {
                return false;
            }
            proof {
                assert(t.skip(3) =~= data@.skip(i + 3));
            }
            i = i + 3;
        } else if 0xEE <= b0 && b0 <= 0xEF {
            if !(n - i >= 3 && is_cont(*slice_index_get(data, i + 1))
                && is_cont(*slice_index_get(data, i + 2))) {
                return false;
            }
            proof {
                assert(t.skip(3) =~= data@.skip(i + 3));
            }
            i = i + 3;
        } else if b0 == 0xF0 {
            if !(n - i >= 4 && 0x90 <= *slice_index_get(data, i + 1)
                && *slice_index_get(data, i + 1) <= 0xBF
                && is_cont(*slice_index_get(data, i + 2))
                && is_cont(*slice_index_get(data, i + 3))) {
                return false;
            }
            proof {
                assert(t.skip(4) =~= data@.skip(i + 4));
            }
            i = i + 4;
        } else if 0xF1 <= b0 && b0 <= 0xF3 {
            if !(n - i >= 4 && is_cont(*slice_index_get(data, i + 1))
                && is_cont(*slice_index_get(data, i + 2))
                && is_cont(*slice_index_get(data, i + 3))) {
                return false;
            }
            proof {
                assert(t.skip(4) =~= data@.skip(i + 4));
            }
            i = i + 4;
        } else if b0 == 0xF4 {
            if !(n - i >= 4 && 0x80 <= *slice_index_get(data, i + 1)
                && *slice_index_get(data, i + 1) <= 0x8F
                && is_cont(*slice_index_get(data, i + 2))
                && is_cont(*slice_index_get(data, i + 3))) {
                return false;
            }
            proof {
                assert(t.skip(4) =~= data@.skip(i + 4));
            }
            i = i + 4;
        } else {
            return false;
        }
    }
    true
}

/// A UTF-8 continuation byte.
fn is_cont(b: u8) -> (r: bool)
    ensures
        r == is_utf8_cont(b),
{
    0x80 <= b && b <= 0xBF
}

/// ASCII whitespace: space, or one of the controls tab through
/// carriage return.
pub open spec fn is_ascii_ws(b: u8) -> bool {
    b == 0x20 || (0x09 <= b && b <= 0x0D)
}

/// ASCII whitespace.
fn is_ws(b: u8) -> (r: bool)
    ensures
        r == is_ascii_ws(b),
{
    b == 0x20 || (0x09 <= b && b <= 0x0D)
}

/// The sequence with its leading whitespace removed.
pub open spec fn spec_trim_start(s: Seq<u8>) -> Seq<u8>
    decreases s.len(),
{
    if s.len() > 0 && is_ascii_ws(s[0]) {
        spec_trim_start(s.skip(1))
    } else {
        s
    }
}

/// The sequence with its trailing whitespace removed.
pub open spec fn spec_trim_end(s: Seq<u8>) -> Seq<u8>
    decreases s.len(),
{
    if s.len() > 0 && is_ascii_ws(s.last()) {
        spec_trim_end(s.drop_last())
    } else {
        s
    }
}

/// The sequence with whitespace removed at both ends.
pub open spec fn spec_trim(s: Seq<u8>) -> Seq<u8> {
    spec_trim_end(spec_trim_start(s))
}

proof fn lemma_trim_start_at(s: Seq<u8>, i: int)
    requires
        0 <= i <= s.len(),
        forall|k: int| 0 <= k < i ==> is_ascii_ws(s[k]),
        i == s.len() || !is_ascii_ws(s[i]),
    ensures
        spec_trim_start(s) =~= s.skip(i),
    decreases i,
{
    if i == 0 {
        assert(s.skip(0) =~= s);
    } else {
        assert(s.skip(1).skip(i - 1) =~= s.skip(i));
        lemma_trim_start_at(s.skip(1), i - 1);
    }
}

proof fn lemma_trim_end_at(s: Seq<u8>, j: int)
    requires
        0 <= j <= s.len(),
        forall|k: int| j <= k < s.len() ==> is_ascii_ws(s[k]),
        j == 0 || !is_ascii_ws(s[j - 1]),
    ensures
        spec_trim_end(s) =~= s.take(j),
    decreases s.len() - j,
{
    if j == s.len() {
        assert(s.take(j) =~= s);
    } else {
        assert(s.drop_last() =~= s.take(s.len() - 1));
        assert(s.take(s.len() - 1).take(j) =~= s.take(j));
        lemma_trim_end_at(s.take(s.len() - 1), j);
    }
}

/// The slice with ASCII whitespace removed at both ends.
fn trim_slice(data: &[u8]) -> (r: &[u8])
    ensures
        r@ == spec_trim(data@),
{
    let n = data.len();
    let mut lo: usize = 0;
    while lo < n && is_ws(*slice_index_get(data, lo))
        invariant
            lo <= n,
            n == data@.len(),
            forall|k: int| 0 <= k < lo ==> is_ascii_ws(data@[k]),
        decreases n - lo,
    {
        lo = lo + 1;
    }
    let mut hi: usize = n;
    while hi > lo && is_ws(*slice_index_get(data, hi - 1))
        invariant
            lo <= hi <= n,
            n == data@.len(),
            forall|k: int| 0 <= k < lo ==> is_ascii_ws(data@[k]),
            forall|k: int| hi <= k < n ==> is_ascii_ws(data@[k]),
        decreases hi,
    {
        hi = hi - 1;
    }
    proof {
        lemma_trim_start_at(data@, lo as int);
        lemma_trim_end_at(data@.skip(lo as int), hi - lo);
        assert(data@.skip(lo as int).take(hi - lo) =~= data@.subrange(lo as int, hi as int));
    }
    slice_subrange(data, lo, hi)
}

/// The first index at or after `from` holding a space, or the length.
pub open spec fn spec_find_space(s: Seq<u8>, from: int) -> int
    recommends
        0 <= from <= s.len(),
    decreases s.len() - from,
{
    if from < 0 || from >= s.len() {
        s.len() as int
    } else if s[from] == 0x20 {
        from
    } else {
        spec_find_space(s, from + 1)
    }
}

fn find_space(data: &[u8], from: usize) -> (r: usize)
    requires
        from <= data@.len(),
    ensures
        r == spec_find_space(data@, from as int),
        from <= r <= data@.len(),
{
    let n = data.len();
    let mut i: usize = from;
    while i < n
        invariant
            from <= i <= n,
            n == data@.len(),
            spec_find_space(data@, from as int) == spec_find_space(data@, i as int),
        decreases n - i,
    {
        if *slice_index_get(data, i) == 0x20 {
            return i;
        }
        i = i + 1;
    }
    n
}

/// The second space-separated field of a line: the bytes between the
/// first space and the next space or the end, `None` where the line
/// has no space.  Splitting on single spaces keeps empty fields, so
/// two spaces in a row yield an empty second field.
pub open spec fn spec_second_field(s: Seq<u8>) -> Option<Seq<u8>> {
    let i = spec_find_space(s, 0);
    if i == s.len() {
        None
    } else {
        Some(s.subrange(i + 1, spec_find_space(s, i + 1)))
    }
}

fn second_field(data: &[u8]) -> (r: Option<&[u8]>)
    ensures
        match r {
            Some(f) => spec_second_field(data@) == Some(f@),
            None => spec_second_field(data@) is None,
        },
{
    let i = find_space(data, 0);
    if i == data.len() {
        None
    } else {
        let j = find_space(data, i + 1);
        Some(slice_subrange(data, i + 1, j))
    }
}

/// A non-empty run of ASCII decimal digits.
pub open spec fn spec_all_digits(s: Seq<u8>) -> bool {
    s.len() > 0 && forall|k: int| 0 <= k < s.len() ==> 0x30 <= #[trigger] s[k] && s[k] <= 0x39
}

/// The value of a run of ASCII decimal digits.
pub open spec fn spec_digits_value(s: Seq<u8>) -> int
    decreases s.len(),
{
    if s.len() == 0 {
        0
    } else {
        spec_digits_value(s.drop_last()) * 10 + (s.last() - 0x30)
    }
}

proof fn lemma_digits_value_nonneg(s: Seq<u8>)
    requires
        forall|k: int| 0 <= k < s.len() ==> 0x30 <= #[trigger] s[k] && s[k] <= 0x39,
    ensures
        spec_digits_value(s) >= 0,
    decreases s.len(),
{
    if s.len() > 0 {
        lemma_digits_value_nonneg(s.drop_last());
    }
}

proof fn lemma_digits_prefix_le(s: Seq<u8>, k: int)
    requires
        forall|j: int| 0 <= j < s.len() ==> 0x30 <= #[trigger] s[j] && s[j] <= 0x39,
        0 <= k <= s.len(),
    ensures
        spec_digits_value(s.take(k)) <= spec_digits_value(s),
    decreases s.len() - k,
{
    if k == s.len() {
        assert(s.take(k) =~= s);
    } else {
        lemma_digits_prefix_le(s, k + 1);
        assert(s.take(k + 1).drop_last() =~= s.take(k));
        lemma_digits_value_nonneg(s.take(k));
    }
}

/// Parses a run of decimal digits as an index: `None` on an empty run,
/// a non-digit byte, or a value past `usize::MAX`.
pub fn parse_index(s: &[u8]) -> (r: Option<usize>)
    ensures
        r == if spec_all_digits(s@) && spec_digits_value(s@) <= usize::MAX {
            Some(spec_digits_value(s@) as usize)
        } else {
            None::<usize>
        },
{
    let n = s.len();
    if n == 0 {
        return None;
    }
    let mut value: usize = 0;
    let mut i: usize = 0;
    while i < n
        invariant
            i <= n,
            n == s@.len(),
            forall|k: int| 0 <= k < i ==> 0x30 <= #[trigger] s@[k] && s@[k] <= 0x39,
            value == spec_digits_value(s@.take(i as int)),
        decreases n - i,
    {
        let b = *slice_index_get(s, i);
        if !(0x30 <= b && b <= 0x39) {
            return None;
        }
        let d = (b - 0x30) as usize;
        proof {
            assert(s@.take(i + 1).drop_last() =~= s@.take(i as int));
            assert(s@.take(i + 1).last() == s@[i as int]);
        }
        if value > usize::MAX / 10 || (value == usize::MAX / 10 && d > usize::MAX % 10) {
            proof {
                assert(spec_digits_value(s@.take(i + 1)) > usize::MAX) by (nonlinear_arith)
                    requires
                        spec_digits_value(s@.take(i + 1)) == value * 10 + d,
                        value > usize::MAX / 10 || (value == usize::MAX / 10 && d > usize::MAX
                            % 10),
                        usize::MAX == (usize::MAX / 10) * 10 + usize::MAX % 10,
                        d >= 0,
                        value >= 0,
                ;
                if spec_all_digits(s@) {
                    lemma_digits_prefix_le(s@, i + 1);
                }
            }
            return None;
        }
        proof {
            assert(value * 10 + d <= usize::MAX) by (nonlinear_arith)
                requires
                    value <= usize::MAX / 10,
                    value == usize::MAX / 10 ==> d <= usize::MAX % 10,
                    usize::MAX == (usize::MAX / 10) * 10 + usize::MAX % 10,
                    0 <= d <= 9,
                    value >= 0,
            ;
        }
        value = value * 10 + d;
        i = i + 1;
    }
    proof {
        assert(s@.take(n as int) =~= s@);
    }
    Some(value)
}

/// The prefix dispatch and argument grammar of the command protocol,
/// first match first.
pub open spec fn spec_parse_command(data: Seq<u8>) -> Result<Command, CommandParseError> {
    if !spec_utf8_valid(data) {
        Err(CommandParseError::InvalidUtf8)
    } else if spec_starts_with(data, seq![0x74u8, 0x6F, 0x6E, 0x65]) {  // "tone"
        Ok(Command::Tone)
    } else if spec_starts_with(data, seq![0x74u8, 0x6F, 0x6E]) {  // "ton"
        Ok(Command::Ton)
    } else if spec_starts_with(data, seq![0x74u8, 0x6F, 0x66, 0x66]) {  // "toff"
        Ok(Command::Toff)
    } else if spec_starts_with(data, seq![0x72u8, 0x65, 0x5F, 0x74, 0x78]) {  // "re_tx"
        match spec_second_field(spec_trim(data)) {
            None => Err(CommandParseError::MissingArgument),
            Some(arg) => if spec_all_digits(arg) && spec_digits_value(arg) <= usize::MAX {
                Ok(Command::ReTx(spec_digits_value(arg) as usize))
            } else {
                Err(CommandParseError::InvalidNumber)
            },
        }
    } else if spec_starts_with(data, seq![0x69u8, 0x6E, 0x68, 0x67]) {  // "inhg"
        match spec_second_field(spec_trim(data)) {
            None => Err(CommandParseError::MissingArgument),
            Some(arg) => match dbl_parse(arg) {
                Some(v) => Ok(Command::Inhg(v)),
                None => Err(CommandParseError::InvalidNumber),
            },
        }
    } else if spec_starts_with(data, seq![0x72u8, 0x65, 0x73, 0x65, 0x74]) {  // "reset"
        Ok(Command::Reset)
    } else {
        Ok(Command::Unknown)
    }
}

/// Whether `d` begins with `p`.
pub open spec fn spec_starts_with(d: Seq<u8>, p: Seq<u8>) -> bool {
    p.len() <= d.len() && forall|k: int| 0 <= k < p.len() ==> d[k] == #[trigger] p[k]
}

fn starts_with_tone(data: &[u8]) -> (r: bool)
    ensures
        r == spec_starts_with(data@, seq![0x74u8, 0x6F, 0x6E, 0x65]),
{
    data.len() >= 4 && *slice_index_get(data, 0) == 0x74 && *slice_index_get(data, 1) == 0x6F
        && *slice_index_get(data, 2) == 0x6E && *slice_index_get(data, 3) == 0x65
}

fn starts_with_ton(data: &[u8]) -> (r: bool)
    ensures
        r == spec_starts_with(data@, seq![0x74u8, 0x6F, 0x6E]),
{
    data.len() >= 3 && *slice_index_get(data, 0) == 0x74 && *slice_index_get(data, 1) == 0x6F
        && *slice_index_get(data, 2) == 0x6E
}

fn starts_with_toff(data: &[u8]) -> (r: bool)
    ensures
        r == spec_starts_with(data@, seq![0x74u8, 0x6F, 0x66, 0x66]),
{
    data.len() >= 4 && *slice_index_get(data, 0) == 0x74 && *slice_index_get(data, 1) == 0x6F
        && *slice_index_get(data, 2) == 0x66 && *slice_index_get(data, 3) == 0x66
}

fn starts_with_re_tx(data: &[u8]) -> (r: bool)
    ensures
        r == spec_starts_with(data@, seq![0x72u8, 0x65, 0x5F, 0x74, 0x78]),
{
    data.len() >= 5 && *slice_index_get(data, 0) == 0x72 && *slice_index_get(data, 1) == 0x65
        && *slice_index_get(data, 2) == 0x5F && *slice_index_get(data, 3) == 0x74
        && *slice_index_get(data, 4) == 0x78
}

fn starts_with_inhg(data: &[u8]) -> (r: bool)
    ensures
        r == spec_starts_with(data@, seq![0x69u8, 0x6E, 0x68, 0x67]),
{
    data.len() >= 4 && *slice_index_get(data, 0) == 0x69 && *slice_index_get(data, 1) == 0x6E
        && *slice_index_get(data, 2) == 0x68 && *slice_index_get(data, 3) == 0x67
}

fn starts_with_reset(data: &[u8]) -> (r: bool)
    ensures
        r == spec_starts_with(data@, seq![0x72u8, 0x65, 0x73, 0x65, 0x74]),
{
    data.len() >= 5 && *slice_index_get(data, 0) == 0x72 && *slice_index_get(data, 1) == 0x65
        && *slice_index_get(data, 2) == 0x73 && *slice_index_get(data, 3) == 0x65
        && *slice_index_get(data, 4) == 0x74
}

/// Parses one inbound command line.
pub fn parse_command(data: &[u8]) -> (r: Result<Command, CommandParseError>)
    ensures
        r == spec_parse_command(data@),
{
    if !utf8_valid(data) {
        Err(CommandParseError::InvalidUtf8)
    } else if starts_with_tone(data) {
        Ok(Command::Tone)
    } else if starts_with_ton(data) {
        Ok(Command::Ton)
    } else if starts_with_toff(data) {
        Ok(Command::Toff)
    } else if starts_with_re_tx(data) {
        let trimmed = trim_slice(data);
        match second_field(trimmed) {
            None => Err(CommandParseError::MissingArgument),
            Some(arg) => match parse_index(arg) {
                Some(v) => Ok(Command::ReTx(v)),
                None => Err(CommandParseError::InvalidNumber),
            },
        }
    } else if starts_with_inhg(data) {
        let trimmed = trim_slice(data);
        match second_field(trimmed) {
            None => Err(CommandParseError::MissingArgument),
            Some(arg) => match parse_bits(arg) {
                Some(v) => Ok(Command::Inhg(v)),
                None => Err(CommandParseError::InvalidNumber),
            },
        }
    } else if starts_with_reset(data) {
        Ok(Command::Reset)
    } else {
        Ok(Command::Unknown)
    }
}

} // verus!
