use vstd::prelude::*;
use vstd::string::StrSliceExecFns;

verus! {

/// A span of time, counted in nanoseconds.
#[derive(Clone, Copy, Debug, PartialEq, Eq, Structural)]
pub struct Span {
    pub nanos: u64,
}

impl View for Span {
    type V = nat;

    open spec fn view(&self) -> nat {
        self.nanos as nat
    }
}

/// What `humantime::parse_duration` makes of a text, in nanoseconds.
pub uninterp spec fn span_of_text(s: Seq<char>) -> Option<u128>;

/// The text that `humantime::format_duration` writes for a span of `n`
/// nanoseconds.
pub uninterp spec fn span_text(n: u64) -> Seq<char>;

/// A character that ends a number in humantime's grammar: a letter of a unit.
pub open spec fn is_unit_char(c: char) -> bool {
    ('a' <= c && c <= 'z') || ('A' <= c && c <= 'Z') || c == '\u{b5}'
}

pub open spec fn is_digit(c: char) -> bool {
    '0' <= c && c <= '9'
}

/// Reading `s` with `acc` as the value of the digits seen since the last
/// unit letter, every such group of digits stays below 10^9.
pub open spec fn groups_small(s: Seq<char>, acc: nat) -> bool
    decreases s.len(),
{
    if s.len() == 0 {
        true
    } else if is_unit_char(s[0]) {
        groups_small(s.skip(1), 0)
    } else if is_digit(s[0]) {
        let next = acc * 10 + (s[0] as nat - '0' as nat);
        next < 1_000_000_000 && groups_small(s.skip(1), next as nat)
    } else {
        groups_small(s.skip(1), acc)
    }
}

/// A span text small enough to read safely: at most 128 characters, and
/// the digits between two unit letters, taken together, worth less than
/// 10^9. Such a text denotes well under `u64::MAX` seconds.
pub open spec fn span_text_bounded(s: Seq<char>) -> bool {
    s.len() <= 128 && groups_small(s, 0)
}

/// Relies on `humantime::parse_duration` and `Duration::as_nanos`: the
/// result depends on the text alone. The bound keeps the seconds far from
/// `u64::MAX`, where `parse_duration` can panic in `Duration::new`.
#[verifier::external_body]
fn humantime_parse(s: &str) -> (r: Option<u128>)
    requires
        span_text_bounded(s@),
    ensures
        r == span_of_text(s@),
{
    match humantime::parse_duration(s) {
        Ok(d) => Some(d.as_nanos()),
        Err(_) => None,
    }
}

/// Relies on `humantime::format_duration`: the text depends on the span
/// alone, and `humantime::parse_duration` reads it back as the same span.
/// For at most `u64::MAX` nanoseconds it writes at most 584 years and parts
/// below 1000, in under 60 characters, so the text is within the bound.
#[verifier::external_body]
fn humantime_text(n: u64) -> (r: String)
    ensures
        r@ == span_text(n),
        span_of_text(r@) == Some(n as u128),
        span_text_bounded(r@),
{
    humantime::format_duration(std::time::Duration::from_nanos(n)).to_string()
}

impl Span {
    /// Its canonical text reads back as itself.
    pub open spec fn wf(&self) -> bool {
        &&& span_of_text(span_text(self.nanos)) == Some(self.nanos as u128)
        &&& span_text_bounded(span_text(self.nanos))
    }

    pub fn from_nanos(nanos: u64) -> (r: Span)
        ensures
            r@ == nanos,
            r.wf(),
    {
        // Writing the text once shows that it reads back as `nanos`.
        let _text = humantime_text(nanos);
        Span { nanos }
    }

    pub fn from_secs(secs: u32) -> (r: Span)
        ensures
            r@ == secs * 1_000_000_000,
            r.wf(),
    {
        Span::from_nanos(secs as u64 * 1_000_000_000)
    }

    pub fn as_nanos(&self) -> (r: u64)
        ensures
            r == self@,
    {
        self.nanos
    }
}

fn is_unit_char_exec(c: char) -> (r: bool)
    ensures
        r == is_unit_char(c),
{
    ('a' <= c && c <= 'z') || ('A' <= c && c <= 'Z') || c == '\u{b5}'
}

/// Tests whether a text is within the bound that reading requires.
pub fn check_span_text(s: &str) -> (r: bool)
    ensures
        r == span_text_bounded(s@),
{
    let n = s.unicode_len();
    if n > 128 {
        return false;
    }
    let mut i: usize = 0;
    let mut acc: u64 = 0;
    proof {
        assert(s@.skip(0) =~= s@);
    }
    while i < n
        invariant
            n == s@.len(),
            n <= 128,
            i <= n,
            acc < 1_000_000_000,
            groups_small(s@, 0) == groups_small(s@.skip(i as int), acc as nat),
        decreases n - i,
    {
        let c = s.get_char(i);
        proof {
            let t = s@.skip(i as int);
            assert(t[0] == c);
            assert(t.skip(1) =~= s@.skip(i + 1));
        }
        if is_unit_char_exec(c) {
            acc = 0;
        } else if '0' <= c && c <= '9' {
            let next = acc * 10 + (c as u64 - 48);
            if next >= 1_000_000_000 {
                return false;
            }
            acc = next;
        }
        i = i + 1;
    }
    true
}

/// Reads a human-readable span (`1h 30m`, `500ms`, `2days`) as humantime
/// does; fails where the text is beyond the bound (`span_text_bounded`),
/// where humantime refuses it, or where the span does not fit in `u64`
/// nanoseconds.
pub fn parse_duration(s: &str) -> (r: Option<Span>)
    ensures
        if !span_text_bounded(s@) {
            r is None
        } else {
            match span_of_text(s@) {
                Some(v) => if v <= u64::MAX {
                    r == Some(Span { nanos: v as u64 })
                } else {
                    r is None
                },
                None => r is None,
            }
        },
        r matches Some(d) ==> d.wf(),
{
    if !check_span_text(s) {
        return None;
    }
    match humantime_parse(s) {
        Some(v) => if v <= u64::MAX as u128 {
            Some(Span::from_nanos(v as u64))
        } else {
            None
        },
        None => None,
    }
}

/// Writes a span in humantime's canonical form. The text reads back as the
/// same span, so formatting what was read from it gives the same text again.
pub fn format_duration(d: Span) -> (r: String)
    ensures
        r@ == span_text(d.nanos),
        span_of_text(r@) == Some(d.nanos as u128),
        span_text(span_of_text(r@)->0 as u64) == r@,
{
    humantime_text(d.nanos)
}

} // verus!
