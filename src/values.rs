use vstd::prelude::*;

verus! {

/// A unique identifier, as its 128-bit value.
#[derive(Clone, Copy, Debug, PartialEq, Eq, Structural)]
pub struct UniqueId {
    pub value: u128,
}

pub open spec fn hex_char(d: nat) -> char {
    if d < 10 {
        ((d + 48) as u8) as char
    } else {
        ((d + 87) as u8) as char
    }
}

/// The last `n` hexadecimal digits of `v`, lower case, most significant first.
pub open spec fn hex_digits(v: nat, n: nat) -> Seq<char>
    decreases n,
{
    if n == 0 {
        Seq::empty()
    } else {
        hex_digits(v / 16, (n - 1) as nat).push(hex_char(v % 16))
    }
}

/// The canonical hyphenated text of an identifier: 32 lower-case hex digits
/// in groups of 8, 4, 4, 4 and 12.
pub open spec fn hyphenated(v: u128) -> Seq<char> {
    let h = hex_digits(v as nat, 32);
    h.subrange(0, 8) + seq!['-'] + h.subrange(8, 12) + seq!['-'] + h.subrange(12, 16) + seq!['-']
        + h.subrange(16, 20) + seq!['-'] + h.subrange(20, 32)
}

/// What `uuid::Uuid::parse_str` makes of a text, as a 128-bit value.
pub uninterp spec fn uuid_of_text(s: Seq<char>) -> Option<u128>;

/// Relies on `uuid::Uuid::parse_str`: its result depends on the text alone.
#[verifier::external_body]
fn uuid_parse(s: &str) -> (r: Option<u128>)
    ensures
        r == uuid_of_text(s@),
{
    match uuid::Uuid::parse_str(s) {
        Ok(u) => Some(u.as_u128()),
        Err(_) => None,
    }
}

/// Relies on `uuid::Uuid::hyphenated`: the value as lower-case hex digits,
/// most significant first, grouped by hyphens; `uuid::Uuid::parse_str`
/// reads that text back as the value.
#[verifier::external_body]
fn uuid_text(v: u128) -> (r: String)
    ensures
        r@ == hyphenated(v),
        uuid_of_text(r@) == Some(v),
{
    uuid::Uuid::from_u128(v).hyphenated().to_string()
}

impl UniqueId {
    /// Its canonical text reads back as itself.
    pub open spec fn wf(&self) -> bool {
        uuid_of_text(hyphenated(self.value)) == Some(self.value)
    }

    /// The identifier of a value.
    pub fn from_u128(v: u128) -> (r: UniqueId)
        ensures
            r.value == v,
            r.wf(),
    {
        // Writing the text once shows that it reads back as `v`.
        let _text = uuid_text(v);
        UniqueId { value: v }
    }
}

/// Reads an identifier in any form that the uuid crate accepts.
pub fn parse_identifier(s: &str) -> (r: Option<UniqueId>)
    ensures
        match uuid_of_text(s@) {
            Some(v) => r == Some(UniqueId { value: v }),
            None => r is None,
        },
        r matches Some(u) ==> u.wf(),
{
    match uuid_parse(s) {
        Some(v) => Some(UniqueId::from_u128(v)),
        None => None,
    }
}

/// Writes an identifier in its canonical hyphenated form.
pub fn format_identifier(id: UniqueId) -> (r: String)
    ensures
        r@ == hyphenated(id.value),
{
    uuid_text(id.value)
}

/// What `url::Url::parse` makes of a text, as the serialization of the URL.
pub uninterp spec fn url_of_text(s: Seq<char>) -> Option<Seq<char>>;

/// Relies on `url::Url::parse` and `url::Url::as_str`: the result depends
/// on the text alone.
#[verifier::external_body]
fn url_normalize(s: &str) -> (r: Option<String>)
    ensures
        match url_of_text(s@) {
            Some(t) => r matches Some(u) && u@ == t,
            None => r is None,
        },
{
    match url::Url::parse(s) {
        Ok(u) => Some(u.as_str().to_string()),
        Err(_) => None,
    }
}

/// A well-formed URL, held as its serialization, which reads back as itself.
#[derive(Clone, Debug)]
pub struct ShardUrl {
    pub text: String,
}

impl ShardUrl {
    pub open spec fn wf(&self) -> bool {
        url_of_text(self.text@) == Some(self.text@)
    }

    pub fn as_str(&self) -> (r: &str)
        ensures
            r@ == self.text@,
    {
        self.text.as_str()
    }
}

/// Reads a URL. It is kept as its serialization, which must read back as
/// itself; otherwise the text is refused.
pub fn parse_url(s: &str) -> (r: Option<ShardUrl>)
    ensures
        match url_of_text(s@) {
            Some(t) => if url_of_text(t) == Some(t) {
                r matches Some(u) && u.text@ == t
            } else {
                r is None
            },
            None => r is None,
        },
        r matches Some(u) ==> u.wf(),
{
    match url_normalize(s) {
        None => None,
        Some(t) => match url_normalize(t.as_str()) {
            None => None,
            Some(t2) => if t2 == t {
                Some(ShardUrl { text: t })
            } else {
                None
            },
        },
    }
}

/// Writes a URL as its serialization.
pub fn format_url(u: &ShardUrl) -> (r: String)
    ensures
        r@ == u.text@,
{
    u.text.clone()
}

/// The first second of the year 0, in seconds from the Unix epoch.
pub const MIN_INSTANT_SECS: i64 = -62167219200;

/// The last second of the year 9999, in seconds from the Unix epoch.
pub const MAX_INSTANT_SECS: i64 = 253402300799;

/// An instant in UTC: seconds from the Unix epoch and the nanoseconds past
/// that second, within the years 0 to 9999.
#[derive(Clone, Copy, Debug, PartialEq, Eq, Structural)]
pub struct UtcInstant {
    pub secs: i64,
    pub nanos: u32,
}

/// An instant that chrono can write, whose text reads back as itself.
pub open spec fn instant_ok(secs: i64, nanos: u32) -> bool {
    &&& MIN_INSTANT_SECS <= secs <= MAX_INSTANT_SECS
    &&& nanos < 1_000_000_000
    &&& instant_text(secs, nanos) matches Some(t)
    &&& instant_of_text(t) == Some((secs, nanos))
}

impl UtcInstant {
    pub open spec fn wf(&self) -> bool {
        instant_ok(self.secs, self.nanos)
    }

    /// The instant at `secs` seconds and `nanos` nanoseconds from the Unix
    /// epoch, where it is valid.
    pub fn from_parts(secs: i64, nanos: u32) -> (r: Option<UtcInstant>)
        ensures
            if instant_ok(secs, nanos) {
                r == Some(UtcInstant { secs, nanos })
            } else {
                r is None
            },
    {
        if secs < MIN_INSTANT_SECS || secs > MAX_INSTANT_SECS || nanos >= 1_000_000_000 {
            return None;
        }
        match chrono_text(secs, nanos) {
            None => None,
            Some(t) => match chrono_parse(t.as_str()) {
                Some((a, b)) => if a == secs && b == nanos {
                    Some(UtcInstant { secs, nanos })
                } else {
                    None
                },
                None => None,
            },
        }
    }
}

/// What chrono's `DateTime<Utc>` parser makes of a text, as seconds and
/// nanoseconds from the Unix epoch.
pub uninterp spec fn instant_of_text(s: Seq<char>) -> Option<(i64, u32)>;

/// The RFC 3339 text that chrono writes for an instant (`AutoSi`, `Z`).
pub uninterp spec fn instant_text(secs: i64, nanos: u32) -> Option<Seq<char>>;

/// Relies on `str::parse::<chrono::DateTime<chrono::Utc>>`: the result
/// depends on the text alone.
#[verifier::external_body]
fn chrono_parse(s: &str) -> (r: Option<(i64, u32)>)
    ensures
        r == instant_of_text(s@),
{
    match s.parse::<chrono::DateTime<chrono::Utc>>() {
        Ok(t) => Some((t.timestamp(), t.timestamp_subsec_nanos())),
        Err(_) => None,
    }
}

/// Relies on `chrono::DateTime::from_timestamp` and
/// `chrono::DateTime::to_rfc3339_opts` with `SecondsFormat::AutoSi` and `Z`:
/// the result depends on the two numbers alone.
#[verifier::external_body]
fn chrono_text(secs: i64, nanos: u32) -> (r: Option<String>)
    ensures
        match instant_text(secs, nanos) {
            Some(t) => r matches Some(u) && u@ == t,
            None => r is None,
        },
{
    match chrono::DateTime::from_timestamp(secs, nanos) {
        Some(t) => Some(t.to_rfc3339_opts(chrono::SecondsFormat::AutoSi, true)),
        None => None,
    }
}

/// Reads an RFC 3339 instant; fails where chrono refuses the text, or where
/// the instant is not valid (a leap second, outside the years 0 to 9999).
pub fn parse_timestamp(s: &str) -> (r: Option<UtcInstant>)
    ensures
        match instant_of_text(s@) {
            Some(x) => if instant_ok(x.0, x.1) {
                r == Some(UtcInstant { secs: x.0, nanos: x.1 })
            } else {
                r is None
            },
            None => r is None,
        },
        r matches Some(t) ==> t.wf(),
{
    match chrono_parse(s) {
        None => None,
        Some((secs, nanos)) => UtcInstant::from_parts(secs, nanos),
    }
}

/// Writes an instant as RFC 3339 text in UTC.
pub fn format_timestamp(t: UtcInstant) -> (r: String)
    requires
        t.wf(),
    ensures
        instant_text(t.secs, t.nanos) == Some(r@),
{
    match chrono_text(t.secs, t.nanos) {
        Some(s) => s,
        None => String::new(),
    }
}

} // verus!
