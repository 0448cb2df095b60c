use vstd::prelude::*;
use vstd::string::StrSliceExecFns;
use vstd::string::StringExecFns;
use crate::duration::{parse_duration, span_of_text, span_text_bounded, Span};
use crate::text::push_char;
use crate::values::{
    instant_of_text, instant_ok, parse_identifier, parse_timestamp, parse_url,
    url_of_text, uuid_of_text, ShardUrl, UniqueId, UtcInstant,
};

verus! {

/// A document as a tree, the same for every surface syntax: text, integer,
/// boolean, list, object (named entries, in order), or an explicit null,
/// which no field accepts.
#[derive(Debug)]
pub enum Node {
    Null,
    Str(String),
    Int(i64),
    Bool(bool),
    List(Vec<Node>),
    Obj(Vec<Entry>),
}

/// A named entry of an object.
#[derive(Debug)]
pub struct Entry {
    pub key: String,
    pub value: Node,
}

/// What a value was expected to be.
#[derive(Clone, Copy, Debug, PartialEq, Eq, Structural)]
pub enum Expected {
    Text,
    Integer,
    Boolean,
    Object,
    List,
    Span,
    Identifier,
    Url,
    Timestamp,
    RequestTag,
}

#[derive(Clone, Copy, Debug, PartialEq, Eq, Structural)]
pub enum ErrorKind {
    /// A value does not satisfy its parser or tag table.
    InvalidFormat,
    /// A required field is absent.
    MissingField,
    /// The text is not a document of the claimed surface syntax.
    MalformedDocument,
}

/// Why a document did not decode: the kind, the dotted path of the field,
/// the offending text (empty where the value is not text), and what was
/// expected there.
#[derive(Clone, Debug)]
pub struct DecodeError {
    pub kind: ErrorKind,
    pub path: String,
    pub raw: String,
    pub expected: Expected,
}

pub struct ErrorView {
    pub kind: ErrorKind,
    pub path: Seq<char>,
    pub raw: Seq<char>,
    pub expected: Expected,
}

impl View for DecodeError {
    type V = ErrorView;

    open spec fn view(&self) -> ErrorView {
        ErrorView { kind: self.kind, path: self.path@, raw: self.raw@, expected: self.expected }
    }
}

pub open spec fn missing(path: Seq<char>, expected: Expected) -> ErrorView {
    ErrorView { kind: ErrorKind::MissingField, path, raw: Seq::empty(), expected }
}

pub open spec fn invalid(path: Seq<char>, raw: Seq<char>, expected: Expected) -> ErrorView {
    ErrorView { kind: ErrorKind::InvalidFormat, path, raw, expected }
}

/// The path of field `name` inside the value at `path`.
pub open spec fn child(path: Seq<char>, name: Seq<char>) -> Seq<char> {
    if path.len() == 0 {
        name
    } else {
        path.push('.') + name
    }
}

/// The value of the first entry named `key`.
pub open spec fn lookup(entries: Seq<Entry>, key: Seq<char>) -> Option<Node>
    decreases entries.len(),
{
    if entries.len() == 0 {
        None
    } else if entries[0].key@ == key {
        Some(entries[0].value)
    } else {
        lookup(entries.drop_first(), key)
    }
}

pub fn same_text(a: &str, b: &str) -> (r: bool)
    ensures
        r == (a@ == b@),
{
    let n = a.unicode_len();
    if n != b.unicode_len() {
        return false;
    }
    let mut i: usize = 0;
    while i < n
        invariant
            n == a@.len(),
            n == b@.len(),
            i <= n,
            a@.take(i as int) == b@.take(i as int),
        decreases n - i,
    {
        if a.get_char(i) != b.get_char(i) {
            return false;
        }
        proof {
            assert(a@.take(i + 1) =~= a@.take(i as int).push(a@[i as int]));
            assert(b@.take(i + 1) =~= b@.take(i as int).push(b@[i as int]));
        }
        i = i + 1;
    }
    proof {
        assert(a@.take(n as int) =~= a@);
        assert(b@.take(n as int) =~= b@);
    }
    true
}

/// Finds the value of the first entry named `key`.
pub fn find<'a>(entries: &'a Vec<Entry>, key: &str) -> (r: Option<&'a Node>)
    ensures
        match lookup(entries@, key@) {
            Some(v) => r == Some(&v),
            None => r is None,
        },
{
    let mut i: usize = 0;
    proof {
        assert(entries@.skip(0) =~= entries@);
    }
    while i < entries.len()
        invariant
            i <= entries@.len(),
            lookup(entries@, key@) == lookup(entries@.skip(i as int), key@),
        decreases entries@.len() - i,
    {
        proof {
            assert(entries@.skip(i as int).drop_first() =~= entries@.skip(i + 1));
        }
        if same_text(entries[i].key.as_str(), key) {
            return Some(&entries[i].value);
        }
        i = i + 1;
    }
    None
}

pub fn child_path(path: &str, name: &str) -> (r: String)
    ensures
        r@ == child(path@, name@),
{
    let mut out = String::from_str(path);
    if path.unicode_len() != 0 {
        push_char(&mut out, '.');
    }
    out.append(name);
    out
}

pub(crate) fn no_text() -> (r: &'static str)
    ensures
        r@ == Seq::<char>::empty(),
{
    proof {
        reveal_strlit("");
    }
    assert(""@ =~= Seq::<char>::empty());
    ""
}

fn missing_error(path: &str, name: &str, expected: Expected) -> (r: DecodeError)
    ensures
        r@ == missing(child(path@, name@), expected),
{
    DecodeError { kind: ErrorKind::MissingField, path: child_path(path, name), raw: String::new(), expected }
}

fn invalid_error(path: &str, name: &str, raw: &str, expected: Expected) -> (r: DecodeError)
    ensures
        r@ == invalid(child(path@, name@), raw@, expected),
{
    DecodeError {
        kind: ErrorKind::InvalidFormat,
        path: child_path(path, name),
        raw: String::from_str(raw),
        expected,
    }
}

/// Field `key` as text.
pub open spec fn field_text(es: Seq<Entry>, key: Seq<char>, path: Seq<char>) -> Result<Seq<char>, ErrorView> {
    match lookup(es, key) {
        None => Err(missing(child(path, key), Expected::Text)),
        Some(Node::Str(s)) => Ok(s@),
        Some(_) => Err(invalid(child(path, key), Seq::empty(), Expected::Text)),
    }
}

pub fn take_text(es: &Vec<Entry>, key: &str, path: &str) -> (r: Result<String, DecodeError>)
    ensures
        match field_text(es@, key@, path@) {
            Ok(v) => r matches Ok(x) && x@ == v,
            Err(e) => r matches Err(x) && x@ == e,
        },
{
    match find(es, key) {
        None => Err(missing_error(path, key, Expected::Text)),
        Some(Node::Str(s)) => Ok(s.clone()),
        Some(_) => Err(invalid_error(path, key, no_text(), Expected::Text)),
    }
}

/// Field `key` as an unsigned 32-bit integer.
pub open spec fn field_u32(es: Seq<Entry>, key: Seq<char>, path: Seq<char>) -> Result<u32, ErrorView> {
    match lookup(es, key) {
        None => Err(missing(child(path, key), Expected::Integer)),
        Some(Node::Int(i)) => if 0 <= i <= u32::MAX {
            Ok(i as u32)
        } else {
            Err(invalid(child(path, key), Seq::empty(), Expected::Integer))
        },
        Some(_) => Err(invalid(child(path, key), Seq::empty(), Expected::Integer)),
    }
}

pub fn take_u32(es: &Vec<Entry>, key: &str, path: &str) -> (r: Result<u32, DecodeError>)
    ensures
        match field_u32(es@, key@, path@) {
            Ok(v) => r == Ok::<u32, DecodeError>(v),
            Err(e) => r matches Err(x) && x@ == e,
        },
{
    match find(es, key) {
        None => Err(missing_error(path, key, Expected::Integer)),
        Some(Node::Int(i)) => if 0 <= *i && *i <= u32::MAX as i64 {
            Ok(*i as u32)
        } else {
            Err(invalid_error(path, key, no_text(), Expected::Integer))
        },
        Some(_) => Err(invalid_error(path, key, no_text(), Expected::Integer)),
    }
}

/// Field `key` as a boolean.
pub open spec fn field_bool(es: Seq<Entry>, key: Seq<char>, path: Seq<char>) -> Result<bool, ErrorView> {
    match lookup(es, key) {
        None => Err(missing(child(path, key), Expected::Boolean)),
        Some(Node::Bool(b)) => Ok(b),
        Some(_) => Err(invalid(child(path, key), Seq::empty(), Expected::Boolean)),
    }
}

pub fn take_bool(es: &Vec<Entry>, key: &str, path: &str) -> (r: Result<bool, DecodeError>)
    ensures
        match field_bool(es@, key@, path@) {
            Ok(v) => r == Ok::<bool, DecodeError>(v),
            Err(e) => r matches Err(x) && x@ == e,
        },
{
    match find(es, key) {
        None => Err(missing_error(path, key, Expected::Boolean)),
        Some(Node::Bool(b)) => Ok(*b),
        Some(_) => Err(invalid_error(path, key, no_text(), Expected::Boolean)),
    }
}

/// Field `key` as a span: text that the span grammar reads.
pub open spec fn field_span(es: Seq<Entry>, key: Seq<char>, path: Seq<char>) -> Result<nat, ErrorView> {
    match lookup(es, key) {
        None => Err(missing(child(path, key), Expected::Span)),
        Some(Node::Str(s)) => if !span_text_bounded(s@) {
            Err(invalid(child(path, key), s@, Expected::Span))
        } else {
            match span_of_text(s@) {
                Some(v) => if v <= u64::MAX {
                    Ok(v as nat)
                } else {
                    Err(invalid(child(path, key), s@, Expected::Span))
                },
                None => Err(invalid(child(path, key), s@, Expected::Span)),
            }
        },
        Some(_) => Err(invalid(child(path, key), Seq::empty(), Expected::Span)),
    }
}

pub fn take_span(es: &Vec<Entry>, key: &str, path: &str) -> (r: Result<Span, DecodeError>)
    ensures
        match field_span(es@, key@, path@) {
            Ok(v) => r matches Ok(x) && x@ == v && x.wf(),
            Err(e) => r matches Err(x) && x@ == e,
        },
{
    match find(es, key) {
        None => Err(missing_error(path, key, Expected::Span)),
        Some(Node::Str(s)) => match parse_duration(s.as_str()) {
            Some(d) => Ok(d),
            None => Err(invalid_error(path, key, s.as_str(), Expected::Span)),
        },
        Some(_) => Err(invalid_error(path, key, no_text(), Expected::Span)),
    }
}

/// Field `key` as an identifier.
pub open spec fn field_id(es: Seq<Entry>, key: Seq<char>, path: Seq<char>) -> Result<u128, ErrorView> {
    match lookup(es, key) {
        None => Err(missing(child(path, key), Expected::Identifier)),
        Some(Node::Str(s)) => match uuid_of_text(s@) {
            Some(v) => Ok(v),
            None => Err(invalid(child(path, key), s@, Expected::Identifier)),
        },
        Some(_) => Err(invalid(child(path, key), Seq::empty(), Expected::Identifier)),
    }
}

pub fn take_id(es: &Vec<Entry>, key: &str, path: &str) -> (r: Result<UniqueId, DecodeError>)
    ensures
        match field_id(es@, key@, path@) {
            Ok(v) => r == Ok::<UniqueId, DecodeError>(UniqueId { value: v }),
            Err(e) => r matches Err(x) && x@ == e,
        },
        r matches Ok(x) ==> x.wf(),
{
    match find(es, key) {
        None => Err(missing_error(path, key, Expected::Identifier)),
        Some(Node::Str(s)) => match parse_identifier(s.as_str()) {
            Some(d) => Ok(d),
            None => Err(invalid_error(path, key, s.as_str(), Expected::Identifier)),
        },
        Some(_) => Err(invalid_error(path, key, no_text(), Expected::Identifier)),
    }
}

/// Field `key` as a URL, given as its serialization.
pub open spec fn field_url(es: Seq<Entry>, key: Seq<char>, path: Seq<char>) -> Result<Seq<char>, ErrorView> {
    match lookup(es, key) {
        None => Err(missing(child(path, key), Expected::Url)),
        Some(Node::Str(s)) => match url_of_text(s@) {
            Some(t) => if url_of_text(t) == Some(t) {
                Ok(t)
            } else {
                Err(invalid(child(path, key), s@, Expected::Url))
            },
            None => Err(invalid(child(path, key), s@, Expected::Url)),
        },
        Some(_) => Err(invalid(child(path, key), Seq::empty(), Expected::Url)),
    }
}

pub fn take_url(es: &Vec<Entry>, key: &str, path: &str) -> (r: Result<ShardUrl, DecodeError>)
    ensures
        match field_url(es@, key@, path@) {
            Ok(v) => r matches Ok(x) && x.text@ == v && x.wf(),
            Err(e) => r matches Err(x) && x@ == e,
        },
{
    match find(es, key) {
        None => Err(missing_error(path, key, Expected::Url)),
        Some(Node::Str(s)) => match parse_url(s.as_str()) {
            Some(d) => Ok(d),
            None => Err(invalid_error(path, key, s.as_str(), Expected::Url)),
        },
        Some(_) => Err(invalid_error(path, key, no_text(), Expected::Url)),
    }
}

/// Field `key` as an instant.
pub open spec fn field_instant(es: Seq<Entry>, key: Seq<char>, path: Seq<char>) -> Result<(i64, u32), ErrorView> {
    match lookup(es, key) {
        None => Err(missing(child(path, key), Expected::Timestamp)),
        Some(Node::Str(s)) => match instant_of_text(s@) {
            Some(x) => if instant_ok(x.0, x.1) {
                Ok(x)
            } else {
                Err(invalid(child(path, key), s@, Expected::Timestamp))
            },
            None => Err(invalid(child(path, key), s@, Expected::Timestamp)),
        },
        Some(_) => Err(invalid(child(path, key), Seq::empty(), Expected::Timestamp)),
    }
}

pub fn take_instant(es: &Vec<Entry>, key: &str, path: &str) -> (r: Result<UtcInstant, DecodeError>)
    ensures
        match field_instant(es@, key@, path@) {
            Ok(v) => r == Ok::<UtcInstant, DecodeError>(UtcInstant { secs: v.0, nanos: v.1 }),
            Err(e) => r matches Err(x) && x@ == e,
        },
        r matches Ok(x) ==> x.wf(),
{
    match find(es, key) {
        None => Err(missing_error(path, key, Expected::Timestamp)),
        Some(Node::Str(s)) => match parse_timestamp(s.as_str()) {
            Some(d) => Ok(d),
            None => Err(invalid_error(path, key, s.as_str(), Expected::Timestamp)),
        },
        Some(_) => Err(invalid_error(path, key, no_text(), Expected::Timestamp)),
    }
}

/// Field `key` as an object: its entries.
pub open spec fn field_obj(es: Seq<Entry>, key: Seq<char>, path: Seq<char>) -> Result<Seq<Entry>, ErrorView> {
    match lookup(es, key) {
        None => Err(missing(child(path, key), Expected::Object)),
        Some(Node::Obj(v)) => Ok(v@),
        Some(_) => Err(invalid(child(path, key), Seq::empty(), Expected::Object)),
    }
}

pub fn take_obj<'a>(es: &'a Vec<Entry>, key: &str, path: &str) -> (r: Result<&'a Vec<Entry>, DecodeError>)
    ensures
        match field_obj(es@, key@, path@) {
            Ok(v) => r matches Ok(x) && x@ == v,
            Err(e) => r matches Err(x) && x@ == e,
        },
{
    match find(es, key) {
        None => Err(missing_error(path, key, Expected::Object)),
        Some(Node::Obj(v)) => Ok(v),
        Some(_) => Err(invalid_error(path, key, no_text(), Expected::Object)),
    }
}

} // verus!
