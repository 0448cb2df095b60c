use vstd::prelude::*;
use vstd::string::StringExecFns;
use crate::date::{date_from_wire, date_to_wire, date_wire, remove_marker};
use crate::duration::{format_duration, span_text, Span};
use crate::text::{decimal, push_char, push_decimal};
use crate::tree::{
    child, child_path, field_bool, field_id, field_instant, field_obj, field_text, field_u32,
    field_span, field_url, find, invalid, lookup, missing, no_text, same_text, take_bool, take_id,
    take_instant, take_obj, take_span, take_text, take_u32, take_url, DecodeError, Entry,
    ErrorKind, ErrorView, Expected, Node,
};
use crate::values::{
    format_identifier, format_timestamp, format_url, hyphenated, instant_text, parse_url,
    ShardUrl, UniqueId, UtcInstant,
};

verus! {

// ---------------------------------------------------------------- records

#[derive(Clone, Debug)]
pub struct User {
    pub name: String,
    pub email: String,
    pub birthdate: String,
}

pub struct UserView {
    pub name: Seq<char>,
    pub email: Seq<char>,
    pub birthdate: Seq<char>,
}

impl View for User {
    type V = UserView;

    open spec fn view(&self) -> UserView {
        UserView { name: self.name@, email: self.email@, birthdate: self.birthdate@ }
    }
}

#[derive(Clone, Debug)]
pub struct PublicTariff {
    pub id: u32,
    pub price: u32,
    pub duration: Span,
    pub description: String,
}

pub struct PublicTariffView {
    pub id: u32,
    pub price: u32,
    pub duration: nat,
    pub description: Seq<char>,
}

impl View for PublicTariff {
    type V = PublicTariffView;

    open spec fn view(&self) -> PublicTariffView {
        PublicTariffView {
            id: self.id,
            price: self.price,
            duration: self.duration@,
            description: self.description@,
        }
    }
}

#[derive(Clone, Debug)]
pub struct PrivateTariff {
    pub client_price: u32,
    pub duration: Span,
    pub description: String,
}

pub struct PrivateTariffView {
    pub client_price: u32,
    pub duration: nat,
    pub description: Seq<char>,
}

impl View for PrivateTariff {
    type V = PrivateTariffView;

    open spec fn view(&self) -> PrivateTariffView {
        PrivateTariffView {
            client_price: self.client_price,
            duration: self.duration@,
            description: self.description@,
        }
    }
}

#[derive(Clone, Debug)]
pub struct Stream {
    pub user_id: UniqueId,
    pub is_private: bool,
    pub settings: u32,
    pub shard_url: ShardUrl,
    pub public_tariff: PublicTariff,
    pub private_tariff: PrivateTariff,
}

pub struct StreamView {
    pub user_id: u128,
    pub is_private: bool,
    pub settings: u32,
    pub shard_url: Seq<char>,
    pub public_tariff: PublicTariffView,
    pub private_tariff: PrivateTariffView,
}

impl View for Stream {
    type V = StreamView;

    open spec fn view(&self) -> StreamView {
        StreamView {
            user_id: self.user_id.value,
            is_private: self.is_private,
            settings: self.settings,
            shard_url: self.shard_url.text@,
            public_tariff: self.public_tariff@,
            private_tariff: self.private_tariff@,
        }
    }
}

impl Stream {
    pub open spec fn wf(&self) -> bool {
        &&& self.user_id.wf()
        &&& self.shard_url.wf()
        &&& self.public_tariff.duration.wf()
        &&& self.private_tariff.duration.wf()
    }
}

#[derive(Clone, Debug)]
pub struct Gift {
    pub id: u32,
    pub price: u32,
    pub description: String,
}

pub struct GiftView {
    pub id: u32,
    pub price: u32,
    pub description: Seq<char>,
}

impl View for Gift {
    type V = GiftView;

    open spec fn view(&self) -> GiftView {
        GiftView { id: self.id, price: self.price, description: self.description@ }
    }
}

impl PartialEq for Gift {
    fn eq(&self, o: &Gift) -> (r: bool)
        ensures
            r == (self@ == o@),
    {
        self.id == o.id && self.price == o.price && self.description == o.description
    }
}

impl vstd::std_specs::cmp::PartialEqSpecImpl for Gift {
    open spec fn obeys_eq_spec() -> bool {
        true
    }

    open spec fn eq_spec(&self, o: &Gift) -> bool {
        self@ == o@
    }
}

impl Eq for Gift {
}

/// Metadata about how a request was handled.
#[derive(Clone, Debug)]
pub struct Debug {
    pub duration: Span,
    pub at: UtcInstant,
}

pub struct DebugView {
    pub duration: nat,
    pub at: (i64, u32),
}

impl View for Debug {
    type V = DebugView;

    open spec fn view(&self) -> DebugView {
        DebugView { duration: self.duration@, at: (self.at.secs, self.at.nanos) }
    }
}

#[derive(Clone, Copy, Debug, PartialEq, Eq, Structural)]
pub enum RequestType {
    Success,
    Failure,
}

#[derive(Clone, Debug)]
pub struct Request {
    pub request_type: RequestType,
    pub stream: Stream,
    pub gifts: Vec<Gift>,
    pub debug: Debug,
}

pub struct RequestView {
    pub request_type: RequestType,
    pub stream: StreamView,
    pub gifts: Seq<GiftView>,
    pub debug: DebugView,
}

pub open spec fn gifts_view(gs: Seq<Gift>) -> Seq<GiftView> {
    gs.map_values(|g: Gift| g@)
}

impl View for Request {
    type V = RequestView;

    open spec fn view(&self) -> RequestView {
        RequestView {
            request_type: self.request_type,
            stream: self.stream@,
            gifts: gifts_view(self.gifts@),
            debug: self.debug@,
        }
    }
}

impl Request {
    pub open spec fn wf(&self) -> bool {
        self.stream.wf() && self.debug.at.wf() && self.debug.duration.wf()
    }
}

#[derive(Clone, Debug)]
pub struct Event {
    pub name: String,
    pub date: String,
}

pub struct EventView {
    pub name: Seq<char>,
    pub date: Seq<char>,
}

impl View for Event {
    type V = EventView;

    open spec fn view(&self) -> EventView {
        EventView { name: self.name@, date: self.date@ }
    }
}

// ---------------------------------------------------------- request tags

/// The wire tag of a request type.
pub open spec fn tag_text(t: RequestType) -> Seq<char> {
    match t {
        RequestType::Success => "success"@,
        RequestType::Failure => "failure"@,
    }
}

/// The request type that a wire tag names, if any.
pub open spec fn tag_type(s: Seq<char>) -> Option<RequestType> {
    if s == "success"@ {
        Some(RequestType::Success)
    } else if s == "failure"@ {
        Some(RequestType::Failure)
    } else {
        None
    }
}

impl RequestType {
    pub fn tag(&self) -> (r: &'static str)
        ensures
            r@ == tag_text(*self),
    {
        match self {
            RequestType::Success => "success",
            RequestType::Failure => "failure",
        }
    }

    pub fn from_tag(s: &str) -> (r: Option<RequestType>)
        ensures
            r == tag_type(s@),
    {
        if same_text(s, "success") {
            Some(RequestType::Success)
        } else if same_text(s, "failure") {
            Some(RequestType::Failure)
        } else {
            None
        }
    }
}

// -------------------------------------------------------------- decoding

pub open spec fn user_of(es: Seq<Entry>, p: Seq<char>) -> Result<UserView, ErrorView> {
    let a = field_text(es, "name"@, p);
    let b = field_text(es, "email"@, p);
    let c = field_text(es, "birthdate"@, p);
    if a is Err {
        Err(a->Err_0)
    } else if b is Err {
        Err(b->Err_0)
    } else if c is Err {
        Err(c->Err_0)
    } else {
        Ok(UserView { name: a->Ok_0, email: b->Ok_0, birthdate: c->Ok_0 })
    }
}

pub open spec fn public_tariff_of(es: Seq<Entry>, p: Seq<char>) -> Result<
    PublicTariffView,
    ErrorView,
> {
    let a = field_u32(es, "id"@, p);
    let b = field_u32(es, "price"@, p);
    let c = field_span(es, "duration"@, p);
    let d = field_text(es, "description"@, p);
    if a is Err {
        Err(a->Err_0)
    } else if b is Err {
        Err(b->Err_0)
    } else if c is Err {
        Err(c->Err_0)
    } else if d is Err {
        Err(d->Err_0)
    } else {
        Ok(
            PublicTariffView {
                id: a->Ok_0,
                price: b->Ok_0,
                duration: c->Ok_0,
                description: d->Ok_0,
            },
        )
    }
}

pub open spec fn private_tariff_of(es: Seq<Entry>, p: Seq<char>) -> Result<
    PrivateTariffView,
    ErrorView,
> {
    let a = field_u32(es, "client_price"@, p);
    let b = field_span(es, "duration"@, p);
    let c = field_text(es, "description"@, p);
    if a is Err {
        Err(a->Err_0)
    } else if b is Err {
        Err(b->Err_0)
    } else if c is Err {
        Err(c->Err_0)
    } else {
        Ok(PrivateTariffView { client_price: a->Ok_0, duration: b->Ok_0, description: c->Ok_0 })
    }
}

pub open spec fn nested_public(es: Seq<Entry>, p: Seq<char>) -> Result<PublicTariffView, ErrorView> {
    match field_obj(es, "public_tariff"@, p) {
        Ok(v) => public_tariff_of(v, child(p, "public_tariff"@)),
        Err(e) => Err(e),
    }
}

pub open spec fn nested_private(es: Seq<Entry>, p: Seq<char>) -> Result<
    PrivateTariffView,
    ErrorView,
> {
    match field_obj(es, "private_tariff"@, p) {
        Ok(v) => private_tariff_of(v, child(p, "private_tariff"@)),
        Err(e) => Err(e),
    }
}

pub open spec fn stream_of(es: Seq<Entry>, p: Seq<char>) -> Result<StreamView, ErrorView> {
    let a = field_id(es, "user_id"@, p);
    let b = field_bool(es, "is_private"@, p);
    let c = field_u32(es, "settings"@, p);
    let d = field_url(es, "shard_url"@, p);
    let e = nested_public(es, p);
    let f = nested_private(es, p);
    if a is Err {
        Err(a->Err_0)
    } else if b is Err {
        Err(b->Err_0)
    } else if c is Err {
        Err(c->Err_0)
    } else if d is Err {
        Err(d->Err_0)
    } else if e is Err {
        Err(e->Err_0)
    } else if f is Err {
        Err(f->Err_0)
    } else {
        Ok(
            StreamView {
                user_id: a->Ok_0,
                is_private: b->Ok_0,
                settings: c->Ok_0,
                shard_url: d->Ok_0,
                public_tariff: e->Ok_0,
                private_tariff: f->Ok_0,
            },
        )
    }
}

pub open spec fn gift_of(es: Seq<Entry>, p: Seq<char>) -> Result<GiftView, ErrorView> {
    let a = field_u32(es, "id"@, p);
    let b = field_u32(es, "price"@, p);
    let c = field_text(es, "description"@, p);
    if a is Err {
        Err(a->Err_0)
    } else if b is Err {
        Err(b->Err_0)
    } else if c is Err {
        Err(c->Err_0)
    } else {
        Ok(GiftView { id: a->Ok_0, price: b->Ok_0, description: c->Ok_0 })
    }
}

/// The path of item `i` of the list at `p`: `gifts[0]`.
pub open spec fn index_path(p: Seq<char>, i: nat) -> Seq<char> {
    p.push('[') + decimal(i) + seq![']']
}

pub open spec fn gift_at(n: Node, p: Seq<char>) -> Result<GiftView, ErrorView> {
    match n {
        Node::Obj(v) => gift_of(v@, p),
        _ => Err(invalid(p, Seq::empty(), Expected::Object)),
    }
}

/// The first `n` items of a list of gifts, or the first error among them.
pub open spec fn gifts_prefix(items: Seq<Node>, p: Seq<char>, n: nat) -> Result<
    Seq<GiftView>,
    ErrorView,
>
    decreases n,
{
    if n == 0 || n > items.len() {
        Ok(Seq::empty())
    } else {
        match gifts_prefix(items, p, (n - 1) as nat) {
            Err(e) => Err(e),
            Ok(s) => match gift_at(items[n - 1], index_path(p, (n - 1) as nat)) {
                Ok(g) => Ok(s.push(g)),
                Err(e) => Err(e),
            },
        }
    }
}

pub open spec fn gifts_of(es: Seq<Entry>, p: Seq<char>) -> Result<Seq<GiftView>, ErrorView> {
    match lookup(es, "gifts"@) {
        None => Err(missing(child(p, "gifts"@), Expected::List)),
        Some(Node::List(v)) => gifts_prefix(v@, child(p, "gifts"@), v@.len()),
        Some(_) => Err(invalid(child(p, "gifts"@), Seq::empty(), Expected::List)),
    }
}

pub open spec fn debug_of(es: Seq<Entry>, p: Seq<char>) -> Result<DebugView, ErrorView> {
    let a = field_span(es, "duration"@, p);
    let b = field_instant(es, "at"@, p);
    if a is Err {
        Err(a->Err_0)
    } else if b is Err {
        Err(b->Err_0)
    } else {
        Ok(DebugView { duration: a->Ok_0, at: b->Ok_0 })
    }
}

pub open spec fn tag_of(es: Seq<Entry>, p: Seq<char>) -> Result<RequestType, ErrorView> {
    match field_text(es, "type"@, p) {
        Err(e) => Err(e),
        Ok(s) => match tag_type(s) {
            Some(t) => Ok(t),
            None => Err(invalid(child(p, "type"@), s, Expected::RequestTag)),
        },
    }
}

pub open spec fn nested_stream(es: Seq<Entry>, p: Seq<char>) -> Result<StreamView, ErrorView> {
    match field_obj(es, "stream"@, p) {
        Ok(v) => stream_of(v, child(p, "stream"@)),
        Err(e) => Err(e),
    }
}

pub open spec fn nested_debug(es: Seq<Entry>, p: Seq<char>) -> Result<DebugView, ErrorView> {
    match field_obj(es, "debug"@, p) {
        Ok(v) => debug_of(v, child(p, "debug"@)),
        Err(e) => Err(e),
    }
}

pub open spec fn request_of(es: Seq<Entry>, p: Seq<char>) -> Result<RequestView, ErrorView> {
    let a = tag_of(es, p);
    let b = nested_stream(es, p);
    let c = gifts_of(es, p);
    let d = nested_debug(es, p);
    if a is Err {
        Err(a->Err_0)
    } else if b is Err {
        Err(b->Err_0)
    } else if c is Err {
        Err(c->Err_0)
    } else if d is Err {
        Err(d->Err_0)
    } else {
        Ok(RequestView { request_type: a->Ok_0, stream: b->Ok_0, gifts: c->Ok_0, debug: d->Ok_0 })
    }
}

pub open spec fn event_of(es: Seq<Entry>, p: Seq<char>) -> Result<EventView, ErrorView> {
    let a = field_text(es, "name"@, p);
    let b = field_text(es, "date"@, p);
    if a is Err {
        Err(a->Err_0)
    } else if b is Err {
        Err(b->Err_0)
    } else {
        Ok(EventView { name: a->Ok_0, date: remove_marker(b->Ok_0) })
    }
}

/// A whole document: it must be an object.
pub open spec fn document_entries(n: Node) -> Result<Seq<Entry>, ErrorView> {
    match n {
        Node::Obj(v) => Ok(v@),
        _ => Err(invalid(Seq::empty(), Seq::empty(), Expected::Object)),
    }
}

pub open spec fn request_of_document(n: Node) -> Result<RequestView, ErrorView> {
    match document_entries(n) {
        Ok(es) => request_of(es, Seq::empty()),
        Err(e) => Err(e),
    }
}

pub open spec fn event_of_document(n: Node) -> Result<EventView, ErrorView> {
    match document_entries(n) {
        Ok(es) => event_of(es, Seq::empty()),
        Err(e) => Err(e),
    }
}

fn invalid_at(path: &str, expected: Expected) -> (r: DecodeError)
    ensures
        r@ == invalid(path@, Seq::empty(), expected),
{
    DecodeError { kind: ErrorKind::InvalidFormat, path: String::from_str(path), raw: String::new(), expected }
}

impl User {
    /// Decodes a user from the entries of the object at `path`.
    pub fn from_entries(es: &Vec<Entry>, path: &str) -> (r: Result<User, DecodeError>)
        ensures
            match user_of(es@, path@) {
                Ok(v) => r matches Ok(x) && x@ == v,
                Err(e) => r matches Err(x) && x@ == e,
            },
    {
        let name = match take_text(es, "name", path) {
            Ok(v) => v,
            Err(e) => return Err(e),
        };
        let email = match take_text(es, "email", path) {
            Ok(v) => v,
            Err(e) => return Err(e),
        };
        let birthdate = match take_text(es, "birthdate", path) {
            Ok(v) => v,
            Err(e) => return Err(e),
        };
        Ok(User { name, email, birthdate })
    }
}

impl PublicTariff {
    /// Decodes a public tariff from the entries of the object at `path`.
    pub fn from_entries(es: &Vec<Entry>, path: &str) -> (r: Result<PublicTariff, DecodeError>)
        ensures
            match public_tariff_of(es@, path@) {
                Ok(v) => r matches Ok(x) && x@ == v && x.duration.wf(),
                Err(e) => r matches Err(x) && x@ == e,
            },
    {
        let id = match take_u32(es, "id", path) {
            Ok(v) => v,
            Err(e) => return Err(e),
        };
        let price = match take_u32(es, "price", path) {
            Ok(v) => v,
            Err(e) => return Err(e),
        };
        let duration = match take_span(es, "duration", path) {
            Ok(v) => v,
            Err(e) => return Err(e),
        };
        let description = match take_text(es, "description", path) {
            Ok(v) => v,
            Err(e) => return Err(e),
        };
        Ok(PublicTariff { id, price, duration, description })
    }
}

impl PrivateTariff {
    /// Decodes a private tariff from the entries of the object at `path`.
    pub fn from_entries(es: &Vec<Entry>, path: &str) -> (r: Result<PrivateTariff, DecodeError>)
        ensures
            match private_tariff_of(es@, path@) {
                Ok(v) => r matches Ok(x) && x@ == v && x.duration.wf(),
                Err(e) => r matches Err(x) && x@ == e,
            },
    {
        let client_price = match take_u32(es, "client_price", path) {
            Ok(v) => v,
            Err(e) => return Err(e),
        };
        let duration = match take_span(es, "duration", path) {
            Ok(v) => v,
            Err(e) => return Err(e),
        };
        let description = match take_text(es, "description", path) {
            Ok(v) => v,
            Err(e) => return Err(e),
        };
        Ok(PrivateTariff { client_price, duration, description })
    }
}

impl Stream {
    /// Decodes a stream from the entries of the object at `path`.
    pub fn from_entries(es: &Vec<Entry>, path: &str) -> (r: Result<Stream, DecodeError>)
        ensures
            match stream_of(es@, path@) {
                Ok(v) => r matches Ok(x) && x@ == v && x.wf(),
                Err(e) => r matches Err(x) && x@ == e,
            },
    {
        let user_id = match take_id(es, "user_id", path) {
            Ok(v) => v,
            Err(e) => return Err(e),
        };
        let is_private = match take_bool(es, "is_private", path) {
            Ok(v) => v,
            Err(e) => return Err(e),
        };
        let settings = match take_u32(es, "settings", path) {
            Ok(v) => v,
            Err(e) => return Err(e),
        };
        let shard_url = match take_url(es, "shard_url", path) {
            Ok(v) => v,
            Err(e) => return Err(e),
        };
        let public_tariff = match take_obj(es, "public_tariff", path) {
            Ok(v) => match PublicTariff::from_entries(v, child_path(path, "public_tariff").as_str()) {
                Ok(t) => t,
                Err(e) => return Err(e),
            },
            Err(e) => return Err(e),
        };
        let private_tariff = match take_obj(es, "private_tariff", path) {
            Ok(v) => match PrivateTariff::from_entries(v, child_path(path, "private_tariff").as_str()) {
                Ok(t) => t,
                Err(e) => return Err(e),
            },
            Err(e) => return Err(e),
        };
        Ok(Stream { user_id, is_private, settings, shard_url, public_tariff, private_tariff })
    }
}

impl Gift {
    /// Decodes a gift from the entries of the object at `path`.
    pub fn from_entries(es: &Vec<Entry>, path: &str) -> (r: Result<Gift, DecodeError>)
        ensures
            match gift_of(es@, path@) {
                Ok(v) => r matches Ok(x) && x@ == v,
                Err(e) => r matches Err(x) && x@ == e,
            },
    {
        let id = match take_u32(es, "id", path) {
            Ok(v) => v,
            Err(e) => return Err(e),
        };
        let price = match take_u32(es, "price", path) {
            Ok(v) => v,
            Err(e) => return Err(e),
        };
        let description = match take_text(es, "description", path) {
            Ok(v) => v,
            Err(e) => return Err(e),
        };
        Ok(Gift { id, price, description })
    }
}

proof fn lemma_prefix_error(items: Seq<Node>, p: Seq<char>, k: nat, m: nat)
    requires
        k <= m <= items.len(),
        gifts_prefix(items, p, k) is Err,
    ensures
        gifts_prefix(items, p, m) == gifts_prefix(items, p, k),
    decreases m,
{
    if m > k {
        lemma_prefix_error(items, p, k, (m - 1) as nat);
    }
}

fn index_path_exec(p: &str, i: usize) -> (r: String)
    ensures
        r@ == index_path(p@, i as nat),
{
    let mut out = String::from_str(p);
    push_char(&mut out, '[');
    push_decimal(&mut out, i as u64);
    push_char(&mut out, ']');
    assert(out@ =~= index_path(p@, i as nat));
    out
}

/// Decodes the list of gifts in field `gifts` of the object at `path`.
pub fn decode_gifts(es: &Vec<Entry>, path: &str) -> (r: Result<Vec<Gift>, DecodeError>)
    ensures
        match gifts_of(es@, path@) {
            Ok(v) => r matches Ok(x) && gifts_view(x@) == v,
            Err(e) => r matches Err(x) && x@ == e,
        },
{
    let lp = child_path(path, "gifts");
    match find(es, "gifts") {
        None => Err(DecodeError {
            kind: ErrorKind::MissingField,
            path: lp,
            raw: String::new(),
            expected: Expected::List,
        }),
        Some(Node::List(items)) => {
            let mut out: Vec<Gift> = Vec::new();
            let mut i: usize = 0;
            assert(gifts_view(out@) =~= Seq::<GiftView>::empty());
            while i < items.len()
                invariant
                    i <= items@.len(),
                    lookup(es@, "gifts"@) == Some(Node::List(*items)),
                    lp@ == child(path@, "gifts"@),
                    gifts_prefix(items@, lp@, i as nat) == Ok::<Seq<GiftView>, ErrorView>(
                        gifts_view(out@),
                    ),
                decreases items@.len() - i,
            {
                let ip = index_path_exec(lp.as_str(), i);
                let g = match &items[i] {
                    Node::Obj(v) => Gift::from_entries(v, ip.as_str()),
                    _ => Err(invalid_at(ip.as_str(), Expected::Object)),
                };
                match g {
                    Ok(g) => {
                        let ghost before = out@;
                        out.push(g);
                        proof {
                            assert(gifts_view(out@) =~= gifts_view(before).push(g@));
                            assert(gifts_prefix(items@, lp@, (i + 1) as nat) == Ok::<
                                Seq<GiftView>,
                                ErrorView,
                            >(gifts_view(before).push(g@)));
                        }
                    },
                    Err(e) => {
                        proof {
                            assert(gifts_prefix(items@, lp@, (i + 1) as nat) == Err::<
                                Seq<GiftView>,
                                ErrorView,
                            >(e@));
                            lemma_prefix_error(items@, lp@, (i + 1) as nat, items@.len());
                            assert(gifts_prefix(items@, lp@, items@.len()) == Err::<
                                Seq<GiftView>,
                                ErrorView,
                            >(e@));
                            assert(lookup(es@, "gifts"@) == Some(Node::List(*items)));
                            assert(gifts_of(es@, path@) == Err::<Seq<GiftView>, ErrorView>(e@));
                        }
                        return Err(e);
                    },
                }
                i = i + 1;
            }
            Ok(out)
        },
        Some(_) => Err(invalid_at(lp.as_str(), Expected::List)),
    }
}

impl Debug {
    /// Decodes debug metadata from the entries of the object at `path`.
    pub fn from_entries(es: &Vec<Entry>, path: &str) -> (r: Result<Debug, DecodeError>)
        ensures
            match debug_of(es@, path@) {
                Ok(v) => r matches Ok(x) && x@ == v && x.at.wf() && x.duration.wf(),
                Err(e) => r matches Err(x) && x@ == e,
            },
    {
        let duration = match take_span(es, "duration", path) {
            Ok(v) => v,
            Err(e) => return Err(e),
        };
        let at = match take_instant(es, "at", path) {
            Ok(v) => v,
            Err(e) => return Err(e),
        };
        Ok(Debug { duration, at })
    }
}

/// Decodes the request type in field `type` of the object at `path`.
pub fn decode_tag(es: &Vec<Entry>, path: &str) -> (r: Result<RequestType, DecodeError>)
    ensures
        match tag_of(es@, path@) {
            Ok(v) => r == Ok::<RequestType, DecodeError>(v),
            Err(e) => r matches Err(x) && x@ == e,
        },
{
    let s = match take_text(es, "type", path) {
        Ok(v) => v,
        Err(e) => return Err(e),
    };
    match RequestType::from_tag(s.as_str()) {
        Some(t) => Ok(t),
        None => Err(DecodeError {
            kind: ErrorKind::InvalidFormat,
            path: child_path(path, "type"),
            raw: s,
            expected: Expected::RequestTag,
        }),
    }
}

impl Request {
    /// Decodes a request from the entries of the object at `path`.
    pub fn from_entries(es: &Vec<Entry>, path: &str) -> (r: Result<Request, DecodeError>)
        ensures
            match request_of(es@, path@) {
                Ok(v) => r matches Ok(x) && x@ == v && x.wf(),
                Err(e) => r matches Err(x) && x@ == e,
            },
    {
        let request_type = match decode_tag(es, path) {
            Ok(v) => v,
            Err(e) => return Err(e),
        };
        let stream = match take_obj(es, "stream", path) {
            Ok(v) => match Stream::from_entries(v, child_path(path, "stream").as_str()) {
                Ok(t) => t,
                Err(e) => return Err(e),
            },
            Err(e) => return Err(e),
        };
        let gifts = match decode_gifts(es, path) {
            Ok(v) => v,
            Err(e) => return Err(e),
        };
        let debug = match take_obj(es, "debug", path) {
            Ok(v) => match Debug::from_entries(v, child_path(path, "debug").as_str()) {
                Ok(t) => t,
                Err(e) => return Err(e),
            },
            Err(e) => return Err(e),
        };
        Ok(Request { request_type, stream, gifts, debug })
    }
}

impl Event {
    /// Decodes an event from the entries of the object at `path`; the date
    /// goes through the date transform.
    pub fn from_entries(es: &Vec<Entry>, path: &str) -> (r: Result<Event, DecodeError>)
        ensures
            match event_of(es@, path@) {
                Ok(v) => r matches Ok(x) && x@ == v,
                Err(e) => r matches Err(x) && x@ == e,
            },
    {
        let name = match take_text(es, "name", path) {
            Ok(v) => v,
            Err(e) => return Err(e),
        };
        let wire = match take_text(es, "date", path) {
            Ok(v) => v,
            Err(e) => return Err(e),
        };
        Ok(Event { name, date: date_from_wire(wire.as_str()) })
    }
}

/// Decodes a request from a whole document.
pub fn decode_request(doc: &Node) -> (r: Result<Request, DecodeError>)
    ensures
        match request_of_document(*doc) {
            Ok(v) => r matches Ok(x) && x@ == v && x.wf(),
            Err(e) => r matches Err(x) && x@ == e,
        },
{
    match doc {
        Node::Obj(es) => Request::from_entries(es, no_text()),
        _ => Err(invalid_at(no_text(), Expected::Object)),
    }
}

/// Decodes an event from a whole document.
pub fn decode_event(doc: &Node) -> (r: Result<Event, DecodeError>)
    ensures
        match event_of_document(*doc) {
            Ok(v) => r matches Ok(x) && x@ == v,
            Err(e) => r matches Err(x) && x@ == e,
        },
{
    match doc {
        Node::Obj(es) => Event::from_entries(es, no_text()),
        _ => Err(invalid_at(no_text(), Expected::Object)),
    }
}

// -------------------------------------------------------------- encoding

pub open spec fn text_node(n: Node, s: Seq<char>) -> bool {
    n matches Node::Str(x) && x@ == s
}

pub open spec fn gift_entries(es: Seq<Entry>, g: GiftView) -> bool {
    &&& es.len() == 3
    &&& es[0].key@ == "id"@ && es[0].value == Node::Int(g.id as i64)
    &&& es[1].key@ == "price"@ && es[1].value == Node::Int(g.price as i64)
    &&& es[2].key@ == "description"@ && text_node(es[2].value, g.description)
}

pub open spec fn user_entries(es: Seq<Entry>, u: UserView) -> bool {
    &&& es.len() == 3
    &&& es[0].key@ == "name"@ && text_node(es[0].value, u.name)
    &&& es[1].key@ == "email"@ && text_node(es[1].value, u.email)
    &&& es[2].key@ == "birthdate"@ && text_node(es[2].value, u.birthdate)
}

pub open spec fn public_tariff_entries(es: Seq<Entry>, t: PublicTariffView) -> bool {
    &&& es.len() == 4
    &&& es[0].key@ == "id"@ && es[0].value == Node::Int(t.id as i64)
    &&& es[1].key@ == "price"@ && es[1].value == Node::Int(t.price as i64)
    &&& es[2].key@ == "duration"@ && text_node(es[2].value, span_text(t.duration as u64))
    &&& es[3].key@ == "description"@ && text_node(es[3].value, t.description)
}

pub open spec fn private_tariff_entries(es: Seq<Entry>, t: PrivateTariffView) -> bool {
    &&& es.len() == 3
    &&& es[0].key@ == "client_price"@ && es[0].value == Node::Int(t.client_price as i64)
    &&& es[1].key@ == "duration"@ && text_node(es[1].value, span_text(t.duration as u64))
    &&& es[2].key@ == "description"@ && text_node(es[2].value, t.description)
}

pub open spec fn stream_entries(es: Seq<Entry>, s: StreamView) -> bool {
    &&& es.len() == 6
    &&& es[0].key@ == "user_id"@ && text_node(es[0].value, hyphenated(s.user_id))
    &&& es[1].key@ == "is_private"@ && es[1].value == Node::Bool(s.is_private)
    &&& es[2].key@ == "settings"@ && es[2].value == Node::Int(s.settings as i64)
    &&& es[3].key@ == "shard_url"@ && text_node(es[3].value, s.shard_url)
    &&& es[4].key@ == "public_tariff"@ && (es[4].value matches Node::Obj(v)
        && public_tariff_entries(v@, s.public_tariff))
    &&& es[5].key@ == "private_tariff"@ && (es[5].value matches Node::Obj(v)
        && private_tariff_entries(v@, s.private_tariff))
}

pub open spec fn debug_entries(es: Seq<Entry>, d: DebugView) -> bool {
    &&& es.len() == 2
    &&& es[0].key@ == "duration"@ && text_node(es[0].value, span_text(d.duration as u64))
    &&& es[1].key@ == "at"@ && (instant_text(d.at.0, d.at.1) matches Some(t) && text_node(
        es[1].value,
        t,
    ))
}

pub open spec fn gift_list(items: Seq<Node>, gs: Seq<GiftView>) -> bool {
    &&& items.len() == gs.len()
    &&& forall|i: int|
        0 <= i < items.len() ==> (#[trigger] items[i] matches Node::Obj(w) && gift_entries(
            w@,
            gs[i],
        ))
}

pub open spec fn request_entries(es: Seq<Entry>, r: RequestView) -> bool {
    &&& es.len() == 4
    &&& es[0].key@ == "type"@ && text_node(es[0].value, tag_text(r.request_type))
    &&& es[1].key@ == "stream"@ && (es[1].value matches Node::Obj(v) && stream_entries(
        v@,
        r.stream,
    ))
    &&& es[2].key@ == "gifts"@ && (es[2].value matches Node::List(v) && gift_list(v@, r.gifts))
    &&& es[3].key@ == "debug"@ && (es[3].value matches Node::Obj(v) && debug_entries(v@, r.debug))
}

pub open spec fn event_entries(es: Seq<Entry>, e: EventView) -> bool {
    &&& es.len() == 2
    &&& es[0].key@ == "name"@ && text_node(es[0].value, e.name)
    &&& es[1].key@ == "date"@ && text_node(es[1].value, date_wire(e.date))
}

fn entry(key: &str, value: Node) -> (r: Entry)
    ensures
        r.key@ == key@,
        r.value == value,
{
    Entry { key: String::from_str(key), value }
}

impl User {
    pub fn to_entries(&self) -> (r: Vec<Entry>)
        ensures
            user_entries(r@, self@),
    {
        let mut es: Vec<Entry> = Vec::new();
        es.push(entry("name", Node::Str(self.name.clone())));
        es.push(entry("email", Node::Str(self.email.clone())));
        es.push(entry("birthdate", Node::Str(self.birthdate.clone())));
        es
    }
}

impl Gift {
    pub fn to_entries(&self) -> (r: Vec<Entry>)
        ensures
            gift_entries(r@, self@),
    {
        let mut es: Vec<Entry> = Vec::new();
        es.push(entry("id", Node::Int(self.id as i64)));
        es.push(entry("price", Node::Int(self.price as i64)));
        es.push(entry("description", Node::Str(self.description.clone())));
        es
    }
}

impl PublicTariff {
    pub fn to_entries(&self) -> (r: Vec<Entry>)
        ensures
            public_tariff_entries(r@, self@),
    {
        let mut es: Vec<Entry> = Vec::new();
        es.push(entry("id", Node::Int(self.id as i64)));
        es.push(entry("price", Node::Int(self.price as i64)));
        es.push(entry("duration", Node::Str(format_duration(self.duration))));
        es.push(entry("description", Node::Str(self.description.clone())));
        es
    }
}

impl PrivateTariff {
    pub fn to_entries(&self) -> (r: Vec<Entry>)
        ensures
            private_tariff_entries(r@, self@),
    {
        let mut es: Vec<Entry> = Vec::new();
        es.push(entry("client_price", Node::Int(self.client_price as i64)));
        es.push(entry("duration", Node::Str(format_duration(self.duration))));
        es.push(entry("description", Node::Str(self.description.clone())));
        es
    }
}

impl Stream {
    pub fn to_entries(&self) -> (r: Vec<Entry>)
        ensures
            stream_entries(r@, self@),
    {
        let mut es: Vec<Entry> = Vec::new();
        es.push(entry("user_id", Node::Str(format_identifier(self.user_id))));
        es.push(entry("is_private", Node::Bool(self.is_private)));
        es.push(entry("settings", Node::Int(self.settings as i64)));
        es.push(entry("shard_url", Node::Str(format_url(&self.shard_url))));
        es.push(entry("public_tariff", Node::Obj(self.public_tariff.to_entries())));
        es.push(entry("private_tariff", Node::Obj(self.private_tariff.to_entries())));
        es
    }
}

impl Debug {
    pub fn to_entries(&self) -> (r: Vec<Entry>)
        requires
            self.at.wf(),
        ensures
            debug_entries(r@, self@),
    {
        let mut es: Vec<Entry> = Vec::new();
        es.push(entry("duration", Node::Str(format_duration(self.duration))));
        es.push(entry("at", Node::Str(format_timestamp(self.at))));
        es
    }
}

/// Encodes a list of gifts, in order.
pub fn encode_gifts(gifts: &Vec<Gift>) -> (r: Vec<Node>)
    ensures
        gift_list(r@, gifts_view(gifts@)),
{
    let mut out: Vec<Node> = Vec::new();
    let mut i: usize = 0;
    while i < gifts.len()
        invariant
            i <= gifts@.len(),
            out@.len() == i,
            forall|k: int|
                0 <= k < i ==> (#[trigger] out@[k] matches Node::Obj(w) && gift_entries(
                    w@,
                    gifts@[k]@,
                )),
        decreases gifts@.len() - i,
    {
        out.push(Node::Obj(gifts[i].to_entries()));
        i = i + 1;
    }
    out
}

impl Request {
    pub fn to_entries(&self) -> (r: Vec<Entry>)
        requires
            self.wf(),
        ensures
            request_entries(r@, self@),
    {
        let mut es: Vec<Entry> = Vec::new();
        proof {
            reveal_strlit("success");
            reveal_strlit("failure");
        }
        es.push(entry("type", Node::Str(String::from_str(self.request_type.tag()))));
        es.push(entry("stream", Node::Obj(self.stream.to_entries())));
        es.push(entry("gifts", Node::List(encode_gifts(&self.gifts))));
        es.push(entry("debug", Node::Obj(self.debug.to_entries())));
        es
    }
}

impl Event {
    pub fn to_entries(&self) -> (r: Vec<Entry>)
        ensures
            event_entries(r@, self@),
    {
        let mut es: Vec<Entry> = Vec::new();
        es.push(entry("name", Node::Str(self.name.clone())));
        es.push(entry("date", Node::Str(date_to_wire(self.date.as_str()))));
        es
    }
}

/// Encodes a request as a whole document.
pub fn encode_request(r: &Request) -> (n: Node)
    requires
        r.wf(),
    ensures
        n matches Node::Obj(v) && request_entries(v@, r@),
{
    Node::Obj(r.to_entries())
}

/// Encodes a request as a whole document where it is valid: its identifier,
/// URL and instant each read back as themselves.
pub fn encode_request_checked(r: &Request) -> (n: Option<Node>)
    ensures
        r.wf() <==> n is Some,
        n matches Some(d) ==> (d matches Node::Obj(v) && request_entries(v@, r@)),
{
    let _id = UniqueId::from_u128(r.stream.user_id.value);
    let _public = Span::from_nanos(r.stream.public_tariff.duration.nanos);
    let _private = Span::from_nanos(r.stream.private_tariff.duration.nanos);
    let _debug = Span::from_nanos(r.debug.duration.nanos);
    let url_ok = match parse_url(r.stream.shard_url.as_str()) {
        Some(u) => u.text == r.stream.shard_url.text,
        None => false,
    };
    let at_ok = UtcInstant::from_parts(r.debug.at.secs, r.debug.at.nanos).is_some();
    if url_ok && at_ok {
        Some(encode_request(r))
    } else {
        None
    }
}

/// Encodes an event as a whole document.
pub fn encode_event(e: &Event) -> (n: Node)
    ensures
        n matches Node::Obj(v) && event_entries(v@, e@),
{
    Node::Obj(e.to_entries())
}

} // verus!
