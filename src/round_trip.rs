use vstd::prelude::*;
use crate::date::{lemma_date_round_trip, no_marker};
use crate::duration::{span_of_text, span_text, span_text_bounded};
use crate::schema::{
    debug_entries, debug_of, gift_entries, gift_list, gift_of, gifts_of, gifts_prefix,
    index_path, private_tariff_entries, private_tariff_of, public_tariff_entries,
    public_tariff_of, request_entries, request_of_document, stream_entries,
    stream_of, tag_of, tag_text, tag_type, DebugView, GiftView, PrivateTariffView,
    PublicTariffView, Request, RequestType, RequestView, StreamView, user_entries, user_of,
    UserView, Event, EventView, event_entries, event_of_document,
};
use crate::tree::{child, lookup, Entry, ErrorView, Node};
use crate::values::{hyphenated, instant_ok, url_of_text, uuid_of_text};

verus! {

/// The entry at `i` is the first with its key.
proof fn lemma_lookup(es: Seq<Entry>, i: int, key: Seq<char>)
    requires
        0 <= i < es.len(),
        es[i].key@ == key,
        forall|j: int| 0 <= j < i ==> (#[trigger] es[j]).key@ != key,
    ensures
        lookup(es, key) == Some(es[i].value),
    decreases i,
{
    if i > 0 {
        assert(es[0].key@ != key);
        let t = es.drop_first();
        assert forall|j: int| 0 <= j < i - 1 implies (#[trigger] t[j]).key@ != key by {
            assert(t[j] == es[j + 1]);
        }
        lemma_lookup(t, i - 1, key);
    }
}

/// Tags read back as the request type they were written for.
pub proof fn lemma_tag_round_trip(t: RequestType)
    ensures
        tag_type(tag_text(t)) == Some(t),
{
    reveal_strlit("success");
    reveal_strlit("failure");
    assert("success"@[0] != "failure"@[0]);
}

/// Decoding the entries that a gift encodes to gives that gift back.
pub proof fn lemma_gift(es: Seq<Entry>, g: GiftView, p: Seq<char>)
    requires
        gift_entries(es, g),
    ensures
        gift_of(es, p) == Ok::<GiftView, ErrorView>(g),
{
    reveal_strlit("id");
    reveal_strlit("price");
    reveal_strlit("description");
    lemma_lookup(es, 0, "id"@);
    lemma_lookup(es, 1, "price"@);
    lemma_lookup(es, 2, "description"@);
}

/// Decoding the entries that a user encodes to gives that user back.
pub proof fn lemma_user(es: Seq<Entry>, u: UserView, p: Seq<char>)
    requires
        user_entries(es, u),
    ensures
        user_of(es, p) == Ok::<UserView, ErrorView>(u),
{
    reveal_strlit("name");
    reveal_strlit("email");
    reveal_strlit("birthdate");
    lemma_lookup(es, 0, "name"@);
    lemma_lookup(es, 1, "email"@);
    lemma_lookup(es, 2, "birthdate"@);
}

proof fn lemma_public_tariff(es: Seq<Entry>, t: PublicTariffView, p: Seq<char>)
    requires
        public_tariff_entries(es, t),
        t.duration <= u64::MAX,
        span_of_text(span_text(t.duration as u64)) == Some(t.duration as u128),
        span_text_bounded(span_text(t.duration as u64)),
    ensures
        public_tariff_of(es, p) == Ok::<PublicTariffView, ErrorView>(t),
{
    reveal_strlit("id");
    reveal_strlit("price");
    reveal_strlit("duration");
    reveal_strlit("description");
    lemma_lookup(es, 0, "id"@);
    lemma_lookup(es, 1, "price"@);
    lemma_lookup(es, 2, "duration"@);
    lemma_lookup(es, 3, "description"@);
}

proof fn lemma_private_tariff(es: Seq<Entry>, t: PrivateTariffView, p: Seq<char>)
    requires
        private_tariff_entries(es, t),
        t.duration <= u64::MAX,
        span_of_text(span_text(t.duration as u64)) == Some(t.duration as u128),
        span_text_bounded(span_text(t.duration as u64)),
    ensures
        private_tariff_of(es, p) == Ok::<PrivateTariffView, ErrorView>(t),
{
    reveal_strlit("client_price");
    reveal_strlit("duration");
    reveal_strlit("description");
    lemma_lookup(es, 0, "client_price"@);
    lemma_lookup(es, 1, "duration"@);
    lemma_lookup(es, 2, "description"@);
}

pub open spec fn stream_view_wf(s: StreamView) -> bool {
    &&& uuid_of_text(hyphenated(s.user_id)) == Some(s.user_id)
    &&& url_of_text(s.shard_url) == Some(s.shard_url)
    &&& s.public_tariff.duration <= u64::MAX
    &&& s.private_tariff.duration <= u64::MAX
    &&& span_of_text(span_text(s.public_tariff.duration as u64)) == Some(
        s.public_tariff.duration as u128,
    )
    &&& span_of_text(span_text(s.private_tariff.duration as u64)) == Some(
        s.private_tariff.duration as u128,
    )
    &&& span_text_bounded(span_text(s.public_tariff.duration as u64))
    &&& span_text_bounded(span_text(s.private_tariff.duration as u64))
}

proof fn lemma_stream(es: Seq<Entry>, s: StreamView, p: Seq<char>)
    requires
        stream_entries(es, s),
        stream_view_wf(s),
    ensures
        stream_of(es, p) == Ok::<StreamView, ErrorView>(s),
{
    reveal_strlit("user_id");
    reveal_strlit("is_private");
    reveal_strlit("settings");
    reveal_strlit("shard_url");
    reveal_strlit("public_tariff");
    reveal_strlit("private_tariff");
    lemma_lookup(es, 0, "user_id"@);
    lemma_lookup(es, 1, "is_private"@);
    lemma_lookup(es, 2, "settings"@);
    lemma_lookup(es, 3, "shard_url"@);
    lemma_lookup(es, 4, "public_tariff"@);
    lemma_lookup(es, 5, "private_tariff"@);
    if let Node::Obj(v) = es[4].value {
        lemma_public_tariff(v@, s.public_tariff, child(p, "public_tariff"@));
    }
    if let Node::Obj(v) = es[5].value {
        lemma_private_tariff(v@, s.private_tariff, child(p, "private_tariff"@));
    }
}

proof fn lemma_debug(es: Seq<Entry>, d: DebugView, p: Seq<char>)
    requires
        debug_entries(es, d),
        d.duration <= u64::MAX,
        span_of_text(span_text(d.duration as u64)) == Some(d.duration as u128),
        span_text_bounded(span_text(d.duration as u64)),
        instant_ok(d.at.0, d.at.1),
    ensures
        debug_of(es, p) == Ok::<DebugView, ErrorView>(d),
{
    reveal_strlit("duration");
    reveal_strlit("at");
    lemma_lookup(es, 0, "duration"@);
    lemma_lookup(es, 1, "at"@);
}

proof fn lemma_gifts(items: Seq<Node>, gs: Seq<GiftView>, p: Seq<char>, n: nat)
    requires
        gift_list(items, gs),
        n <= items.len(),
    ensures
        gifts_prefix(items, p, n) == Ok::<Seq<GiftView>, ErrorView>(gs.take(n as int)),
    decreases n,
{
    if n == 0 {
        assert(gs.take(0) =~= Seq::<GiftView>::empty());
    } else {
        lemma_gifts(items, gs, p, (n - 1) as nat);
        let i = n - 1;
        assert(items[i] matches Node::Obj(w) && gift_entries(w@, gs[i]));
        if let Node::Obj(w) = items[i] {
            lemma_gift(w@, gs[i], index_path(p, i as nat));
        }
        assert(gs.take(i).push(gs[i]) =~= gs.take(n as int));
    }
}

/// Decoding the tree that a request encodes to gives that request back:
/// every field, with the gifts in the same order.
pub proof fn lemma_request_round_trip(r: Request, doc: Node)
    requires
        r.wf(),
        doc matches Node::Obj(v) && request_entries(v@, r@),
    ensures
        request_of_document(doc) == Ok::<RequestView, ErrorView>(r@),
{
    let rv = r@;
    let p = Seq::<char>::empty();
    if let Node::Obj(v) = doc {
        let es = v@;
        reveal_strlit("type");
        reveal_strlit("stream");
        reveal_strlit("gifts");
        reveal_strlit("debug");
        assert("gifts"@[0] != "debug"@[0]);
        lemma_lookup(es, 0, "type"@);
        lemma_lookup(es, 1, "stream"@);
        lemma_lookup(es, 2, "gifts"@);
        lemma_lookup(es, 3, "debug"@);
        lemma_tag_round_trip(rv.request_type);
        if let Node::Obj(w) = es[1].value {
            lemma_stream(w@, rv.stream, child(p, "stream"@));
        }
        if let Node::List(w) = es[2].value {
            lemma_gifts(w@, rv.gifts, child(p, "gifts"@), w@.len());
            assert(rv.gifts.take(w@.len() as int) =~= rv.gifts);
        }
        if let Node::Obj(w) = es[3].value {
            lemma_debug(w@, rv.debug, child(p, "debug"@));
        }
        assert(tag_of(es, p) == Ok::<RequestType, ErrorView>(rv.request_type));
        assert(gifts_of(es, p) == Ok::<Seq<GiftView>, ErrorView>(rv.gifts));
    }
}

/// Decoding the tree that an event encodes to gives that event back, where
/// its date holds no marker.
pub proof fn lemma_event_round_trip(e: Event, doc: Node)
    requires
        no_marker(e.date@),
        doc matches Node::Obj(v) && event_entries(v@, e@),
    ensures
        event_of_document(doc) == Ok::<EventView, ErrorView>(e@),
{
    if let Node::Obj(v) = doc {
        reveal_strlit("name");
        reveal_strlit("date");
        assert("name"@[0] != "date"@[0]);
        lemma_lookup(v@, 0, "name"@);
        lemma_lookup(v@, 1, "date"@);
        lemma_date_round_trip(e.date@);
    }
}

} // verus!
