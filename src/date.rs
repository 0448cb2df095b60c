use vstd::prelude::*;
use vstd::string::StrSliceExecFns;
use vstd::string::StringExecFns;
use crate::text::push_char;

verus! {

/// The marker that wraps a date on the wire.
pub open spec fn marker() -> Seq<char> {
    seq!['D', 'a', 't', 'e', ':']
}

/// `s` with the markers taken out, left to right: a marker followed by a
/// space goes with that space, a bare marker alone.
pub open spec fn remove_marker(s: Seq<char>) -> Seq<char>
    decreases s.len(),
{
    if s.len() == 0 {
        Seq::empty()
    } else if s.len() >= 6 && s.take(6) == marker().push(' ') {
        remove_marker(s.skip(6))
    } else if s.len() >= 5 && s.take(5) == marker() {
        remove_marker(s.skip(5))
    } else {
        seq![s[0]] + remove_marker(s.skip(1))
    }
}

/// No marker occurs anywhere in `s`.
pub open spec fn no_marker(s: Seq<char>) -> bool {
    forall|i: int| 0 <= i && i + 5 <= s.len() ==> #[trigger] s.subrange(i, i + 5) != marker()
}

/// A text without a marker comes back unchanged.
pub proof fn lemma_remove_nothing(s: Seq<char>)
    requires
        no_marker(s),
    ensures
        remove_marker(s) == s,
    decreases s.len(),
{
    if s.len() > 0 {
        let t = s.skip(1);
        if s.len() >= 5 {
            assert(s.take(5) =~= s.subrange(0, 5));
            assert(s.subrange(0int, 0int + 5) != marker());
        }
        if s.len() >= 6 {
            assert(s.take(6).take(5) =~= s.subrange(0, 5));
            if s.take(6) == marker().push(' ') {
                assert(s.take(6).take(5) =~= marker());
            }
        }
        assert forall|i: int| 0 <= i && i + 5 <= t.len() implies #[trigger] t.subrange(i, i + 5)
            != marker() by {
            assert(t.subrange(i, i + 5) =~= s.subrange(i + 1, i + 6));
            assert(s.subrange(i + 1, (i + 1) + 5) != marker());
        }
        lemma_remove_nothing(t);
        assert(seq![s[0]] + t =~= s);
    }
}

/// Decoding the wire form of a date without a marker gives the date back.
pub proof fn lemma_date_round_trip(d: Seq<char>)
    requires
        no_marker(d),
    ensures
        remove_marker(date_wire(d)) == d,
{
    let w = date_wire(d);
    assert(w.take(6) =~= marker().push(' '));
    assert(w.skip(6) =~= d);
    lemma_remove_nothing(d);
}

/// The wire form of a date: the marker, a space, then the date.
pub open spec fn date_wire(date: Seq<char>) -> Seq<char> {
    marker().push(' ') + date
}

/// How many characters a marker at position `i` takes out: six with a
/// following space, five without, none where there is no marker.
fn marker_len(s: &str, i: usize, n: usize) -> (r: usize)
    requires
        n == s@.len(),
        i <= n,
    ensures
        ({
            let t = s@.skip(i as int);
            if t.len() >= 6 && t.take(6) == marker().push(' ') {
                r == 6
            } else if t.len() >= 5 && t.take(5) == marker() {
                r == 5
            } else {
                r == 0
            }
        }),
{
    let ghost t = s@.skip(i as int);
    assert(t.len() == n - i);
    if n - i < 5 {
        return 0;
    }
    let found = s.get_char(i) == 'D' && s.get_char(i + 1) == 'a' && s.get_char(i + 2) == 't'
        && s.get_char(i + 3) == 'e' && s.get_char(i + 4) == ':';
    proof {
        if found {
            assert(t.take(5) =~= marker());
        } else {
            if t.len() >= 6 && t.take(6) == marker().push(' ') {
                assert(t.take(6).take(5) =~= t.take(5));
                assert(t.take(5) =~= marker());
            }
            if t.take(5) == marker() {
                assert(t.take(5)[0] == s@[i as int]);
                assert(t.take(5)[1] == s@[i + 1]);
                assert(t.take(5)[2] == s@[i + 2]);
                assert(t.take(5)[3] == s@[i + 3]);
                assert(t.take(5)[4] == s@[i + 4]);
            }
        }
    }
    if !found {
        return 0;
    }
    if n - i >= 6 && s.get_char(i + 5) == ' ' {
        proof {
            assert(t.take(6) =~= marker().push(' '));
        }
        6
    } else {
        proof {
            if t.len() >= 6 && t.take(6) == marker().push(' ') {
                assert(t.take(6)[5] == s@[i + 5]);
            }
        }
        5
    }
}

/// Encodes a date field: the date behind the marker and a space
/// (`2020-01-01` becomes `Date: 2020-01-01`).
pub fn date_to_wire(date: &str) -> (r: String)
    ensures
        r@ == date_wire(date@),
{
    let mut out = String::from_str("Date: ");
    out.append(date);
    proof {
        reveal_strlit("Date: ");
        assert(out@ =~= date_wire(date@));
    }
    out
}

/// Decodes a date field: every marker is removed, with the space that
/// follows it; a value without a marker comes back unchanged
/// (`Date: 2020-01-01` becomes `2020-01-01`).
pub fn date_from_wire(wire: &str) -> (r: String)
    ensures
        r@ == remove_marker(wire@),
{
    let n = wire.unicode_len();
    let mut out = String::new();
    let mut i: usize = 0;
    proof {
        assert(wire@.skip(0) =~= wire@);
    }
    while i < n
        invariant
            n == wire@.len(),
            i <= n,
            out@ + remove_marker(wire@.skip(i as int)) == remove_marker(wire@),
        decreases n - i,
    {
        let ghost t = wire@.skip(i as int);
        let k = marker_len(wire, i, n);
        if k != 0 {
            proof {
                assert(t.skip(k as int) =~= wire@.skip(i + k));
            }
            i = i + k;
        } else {
            let c = wire.get_char(i);
            let ghost before = out@;
            push_char(&mut out, c);
            proof {
                assert(t.skip(1) =~= wire@.skip(i + 1));
                assert(t[0] == c);
                let rest = remove_marker(t.skip(1));
                assert(remove_marker(t) == seq![c] + rest);
                assert(before.push(c) + rest =~= before + (seq![c] + rest));
            }
            i = i + 1;
        }
    }
    proof {
        assert(wire@.skip(n as int) =~= Seq::<char>::empty());
        assert(out@ + Seq::<char>::empty() =~= out@);
    }
    out
}

} // verus!
