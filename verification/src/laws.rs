//! Laws of the relay, stated and proved over the same spec functions that the
//! executable functions' contracts use: what a sequence of broadcasts
//! delivers to each registered subscriber, and how registering and removing a
//! subscriber relate.

use vstd::prelude::*;

use crate::registry::Action;
use crate::registry::Connection;
use crate::registry::distinct_ids;
use crate::registry::is_broadcast_of;
use crate::registry::is_send;

verus! {

/// True when no two entries of `s` share a socket handle token: distinct
/// subscribers hold distinct sockets.
pub open spec fn distinct_handles(s: Seq<Connection>) -> bool {
    forall|i: int, j: int| 0 <= i < j < s.len() ==> s[i].handle != s[j].handle
}

/// True when `a` is a send on the socket handle `h`, whatever its text.
pub open spec fn sends_to(a: Action, h: u64) -> bool {
    a matches Action::SendText { handle, .. } && handle == h
}

/// The text `a` carries when it is a send; the empty text otherwise.
pub open spec fn send_payload(a: Action) -> Seq<char> {
    match a {
        Action::SendText { text, .. } => text@,
        Action::CloseSocket { .. } => Seq::empty(),
    }
}

/// The texts that `acts` sends on the socket handle `h`, in order.
pub open spec fn sent_texts(acts: Seq<Action>, h: u64) -> Seq<Seq<char>>
    decreases acts.len(),
{
    if acts.len() == 0 {
        Seq::empty()
    } else if sends_to(acts.first(), h) {
        seq![send_payload(acts.first())].add(sent_texts(acts.drop_first(), h))
    } else {
        sent_texts(acts.drop_first(), h)
    }
}

/// The texts that a sequence of broadcast plans, performed in order, delivers
/// on the socket handle `h`.
pub open spec fn delivered(steps: Seq<Seq<Action>>, h: u64) -> Seq<Seq<char>>
    decreases steps.len(),
{
    if steps.len() == 0 {
        Seq::empty()
    } else {
        sent_texts(steps.first(), h).add(delivered(steps.drop_first(), h))
    }
}

proof fn lemma_broadcast_of_drop_first(acts: Seq<Action>, conns: Seq<Connection>, t: Seq<char>)
    requires
        is_broadcast_of(acts, conns, t),
        acts.len() > 0,
    ensures
        is_broadcast_of(acts.drop_first(), conns.drop_first(), t),
{
    assert forall|i: int| 0 <= i < acts.drop_first().len() implies is_send(
        acts.drop_first()[i],
        conns.drop_first()[i].handle,
        t,
    ) by {
        assert(acts.drop_first()[i] == acts[i + 1]);
        assert(conns.drop_first()[i] == conns[i + 1]);
        assert(is_send(acts[i + 1], conns[i + 1].handle, t));
    }
}

proof fn lemma_sent_texts_absent(acts: Seq<Action>, conns: Seq<Connection>, t: Seq<char>, h: u64)
    requires
        is_broadcast_of(acts, conns, t),
        forall|k: int| 0 <= k < conns.len() ==> conns[k].handle != h,
    ensures
        sent_texts(acts, h) == Seq::<Seq<char>>::empty(),
    decreases acts.len(),
{
    if acts.len() == 0 {
        assert(sent_texts(acts, h) =~= Seq::<Seq<char>>::empty());
    } else {
        assert(is_send(acts[0], conns[0].handle, t));
        assert(!sends_to(acts.first(), h));
        lemma_broadcast_of_drop_first(acts, conns, t);
        assert forall|k: int| 0 <= k < conns.drop_first().len() implies conns.drop_first()[k].handle
            != h by {
            assert(conns.drop_first()[k] == conns[k + 1]);
        }
        lemma_sent_texts_absent(acts.drop_first(), conns.drop_first(), t, h);
    }
}

proof fn lemma_sent_texts_unique(acts: Seq<Action>, conns: Seq<Connection>, t: Seq<char>, i: int)
    requires
        is_broadcast_of(acts, conns, t),
        0 <= i < conns.len(),
        forall|k: int| 0 <= k < conns.len() && k != i ==> conns[k].handle != conns[i].handle,
    ensures
        sent_texts(acts, conns[i].handle) == seq![t],
    decreases i,
{
    let h = conns[i].handle;
    assert(is_send(acts[0], conns[0].handle, t));
    lemma_broadcast_of_drop_first(acts, conns, t);
    if i == 0 {
        assert(sends_to(acts.first(), h));
        assert(send_payload(acts.first()) == t);
        assert forall|k: int| 0 <= k < conns.drop_first().len() implies conns.drop_first()[k].handle
            != h by {
            assert(conns.drop_first()[k] == conns[k + 1]);
        }
        lemma_sent_texts_absent(acts.drop_first(), conns.drop_first(), t, h);
        assert(sent_texts(acts, h) =~= seq![t]);
    } else {
        assert(conns[0].handle != h);
        assert(!sends_to(acts.first(), h));
        assert(conns.drop_first()[i - 1] == conns[i]);
        assert forall|k: int|
            0 <= k < conns.drop_first().len() && k != i - 1 implies (#[trigger] conns.drop_first()[k]).handle
            != conns.drop_first()[i - 1].handle by {
            assert(conns.drop_first()[k] == conns[k + 1]);
        }
        lemma_sent_texts_unique(acts.drop_first(), conns.drop_first(), t, i - 1);
        assert(sent_texts(acts, h) == sent_texts(acts.drop_first(), h));
    }
}

/// Law of ordered delivery: after any number of subscribes that built the
/// registry `conns`, a sequence of broadcasts of the messages `msgs` — one
/// broadcast plan per message, each over the full registry, as
/// `Registry::broadcast` ensures — delivers to every registered subscriber
/// exactly `msgs`: every message, in the publisher's order, none duplicated,
/// none reordered.
pub proof fn lemma_ordered_delivery(
    steps: Seq<Seq<Action>>,
    conns: Seq<Connection>,
    msgs: Seq<Seq<char>>,
    i: int,
)
    requires
        distinct_handles(conns),
        0 <= i < conns.len(),
        steps.len() == msgs.len(),
        forall|k: int| 0 <= k < steps.len() ==> is_broadcast_of(steps[k], conns, msgs[k]),
    ensures
        delivered(steps, conns[i].handle) == msgs,
    decreases steps.len(),
{
    let h = conns[i].handle;
    if steps.len() == 0 {
        assert(delivered(steps, h) =~= msgs);
    } else {
        assert(is_broadcast_of(steps[0], conns, msgs[0]));
        assert forall|k: int| 0 <= k < conns.len() && k != i implies conns[k].handle != h by {
            if k < i {
                assert(conns[k].handle != conns[i].handle);
            } else {
                assert(conns[i].handle != conns[k].handle);
            }
        }
        lemma_sent_texts_unique(steps[0], conns, msgs[0], i);
        assert(steps.first() == steps[0]);
        assert forall|k: int| 0 <= k < steps.drop_first().len() implies is_broadcast_of(
            steps.drop_first()[k],
            conns,
            msgs.drop_first()[k],
        ) by {
            assert(steps.drop_first()[k] == steps[k + 1]);
            assert(msgs.drop_first()[k] == msgs[k + 1]);
        }
        lemma_ordered_delivery(steps.drop_first(), conns, msgs.drop_first(), i);
        assert(delivered(steps, h) =~= msgs);
    }
}

/// Law of subscriber turnover: registering a fresh subscriber appends its
/// entry, that entry is the only one carrying its identifier, and removing
/// that identifier afterwards — as `Registry::remove` does — restores the
/// registry exactly, leaving every other subscriber's entry intact.
pub proof fn lemma_register_then_remove(s: Seq<Connection>, id: u128, h: u64)
    requires
        distinct_ids(s),
        forall|k: int| 0 <= k < s.len() ==> s[k].id != id,
    ensures
        forall|i: int|
            0 <= i < s.push((Connection { id, handle: h })).len() && s.push(
                (Connection { id, handle: h }),
            )[i].id == id ==> i == s.len(),
        s.push((Connection { id, handle: h })).remove(s.len() as int) == s,
{
    let t = s.push(Connection { id, handle: h });
    assert forall|i: int| 0 <= i < t.len() && t[i].id == id implies i == s.len() by {
        if i < s.len() {
            assert(t[i] == s[i]);
        }
    }
    assert(t.remove(s.len() as int) =~= s);
}

/// Law of the empty broadcast: with zero registered subscribers the
/// broadcast plan is empty — nothing is sent and nothing fails.
pub proof fn lemma_broadcast_empty(acts: Seq<Action>, conns: Seq<Connection>, t: Seq<char>)
    requires
        is_broadcast_of(acts, conns, t),
        conns.len() == 0,
    ensures
        acts.len() == 0,
{
}

} // verus!
