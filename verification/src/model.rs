//! The sequential model of the vessel: what the actor loop does to its cached
//! record, and what it answers, for a sequence of requests in queue order.

use vstd::prelude::*;
use crate::key::KeyView;

verus! {

/// A request as the contracts see it: the reply channels erased.
pub enum ActionView {
    Stop,
    SetKey { key: KeyView },
    GetKey,
}

/// One answer the actor sends back on a request's private reply channel.
pub enum ReplyView {
    Ack { ack: bool },
    CurrentKey { key: KeyView },
}

/// The cached record after one request is processed: a set-key replaces it
/// wholly, everything else leaves it alone.
pub open spec fn step_key(cached: KeyView, action: ActionView) -> KeyView {
    match action {
        ActionView::SetKey { key } => key,
        _ => cached,
    }
}

/// The cached record after the actor works through `actions` in queue order,
/// starting from `cached`. The first stop ends processing: requests behind it
/// never touch the record.
pub open spec fn run_model(cached: KeyView, actions: Seq<ActionView>) -> KeyView
    decreases actions.len(),
{
    if actions.len() == 0 {
        cached
    } else if actions[0] is Stop {
        cached
    } else {
        run_model(step_key(cached, actions[0]), actions.skip(1))
    }
}

/// The answers the actor sends for `actions` in queue order: one per request
/// up to the first stop, and none at all from the stop onwards.
pub open spec fn replies(cached: KeyView, actions: Seq<ActionView>) -> Seq<ReplyView>
    decreases actions.len(),
{
    if actions.len() == 0 {
        Seq::empty()
    } else {
        match actions[0] {
            ActionView::Stop => Seq::empty(),
            ActionView::SetKey { key } => seq![ReplyView::Ack { ack: true }] + replies(
                key,
                actions.skip(1),
            ),
            ActionView::GetKey => seq![ReplyView::CurrentKey { key: cached }] + replies(
                cached,
                actions.skip(1),
            ),
        }
    }
}

/// While no stop is queued, every request is answered: exactly one reply per
/// request.
pub proof fn lemma_replies_len(cached: KeyView, actions: Seq<ActionView>)
    requires
        forall|i: int| 0 <= i < actions.len() ==> !(actions[i] is Stop),
    ensures
        replies(cached, actions).len() == actions.len(),
    decreases actions.len(),
{
    if actions.len() > 0 {
        lemma_replies_len(step_key(cached, actions[0]), actions.skip(1));
    }
}

/// Processing one more (non-stop) request steps the modelled record exactly
/// once: the model folds left over the queue.
pub proof fn lemma_run_model_push(cached: KeyView, actions: Seq<ActionView>, a: ActionView)
    requires
        forall|i: int| 0 <= i < actions.len() ==> !(actions[i] is Stop),
        !(a is Stop),
    ensures
        run_model(cached, actions.push(a)) == step_key(run_model(cached, actions), a),
    decreases actions.len(),
{
    if actions.len() == 0 {
        assert(actions.push(a)[0] == a);
        assert(actions.push(a).skip(1) =~= Seq::<ActionView>::empty());
        assert(run_model(cached, actions.push(a)) == run_model(
            step_key(cached, a),
            Seq::<ActionView>::empty(),
        ));
        assert(run_model(step_key(cached, a), Seq::<ActionView>::empty()) == step_key(cached, a));
    } else {
        assert(actions.push(a)[0] == actions[0]);
        assert(actions.push(a).skip(1) =~= actions.skip(1).push(a));
        assert(run_model(cached, actions.push(a)) == run_model(
            step_key(cached, actions[0]),
            actions.skip(1).push(a),
        ));
        lemma_run_model_push(step_key(cached, actions[0]), actions.skip(1), a);
        assert(run_model(cached, actions) == run_model(
            step_key(cached, actions[0]),
            actions.skip(1),
        ));
    }
}

/// While no stop is queued, request `i` is answered at position `i`: a set-key
/// is acknowledged with `true`, and a get-key is answered with exactly the
/// record that the requests before it produced.
pub proof fn lemma_reply_at(cached: KeyView, actions: Seq<ActionView>, i: int)
    requires
        forall|j: int| 0 <= j < actions.len() ==> !(actions[j] is Stop),
        0 <= i < actions.len(),
    ensures
        replies(cached, actions).len() == actions.len(),
        actions[i] is SetKey ==> replies(cached, actions)[i] == (ReplyView::Ack { ack: true }),
        actions[i] is GetKey ==> replies(cached, actions)[i] == (ReplyView::CurrentKey {
            key: run_model(cached, actions.take(i)),
        }),
    decreases i,
{
    lemma_replies_len(cached, actions);
    let c1 = step_key(cached, actions[0]);
    let rest = actions.skip(1);
    lemma_replies_len(c1, rest);
    if i == 0 {
        if actions[0] is GetKey {
            assert(actions.take(0) =~= Seq::<ActionView>::empty());
            assert(run_model(cached, Seq::<ActionView>::empty()) == cached);
            assert(replies(cached, actions)[0] == (ReplyView::CurrentKey { key: cached }));
        }
    } else {
        lemma_reply_at(c1, rest, i - 1);
        assert(replies(cached, actions)[i] == replies(c1, rest)[i - 1]);
        assert(actions[i] == rest[i - 1]);
        if actions[i] is GetKey {
            assert(actions.take(i)[0] == actions[0]);
            assert(actions.take(i).skip(1) =~= rest.take(i - 1));
            assert(run_model(cached, actions.take(i)) == run_model(c1, rest.take(i - 1)));
        }
    }
}

/// Last write wins: after a run of set-key requests, all acknowledged in
/// queue order, the cached record is the key of the last one, whatever was
/// cached before, and a get-key queued next is answered with exactly it.
pub proof fn lemma_last_write_wins(cached: KeyView, sets: Seq<ActionView>)
    requires
        sets.len() > 0,
        forall|i: int| 0 <= i < sets.len() ==> sets[i] is SetKey,
    ensures
        run_model(cached, sets) == sets.last()->key,
        replies(cached, sets.push(ActionView::GetKey)).last() == (ReplyView::CurrentKey {
            key: sets.last()->key,
        }),
    decreases sets.len(),
{
    assert(run_model(cached, sets) == run_model(step_key(cached, sets[0]), sets.skip(1)));
    if sets.len() == 1 {
        assert(sets.skip(1) =~= Seq::<ActionView>::empty());
        assert(sets.last() == sets[0]);
    } else {
        lemma_last_write_wins(step_key(cached, sets[0]), sets.skip(1));
        assert(sets.skip(1).last() == sets.last());
    }
    lemma_get_returns_current(cached, sets);
}

/// A get-key queued behind any stop-free run of requests is answered with
/// exactly the record that run produced.
pub proof fn lemma_get_returns_current(cached: KeyView, actions: Seq<ActionView>)
    requires
        forall|i: int| 0 <= i < actions.len() ==> !(actions[i] is Stop),
    ensures
        replies(cached, actions.push(ActionView::GetKey)).len() == actions.len() + 1,
        replies(cached, actions.push(ActionView::GetKey)).last() == (ReplyView::CurrentKey {
            key: run_model(cached, actions),
        }),
{
    let all = actions.push(ActionView::GetKey);
    assert forall|j: int| 0 <= j < all.len() implies !(all[j] is Stop) by {
        if j < actions.len() {
            assert(all[j] == actions[j]);
        } else {
            assert(all[j] == ActionView::GetKey);
        }
    }
    lemma_reply_at(cached, all, actions.len() as int);
    assert(all[actions.len() as int] == ActionView::GetKey);
    assert(all.take(actions.len() as int) =~= actions);
}

/// A stop ends the actor for good: the requests behind the first stop, further
/// stops included, are never answered and change none of the answers given
/// before it.
pub proof fn lemma_stop_is_final(cached: KeyView, before: Seq<ActionView>, after: Seq<ActionView>)
    ensures
        replies(cached, before.push(ActionView::Stop) + after) == replies(cached, before),
    decreases before.len(),
{
    let all = before.push(ActionView::Stop) + after;
    if before.len() == 0 {
        assert(all[0] == ActionView::Stop);
        assert(replies(cached, all) =~= replies(cached, before));
    } else {
        assert(all[0] == before[0]);
        if !(before[0] is Stop) {
            assert(all.skip(1) =~= before.skip(1).push(ActionView::Stop) + after);
            lemma_stop_is_final(step_key(cached, before[0]), before.skip(1), after);
        }
    }
}

/// The actor never invents a record: after any run of requests the cached
/// record is still the starting one, or the key of some set-key in the queue.
pub proof fn lemma_cached_from_some_set(cached: KeyView, actions: Seq<ActionView>)
    ensures
        run_model(cached, actions) == cached || exists|j: int|
            0 <= j < actions.len() && actions[j] is SetKey && actions[j]->key == run_model(
                cached,
                actions,
            ),
    decreases actions.len(),
{
    if actions.len() == 0 || actions[0] is Stop {
    } else {
        let v = run_model(cached, actions);
        let rest = actions.skip(1);
        lemma_cached_from_some_set(step_key(cached, actions[0]), rest);
        if actions[0] is SetKey && v == actions[0]->key {
            assert(actions[0] is SetKey && actions[0]->key == v);
        } else if v != cached {
            let j1 = choose|j1: int|
                0 <= j1 < rest.len() && rest[j1] is SetKey && rest[j1]->key == v;
            assert(actions[j1 + 1] == rest[j1]);
            assert(actions[j1 + 1] is SetKey && actions[j1 + 1]->key == v);
        }
    }
}

/// No answer is ever a torn or invented record: every answered get-key returns
/// either the starting record or the key of some set-key in the queue.
pub proof fn lemma_get_from_some_set(cached: KeyView, actions: Seq<ActionView>, i: int)
    requires
        0 <= i < replies(cached, actions).len(),
        replies(cached, actions)[i] is CurrentKey,
    ensures
        replies(cached, actions)[i]->key == cached || exists|j: int|
            0 <= j < actions.len() && actions[j] is SetKey && actions[j]->key == replies(
                cached,
                actions,
            )[i]->key,
    decreases actions.len(),
{
    let v = replies(cached, actions)[i]->key;
    let rest = actions.skip(1);
    if actions[0] is SetKey {
        let k = actions[0]->key;
        assert(replies(cached, actions)[i] == replies(k, rest)[i - 1]);
        lemma_get_from_some_set(k, rest, i - 1);
        if v == k {
            assert(actions[0] is SetKey && actions[0]->key == v);
        } else {
            let j1 = choose|j1: int|
                0 <= j1 < rest.len() && rest[j1] is SetKey && rest[j1]->key == v;
            assert(actions[j1 + 1] == rest[j1]);
            assert(actions[j1 + 1] is SetKey && actions[j1 + 1]->key == v);
        }
    } else {
        assert(actions[0] is GetKey);
        if i == 0 {
            assert(replies(cached, actions)[0] == (ReplyView::CurrentKey { key: cached }));
        } else {
            assert(replies(cached, actions)[i] == replies(cached, rest)[i - 1]);
            lemma_get_from_some_set(cached, rest, i - 1);
            if v != cached {
                let j1 = choose|j1: int|
                    0 <= j1 < rest.len() && rest[j1] is SetKey && rest[j1]->key == v;
                assert(actions[j1 + 1] == rest[j1]);
                assert(actions[j1 + 1] is SetKey && actions[j1 + 1]->key == v);
            }
        }
    }
}

} // verus!
