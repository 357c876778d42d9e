//! The vessel: an actor loop that owns the one cached key record, and the
//! cloneable handle through which every other thread reads or replaces it.

use vstd::prelude::*;
use std::sync::mpsc::Receiver;
use std::sync::mpsc::Sender;
use crate::channel::make_channel;
use crate::channel::recv_from;
use crate::channel::send_to;
use crate::key::Key;
use crate::key::KeyView;
use crate::model::ActionView;
use crate::model::lemma_run_model_push;
use crate::model::run_model;
use crate::model::step_key;

verus! {

/// A request to the actor loop. Set-key and get-key carry the private one-shot
/// reply channel of the caller that is blocked on them; stop carries nothing
/// and is never answered.
pub enum DataAction {
    Stop,
    KeyKeeperSetKey { key: Key, response: Sender<bool> },
    KeyKeeperGetKeyValue { response: Sender<Key> },
}

impl View for DataAction {
    type V = ActionView;

    open spec fn view(&self) -> ActionView {
        match self {
            DataAction::Stop => ActionView::Stop,
            DataAction::KeyKeeperSetKey { key, .. } => ActionView::SetKey { key: key@ },
            DataAction::KeyKeeperGetKeyValue { .. } => ActionView::GetKey,
        }
    }
}

/// What one processing step leaves for the loop to do: halt, or send the
/// answer back on the reply channel the request carried.
pub enum Effect {
    Halt,
    AckSet { response: Sender<bool>, ack: bool },
    SendKey { response: Sender<Key>, key: Key },
}

/// One step of the actor loop: dispatch one request against the cached record.
/// A stop halts the loop and leaves the record alone; a set-key replaces the
/// record wholly and is acknowledged with `true` on its own reply channel; a
/// get-key is answered with the record as it stood, on its own reply channel.
pub fn process(cached_key: &mut Key, action: DataAction) -> (e: Effect)
    ensures
        final(cached_key)@ == step_key(old(cached_key)@, action@),
        action matches DataAction::Stop ==> e is Halt,
        (action matches DataAction::KeyKeeperSetKey { key, response } ==> e == (Effect::AckSet {
            response,
            ack: true,
        })),
        (action matches DataAction::KeyKeeperGetKeyValue { response } ==> e matches Effect::SendKey
            { response: r, key: k } && r == response && k@ == old(cached_key)@),
{
    match action {
        DataAction::Stop => Effect::Halt,
        DataAction::KeyKeeperSetKey { key, response } => {
            *cached_key = key;
            Effect::AckSet { response, ack: true }
        },
        DataAction::KeyKeeperGetKeyValue { response } => {
            Effect::SendKey { response, key: cached_key.clone() }
        },
    }
}

/// The actor that owns the one cached key record, together with the ghost
/// history of the requests it has processed, in queue order. Its loop is one
/// `serve_one` call per request, repeated until `serve_one` says to end.
pub struct KeyCacheActor {
    cached_key: Key,
    processed: Ghost<Seq<ActionView>>,
}

impl KeyCacheActor {
    /// The requests this actor has processed so far, in queue order. A stop is
    /// never among them: it ends the loop instead of being processed.
    pub closed spec fn history(self) -> Seq<ActionView> {
        self.processed@
    }

    /// The record the actor holds right now.
    pub closed spec fn cached(self) -> KeyView {
        self.cached_key@
    }

    /// The actor's invariant: the history is stop-free, and the cached record
    /// is exactly the model run over that history from the empty record.
    pub closed spec fn wf(self) -> bool {
        &&& forall|i: int| 0 <= i < self.history().len() ==> !(self.history()[i] is Stop)
        &&& self.cached() == run_model(KeyView::empty(), self.history())
    }

    /// A freshly started actor: empty record, nothing processed yet.
    pub fn new() -> (actor: KeyCacheActor)
        ensures
            actor.wf(),
            actor.history() == Seq::<ActionView>::empty(),
            actor.cached() == KeyView::empty(),
    {
        KeyCacheActor { cached_key: Key::empty(), processed: Ghost(Seq::empty()) }
    }

    /// One turn of the actor loop: block for the next request in queue order,
    /// dispatch it against the cached record, and answer it on its own reply
    /// channel. Returns false when the loop must end: a stop arrived, or every
    /// handle was dropped; either way the record is left as it stood.
    pub fn serve_one(&mut self, receiver: &Receiver<DataAction>) -> (running: bool)
        requires
            old(self).wf(),
        ensures
            final(self).wf(),
            running ==> exists|a: ActionView|
                !(a is Stop) && final(self).history() == old(self).history().push(a)
                    && final(self).cached() == step_key(old(self).cached(), a),
            !running ==> final(self).history() == old(self).history() && final(self).cached()
                == old(self).cached(),
    {
        match recv_from(receiver) {
            None => false,
            Some(action) => {
                let ghost a = action@;
                let effect = process(&mut self.cached_key, action);
                match effect {
                    Effect::Halt => false,
                    Effect::AckSet { response, ack } => {
                        proof {
                            lemma_push_stop_free(self.processed@, a);
                            lemma_run_model_push(KeyView::empty(), self.processed@, a);
                        }
                        self.processed = Ghost(self.processed@.push(a));
                        send_to(&response, ack);
                        true
                    },
                    Effect::SendKey { response, key } => {
                        proof {
                            lemma_push_stop_free(self.processed@, a);
                            lemma_run_model_push(KeyView::empty(), self.processed@, a);
                        }
                        self.processed = Ghost(self.processed@.push(a));
                        send_to(&response, key);
                        true
                    },
                }
            },
        }
    }
}

/// A stop-free history stays stop-free when one more non-stop request is
/// appended.
proof fn lemma_push_stop_free(actions: Seq<ActionView>, a: ActionView)
    requires
        forall|i: int| 0 <= i < actions.len() ==> !(actions[i] is Stop),
        !(a is Stop),
    ensures
        forall|i: int| 0 <= i < actions.push(a).len() ==> !(actions.push(a)[i] is Stop),
{
    assert forall|i: int| 0 <= i < actions.push(a).len() implies !(actions.push(a)[i] is Stop) by {
        if i < actions.len() {
            assert(actions.push(a)[i] == actions[i]);
        } else {
            assert(actions.push(a)[i] == a);
        }
    }
}

/// The caller-side reading of a set-key round trip: the actor's answer when
/// one came, and the fail-open `false` when the reply channel closed without
/// one because the actor is no longer running.
pub fn ack_or_stopped(reply: Option<bool>) -> (r: bool)
    ensures
        reply matches Some(ack) ==> r == ack,
        reply is None ==> r == false,
{
    match reply {
        Some(ack) => ack,
        None => false,
    }
}

/// The caller-side reading of a get-key round trip: the record the actor sent
/// when one came, and the fail-open empty record when the reply channel closed
/// without one because the actor is no longer running.
pub fn key_or_empty(reply: Option<Key>) -> (r: Key)
    ensures
        reply matches Some(key) ==> r == key,
        reply is None ==> r@ == KeyView::empty(),
{
    match reply {
        Some(key) => key,
        None => Key::empty(),
    }
}

/// A cloneable handle to one actor loop. Any number of copies may live on any
/// threads; they all route to the same loop, which serializes their requests.
#[derive(Clone, Debug)]
pub struct DataVessel {
    sender: Sender<DataAction>,
}

impl DataVessel {
    /// Makes a handle from the sending end of an actor loop's inbound queue.
    pub fn new(sender: Sender<DataAction>) -> DataVessel {
        DataVessel { sender }
    }

    /// Asks the actor to stop once the requests already queued are answered.
    /// Fire-and-forget: it does not wait for the loop to exit, and sending to
    /// an already stopped actor is a silent no-op, so a second stop is safe.
    pub fn stop(&self) {
        send_to(&self.sender, DataAction::Stop);
    }

    /// Publishes `key` as the current record, wholly replacing the cached one,
    /// and blocks for the actor's acknowledgement. Returns the actor's `true`,
    /// or `false` without failing when the actor is no longer running.
    pub fn update_current_key(&self, key: Key) -> bool {
        let (response, receiver) = make_channel::<bool>();
        send_to(&self.sender, DataAction::KeyKeeperSetKey { key, response });
        ack_or_stopped(recv_from(&receiver))
    }

    /// One fresh round trip for the current record: the cached record as the
    /// actor holds it when this request is processed, or the empty record
    /// without failing when the actor is no longer running.
    fn get_current_key(&self) -> Key {
        let (response, receiver) = make_channel::<Key>();
        send_to(&self.sender, DataAction::KeyKeeperGetKeyValue { response });
        key_or_empty(recv_from(&receiver))
    }

    /// The raw key material of the current record, by a fresh round trip:
    /// the round-trip record's own value field, verbatim.
    pub fn get_current_key_value(&self) -> String {
        self.get_current_key().into_value()
    }

    /// The guid of the current record, by a fresh round trip: the round-trip
    /// record's own guid field, verbatim.
    pub fn get_current_key_guid(&self) -> String {
        self.get_current_key().into_guid()
    }

    /// The incarnation number of the current record, by a fresh round trip:
    /// the round-trip record's own incarnation field, verbatim.
    pub fn get_current_key_incarnation(&self) -> Option<u32> {
        self.get_current_key().into_incarnation()
    }
}

} // verus!
