//! A single-owner, message-passing cache for one cryptographic key record.
//!
//! One actor loop owns the record; any number of handles send it requests
//! over a queue and block on a private reply channel. All reads and writes
//! are serialized by the loop, so no lock is ever taken.

mod channel;
mod key;
mod model;
mod vessel;

pub use key::Key;
pub use key::KeyView;
pub use model::ActionView;
pub use model::ReplyView;
pub use model::step_key;
pub use model::run_model;
pub use model::replies;
pub use model::lemma_replies_len;
pub use model::lemma_run_model_push;
pub use model::lemma_reply_at;
pub use model::lemma_last_write_wins;
pub use model::lemma_get_returns_current;
pub use model::lemma_stop_is_final;
pub use model::lemma_cached_from_some_set;
pub use model::lemma_get_from_some_set;
pub use vessel::DataAction;
pub use vessel::DataVessel;
pub use vessel::Effect;
pub use vessel::KeyCacheActor;
pub use vessel::process;
pub use vessel::ack_or_stopped;
pub use vessel::key_or_empty;
