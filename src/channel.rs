//! Outbound channels and peer identities, provided by tokio, tungstenite and uuid.
use vstd::prelude::*;

use tokio::sync::mpsc::{UnboundedReceiver, UnboundedSender};
use tokio_tungstenite::tungstenite::Message;

verus! {

#[verifier::external_type_specification]
#[verifier::external_body]
#[verifier::reject_recursive_types(T)]
pub struct ExUnboundedSender<T>(UnboundedSender<T>);

#[verifier::external_type_specification]
#[verifier::external_body]
#[verifier::reject_recursive_types(T)]
pub struct ExUnboundedReceiver<T>(UnboundedReceiver<T>);

#[verifier::external_type_specification]
#[verifier::external_body]
pub struct ExMessage(Message);

/// Relies on tokio's `mpsc::unbounded_channel`: a fresh, connected sender and
/// receiver pair with no bound on the queue.
#[verifier::external_body]
pub(crate) fn open_channel() -> (r: (UnboundedSender<Message>, UnboundedReceiver<Message>)) {
    tokio::sync::mpsc::unbounded_channel()
}

/// Relies on uuid's `Uuid::new_v4` and `Uuid::as_u128`: a random version-4
/// identifier, as a big-endian number. Its value is random; what every
/// outcome has is the version nibble 4 and the variant bits `10`.
#[verifier::external_body]
pub(crate) fn fresh_peer_id() -> (id: u128)
    ensures
        (id >> 76u128) & 0xfu128 == 4,
        (id >> 62u128) & 3u128 == 2,
{
    uuid::Uuid::new_v4().as_u128()
}

} // verus!
