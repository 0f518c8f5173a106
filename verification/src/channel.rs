use vstd::prelude::*;
use tokio::sync::mpsc::UnboundedSender;
use crate::action::Action;

verus! {

/// The sending half of the unbounded action channel. Every component holds
/// one so background work can enqueue actions for the shell's loop to drain.
#[verifier::external_type_specification]
#[verifier::external_body]
#[verifier::reject_recursive_types(T)]
pub struct ExUnboundedSender<T>(UnboundedSender<T>);

/// Relies on tokio's `UnboundedSender::clone`: it yields another sending
/// handle into the same channel.
#[verifier::external_body]
pub(crate) fn clone_sender(tx: &UnboundedSender<Action>) -> (r: UnboundedSender<Action>) {
    tx.clone()
}

/// Relies on tokio's `UnboundedSender::is_closed`: it reports whether the
/// receiving half has been closed or dropped. The answer depends on the
/// channel's runtime state, so nothing more is promised of it.
#[verifier::external_body]
pub(crate) fn sender_is_closed(tx: &UnboundedSender<Action>) -> (r: bool) {
    tx.is_closed()
}

} // verus!
