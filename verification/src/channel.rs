use vstd::prelude::*;

use std::sync::mpsc::SendError;
use std::sync::mpsc::Sender;

verus! {

/// std's channel sender.  The shared state holds one to signal shutdown to
/// the event dispatch loop; its value is opaque to the verifier.
#[verifier::external_type_specification]
#[verifier::external_body]
#[verifier::reject_recursive_types(T)]
pub struct ExSender<T>(Sender<T>);

/// std's error for a send on a channel whose receiver is gone.
#[verifier::external_type_specification]
#[verifier::external_body]
#[verifier::reject_recursive_types(T)]
pub struct ExSendError<T>(SendError<T>);

/// Relies on std's `Sender::send`: it delivers the value if the receiving
/// end still lives and fails otherwise.  The library sends only the
/// best-effort shutdown signal and ignores the outcome, so nothing is
/// assumed of the result.
pub assume_specification<T>[ Sender::<T>::send ](sender: &Sender<T>, t: T) -> Result<
    (),
    SendError<T>,
>;

} // verus!
