//! The bounded queue that carries buffer tokens from one stage to the other.
//!
//! The queue is an `embassy_sync` channel. Verus does not look inside it:
//! what the channel holds has a name, [`queue_tokens`], and each operation
//! states over that name what the channel's source shows. Nothing here is
//! proved; the pipeline's proofs rest on these statements.

use vstd::prelude::*;
use embassy_sync::blocking_mutex::raw::CriticalSectionRawMutex;
use embassy_sync::channel::{Channel, TrySendError};
use crate::config::QUEUE_CAPACITY;

verus! {

/// A first-in, first-out queue of buffer tokens with room for
/// [`QUEUE_CAPACITY`] of them.
///
/// The channel's type is bounded by a trait of its own crate, which Verus
/// does not know; so the channel rests in a field that Verus does not read.
/// The channel is shared by reference in its own crate; here every
/// operation that changes it takes the queue by `&mut`, so what it holds
/// changes only where the contracts say so.
#[verifier::external_body]
pub struct TokenQueue {
    channel: Channel<CriticalSectionRawMutex, usize, QUEUE_CAPACITY>,
}

/// The tokens that wait in the queue, the oldest first.
pub uninterp spec fn queue_tokens(q: TokenQueue) -> Seq<usize>;

/// `Channel::new`: a channel that holds no message.
#[verifier::external_body]
pub(crate) fn queue_new() -> (q: TokenQueue)
    ensures
        queue_tokens(q) == Seq::<usize>::empty(),
{
    TokenQueue { channel: Channel::new() }
}

/// `Channel::try_send`: while fewer messages wait than the channel has room
/// for, the message is put behind them; a full channel stays as it is and
/// the message comes back.
#[verifier::external_body]
pub(crate) fn queue_try_send(q: &mut TokenQueue, token: usize) -> (r: Result<(), usize>)
    ensures
        r is Ok <==> queue_tokens(*old(q)).len() < QUEUE_CAPACITY,
        r is Ok ==> queue_tokens(*final(q)) == queue_tokens(*old(q)).push(token),
        r is Err ==> r->Err_0 == token && queue_tokens(*final(q)) == queue_tokens(*old(q)),
{
    match q.channel.try_send(token) {
        Ok(()) => Ok(()),
        Err(TrySendError::Full(back)) => Err(back),
    }
}

/// `Channel::try_receive`: the message that has waited longest leaves the
/// channel and is returned; an empty channel stays empty and gives nothing.
#[verifier::external_body]
pub(crate) fn queue_try_receive(q: &mut TokenQueue) -> (r: Option<usize>)
    ensures
        r is Some <==> queue_tokens(*old(q)).len() > 0,
        r is Some ==> r->Some_0 == queue_tokens(*old(q))[0] && queue_tokens(*final(q))
            == queue_tokens(*old(q)).skip(1),
        r is None ==> queue_tokens(*final(q)) == queue_tokens(*old(q)),
{
    q.channel.try_receive().ok()
}

/// `Channel::len`: the number of messages that wait.
#[verifier::external_body]
pub(crate) fn queue_len(q: &TokenQueue) -> (n: usize)
    ensures
        n == queue_tokens(*q).len(),
{
    q.channel.len()
}

} // verus!
