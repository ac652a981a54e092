//! Coalescing channel drain.
//!
//! Raw copy buffers travel from the render stage to the consumer over an
//! unbounded first-in-first-out channel. The consumer's draining policy
//! keeps only the newest pending buffer and discards the rest: the
//! contract is "always show the newest complete frame", never "process
//! every frame". The channel itself comes from an outside crate; its
//! pending messages are modelled, as the single consumer sees them, by
//! [`channel_contents`].

use vstd::prelude::*;

verus! {

/// `crossbeam_channel::Receiver`, the consumer end of the transport.
#[verifier::external_type_specification]
#[verifier::external_body]
#[verifier::reject_recursive_types(T)]
pub struct ExReceiver<T>(crossbeam_channel::Receiver<T>);

/// The buffers pending on the channel as its single consumer sees them,
/// oldest first. Sends from the producer appear between drains.
pub uninterp spec fn channel_contents(rx: crossbeam_channel::Receiver<Vec<u8>>) -> Seq<Seq<u8>>;

/// Relies on crossbeam_channel::Receiver::try_recv: without blocking, it
/// pops and returns the oldest pending message in first-in-first-out
/// order, or reports the channel empty (or disconnected, which delivers
/// no message either).
#[verifier::external_body]
fn try_recv_frame(rx: &mut crossbeam_channel::Receiver<Vec<u8>>) -> (r: Option<Vec<u8>>)
    ensures
        channel_contents(*old(rx)).len() == 0 ==> r is None && channel_contents(*final(rx))
            == channel_contents(*old(rx)),
        channel_contents(*old(rx)).len() > 0 ==> r is Some && r.unwrap()@ == channel_contents(
            *old(rx),
        )[0] && channel_contents(*final(rx)) == channel_contents(*old(rx)).drop_first(),
{
    match rx.try_recv() {
        Ok(v) => Some(v),
        Err(_) => None,
    }
}

/// Drains the channel, returning the most recently sent pending buffer,
/// or nothing when none were pending. Afterwards the channel is empty.
pub fn drain_latest(rx: &mut crossbeam_channel::Receiver<Vec<u8>>) -> (r: Option<Vec<u8>>)
    ensures
        channel_contents(*final(rx)).len() == 0,
        channel_contents(*old(rx)).len() == 0 ==> r is None,
        channel_contents(*old(rx)).len() > 0 ==> r is Some && r.unwrap()@ == channel_contents(
            *old(rx),
        ).last(),
{
    let ghost q0 = channel_contents(*old(rx));
    let ghost mut consumed: int = 0;
    let mut latest: Option<Vec<u8>> = None;
    loop
        invariant_except_break
            0 <= consumed <= q0.len(),
            channel_contents(*rx) == q0.skip(consumed),
            consumed == 0 ==> latest is None,
            consumed > 0 ==> latest is Some && latest.unwrap()@ == q0[consumed - 1],
        ensures
            channel_contents(*rx).len() == 0,
            q0.len() == 0 ==> latest is None,
            q0.len() > 0 ==> latest is Some && latest.unwrap()@ == q0.last(),
        decreases q0.len() - consumed,
    {
        match try_recv_frame(rx) {
            Some(v) => {
                latest = Some(v);
                proof {
                    assert(q0.skip(consumed).drop_first() == q0.skip(consumed + 1));
                    consumed = consumed + 1;
                }
            },
            None => {
                proof {
                    assert(q0.skip(consumed).len() == 0);
                }
                break ;
            },
        }
    }
    latest
}

} // verus!
