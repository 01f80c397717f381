//! The boundary to the `backon` crate, whose constant backoff schedules the
//! retries. Nothing in this file is proved: each contract restates what the
//! source of `backon` shows.

use backon::BackoffBuilder;
use backon::ConstantBackoff;
use backon::ConstantBuilder;
use vstd::prelude::*;

verus! {

/// The pause, in nanoseconds, that `backon`'s constant backoff makes between two
/// attempts unless told otherwise: one second.
pub const RETRY_DELAY_NANOS: u128 = 1_000_000_000;

/// `backon::ConstantBackoff`, the iterator over the pauses before each retry.
#[verifier::external_type_specification]
#[verifier::external_body]
pub struct ExConstantBackoff(backon::ConstantBackoff);

/// Whether a backoff was built with a limit on its retries and without jitter,
/// so that the pauses it will hand out are fixed in advance.
pub uninterp spec fn is_steady(backoff: ConstantBackoff) -> bool;

/// The pauses, in nanoseconds, that a steady backoff has yet to hand out, the
/// next one first.
pub uninterp spec fn delays_ahead(backoff: ConstantBackoff) -> Seq<u128>;

/// Calls `ConstantBuilder::default().with_max_times(max_times).build()`.
///
/// Claimed of it: the default builder has a delay of one second and no jitter,
/// `with_max_times` replaces the limit only, and `build` starts the count of
/// retries at zero; so the backoff is steady and has `max_times` pauses of one
/// second to hand out.
#[verifier::external_body]
pub(crate) fn constant_backoff(max_times: usize) -> (backoff: ConstantBackoff)
    ensures
        is_steady(backoff),
        delays_ahead(backoff) == Seq::new(max_times as nat, |i: int| RETRY_DELAY_NANOS),
{
    ConstantBuilder::default().with_max_times(max_times).build()
}

/// Calls `Iterator::next` of `backon::ConstantBackoff` and gives the pause in
/// nanoseconds.
///
/// Claimed of it, for a steady backoff: while pauses are left it hands out the
/// first and keeps the rest; once none is left it answers `None` and stays as
/// it is.
#[verifier::external_body]
pub(crate) fn next_delay(backoff: &mut ConstantBackoff) -> (delay: Option<u128>)
    requires
        is_steady(*old(backoff)),
    ensures
        is_steady(*final(backoff)),
        delays_ahead(*old(backoff)).len() == 0 ==> delay is None && delays_ahead(*final(backoff))
            == delays_ahead(*old(backoff)),
        delays_ahead(*old(backoff)).len() > 0 ==> delay == Some(delays_ahead(*old(backoff))[0])
            && delays_ahead(*final(backoff)) == delays_ahead(*old(backoff)).drop_first(),
{
    match backoff.next() {
        Some(pause) => Some(pause.as_nanos()),
        None => None,
    }
}

} // verus!
