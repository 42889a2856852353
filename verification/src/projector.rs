//! The elapsed-time projector: between server notifications it advances a
//! private copy of the snapshot by one second per tick and redraws, until
//! the owning loop cancels it.

use vstd::prelude::*;

use crate::data::MusicData;

verus! {

/// One projector tick on its private snapshot copy: when the cancellation
/// signal has arrived the snapshot is left untouched and nothing is
/// rendered; otherwise the elapsed time advances one second and the caller
/// must redraw.
pub fn projector_tick(data: &mut MusicData, cancelled: bool) -> (render: bool)
    ensures
        render == !cancelled,
        cancelled ==> *final(data) == *old(data),
        !cancelled ==> *final(data) == (MusicData {
            time_curr: final(data).time_curr,
            ..*old(data)
        }),
        !cancelled ==> final(data).time_curr == (match old(data).time_curr {
            Some(t) => Some(
                if t + 1 > u64::MAX {
                    u64::MAX
                } else {
                    (t + 1) as u64
                },
            ),
            None => None::<u64>,
        }),
{
    if cancelled {
        false
    } else {
        data.increment_time(1);
        true
    }
}

} // verus!
