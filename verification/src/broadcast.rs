//! The broadcast router: fans a notice out to the connections of one
//! session.

use vstd::prelude::*;
use crate::messages::ServerEvent;
use crate::outside::{bindings_get, bindings_keys, sink_try_send, sinks_get};
use crate::types::AppState;

verus! {

/// The connections that a notice to `session_id` goes to: every connection
/// bound to that session that has a sink, but for `exclude`. Each is named
/// once; the order is not fixed.
pub fn recipients(state: &AppState, session_id: &str, exclude: Option<u128>) -> (targets: Vec<u128>)
    ensures
        targets@.no_duplicates(),
        targets@.to_set() == state@.recipients(session_id@, exclude),
{
    let wanted = String::from_str(session_id);
    let bound = bindings_keys(&state.connection_meta);
    let mut targets: Vec<u128> = Vec::new();
    let mut i: usize = 0;
    while i < bound.len()
        invariant
            i <= bound.len(),
            wanted@ == session_id@,
            bound@.no_duplicates(),
            bound@.to_set() == state@.connection_meta.dom(),
            targets@.no_duplicates(),
            targets@.to_set() == state@.recipients(session_id@, exclude).intersect(
                bound@.take(i as int).to_set(),
            ),
        decreases bound.len() - i,
    {
        let connection_id = bound[i];
        let taken = match bindings_get(&state.connection_meta, connection_id) {
            Some(binding) => binding.0 == wanted && exclude != Some(connection_id) && sinks_get(
                &state.connections,
                connection_id,
            ).is_some(),
            None => false,
        };
        proof {
            let seen = bound@.take(i as int);
            assert(!seen.contains(connection_id)) by {
                if seen.contains(connection_id) {
                    let j = choose|j: int| 0 <= j < seen.len() && seen[j] == connection_id;
                    assert(bound@[j] == bound@[i as int]);
                }
            }
            bound@.lemma_take_succ_push(i as int);
            seen.lemma_push_to_set_commute(connection_id);
            targets@.lemma_push_to_set_commute(connection_id);
            assert(taken == state@.recipients(session_id@, exclude).contains(connection_id));
            assert(!targets@.contains(connection_id)) by {
                assert(!targets@.to_set().contains(connection_id));
            }
        }
        if taken {
            targets.push(connection_id);
        }
        i += 1;
    }
    proof {
        bound@.lemma_take_len();
        assert(targets@.to_set() =~= state@.recipients(session_id@, exclude));
    }
    targets
}

/// The count of a fan-out after one more attempt: a delivery counts, a
/// refusal does not.
pub fn tally(count: usize, delivered: bool) -> (total: usize)
    requires
        count < usize::MAX,
    ensures
        total == count + if delivered { 1int } else { 0int },
{
    if delivered {
        count + 1
    } else {
        count
    }
}

/// Sends `event` to every recipient of a notice to `session_id` (see
/// [`recipients`]) and returns how many sinks took it.
///
/// A sink that is full or whose receiver is gone does not take the event;
/// it is neither waited for nor tried again. Whether a sink takes the event
/// is not known beforehand, so the count is only known to be at most the
/// number of recipients.
pub fn broadcast(state: &AppState, session_id: &str, event: &ServerEvent, exclude: Option<u128>) -> (count: usize)
    ensures
        state@.recipients(session_id@, exclude).finite(),
        count <= state@.recipients(session_id@, exclude).len(),
{
    let targets = recipients(state, session_id, exclude);
    proof {
        targets@.unique_seq_to_set();
        vstd::seq_lib::seq_to_set_is_finite(targets@);
    }
    let mut count: usize = 0;
    let mut i: usize = 0;
    while i < targets.len()
        invariant
            i <= targets.len(),
            count <= i,
        decreases targets.len() - i,
    {
        if let Some(sink) = sinks_get(&state.connections, targets[i]) {
            let delivered = sink_try_send(&sink, event.clone());
            count = tally(count, delivered);
        }
        i += 1;
    }
    count
}

} // verus!
