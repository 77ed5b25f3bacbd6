//! What holds of the bridge over whole runs, stated over the spec functions
//! that the contracts of the operations use.

use vstd::prelude::*;
use crate::adapter::{close_reply, is_window_args, key_reply, window_args_outcome};
use crate::bridge::Bridge;
use crate::error::BridgeError;
use crate::registry::{entry_of, first_handle, handle_map, is_live};
use crate::value::Value;

verus! {

/// What one call does to the count of issued handles.
pub enum Step {
    /// A creation that succeeded: it returns the count plus 1 as the new
    /// handle, and the count goes up by 1.
    Created,
    /// Any other call, a successful or failed start of the backend included:
    /// the count stays.
    Other,
}

/// The count of issued handles after `steps`, one at a time, on a bridge
/// that had issued `start` handles.
pub open spec fn issued_after(start: int, steps: Seq<Step>) -> int
    decreases steps.len(),
{
    if steps.len() == 0 {
        start
    } else {
        issued_after(start, steps.drop_last()) + if steps.last() is Created {
            1int
        } else {
            0int
        }
    }
}

/// The handle that the creation at position `i` of `steps` returns.
pub open spec fn handle_at(start: int, steps: Seq<Step>, i: int) -> int
    recommends
        0 <= i < steps.len(),
        steps[i] is Created,
{
    issued_after(start, steps.take(i)) + 1
}

/// The count of issued handles never goes down over a run.
pub proof fn lemma_count_never_falls(start: int, steps: Seq<Step>, i: int, j: int)
    requires
        0 <= i <= j <= steps.len(),
    ensures
        issued_after(start, steps.take(i)) <= issued_after(start, steps.take(j)),
    decreases j - i,
{
    if i < j {
        lemma_count_never_falls(start, steps, i, j - 1);
        assert(steps.take(j).drop_last() =~= steps.take(j - 1));
    }
}

/// Handles are strictly increasing and never repeat in the life of a bridge.
/// Of two successful creations in one run, whatever lies between them, a
/// restart of the backend included, the later one returns the larger handle.
/// On a new bridge the first creation returns 1.
pub proof fn lemma_handles_increase(start: int, steps: Seq<Step>, i: int, j: int)
    requires
        0 <= i < j < steps.len(),
        steps[i] is Created,
        steps[j] is Created,
    ensures
        handle_at(start, steps, i) < handle_at(start, steps, j),
        handle_at(0, seq![Step::Created], 0) == 1,
{
    assert(steps.take(i + 1).drop_last() =~= steps.take(i));
    assert(steps.take(i + 1).last() == steps[i]);
    lemma_count_never_falls(start, steps, i + 1, j);
    assert(seq![Step::Created].take(0) =~= Seq::<Step>::empty());
}

/// A run of creations and nothing else, taken one at a time in whatever
/// order the callers came, hands out the handles after `start` in turn, each
/// once, and leaves the count advanced by the number of creations.
pub proof fn lemma_run_of_creations(start: int, steps: Seq<Step>, i: int)
    requires
        forall|k: int| 0 <= k < steps.len() ==> steps[k] is Created,
        0 <= i <= steps.len(),
    ensures
        issued_after(start, steps.take(i)) == start + i,
        i < steps.len() ==> handle_at(start, steps, i) == start + i + 1,
        i == steps.len() ==> issued_after(start, steps) == start + steps.len(),
    decreases i,
{
    if i > 0 {
        lemma_run_of_creations(start, steps, i - 1);
        assert(steps.take(i).drop_last() =~= steps.take(i - 1));
        assert(steps.take(i).last() == steps[i - 1]);
    }
    if i == steps.len() {
        assert(steps.take(i) =~= steps);
    }
}

/// Creations add up. After `created.len()` successful creations on a bridge
/// that had issued `issued` handles and held `held`, taken one at a time in
/// whatever order the callers came, the bridge holds that many more windows,
/// each under a handle of its own, the earlier windows are where they were,
/// and the count of handles has advanced by that number.
pub proof fn lemma_creations_add_up<W>(issued: int, held: Seq<W>, created: Seq<W>)
    requires
        held.len() <= issued,
    ensures
        (held + created).len() == held.len() + created.len(),
        handle_map(issued + created.len(), held + created).dom().finite(),
        handle_map(issued + created.len(), held + created).dom().len() == held.len()
            + created.len(),
        forall|h: int|
            is_live(issued, held, h) ==> #[trigger] handle_map(
                issued + created.len(),
                held + created,
            )[h] == entry_of(issued, held, h),
        forall|k: int|
            0 <= k < created.len() ==> #[trigger] handle_map(
                issued + created.len(),
                held + created,
            )[issued + 1 + k] == created[k],
{
    lemma_handle_domain(issued + created.len(), held + created);
}

/// The live handles of a registry are as many as its entries: the last
/// handles issued, one for each entry.
pub proof fn lemma_handle_domain<W>(issued: int, entries: Seq<W>)
    ensures
        handle_map(issued, entries).dom().finite(),
        handle_map(issued, entries).dom().len() == entries.len(),
        forall|h: int| handle_map(issued, entries).dom().contains(h) <==> is_live(issued, entries, h),
    decreases entries.len(),
{
    let dom = handle_map(issued, entries).dom();
    if entries.len() == 0 {
        assert(dom =~= Set::<int>::empty());
    } else {
        let shorter = entries.drop_last();
        lemma_handle_domain(issued - 1, shorter);
        assert(first_handle(issued - 1, shorter) == first_handle(issued, entries));
        assert(dom =~= handle_map(issued - 1, shorter).dom().insert(issued));
    }
}

/// On a started bridge, a handle that leads to no window is the handle of a
/// closed window: the close query finds no window, does not fail, and the
/// answer for the host is true. Such are the handles that were never issued,
/// and those of windows that a restart of the backend dropped.
pub proof fn lemma_unknown_handle_is_closed<C, W>(bridge: Bridge<C, W>, handle: i64)
    requires
        bridge.is_initialized(),
        !bridge.is_live(handle as int),
    ensures
        bridge.window_target(seq![Value::Integer(handle)]) == Ok::<Option<W>, BridgeError>(None),
        close_reply(None) == Value::Boolean(true),
{
}

/// A handle that was never issued leads to no window.
pub proof fn lemma_never_issued_is_not_live<C, W>(bridge: Bridge<C, W>, handle: int)
    requires
        handle < 1 || handle > bridge.issued(),
    ensures
        !bridge.is_live(handle),
{
    bridge.lemma_issued_covers_windows();
}

/// On a started bridge, presenting a frame and asking for a key under a
/// handle that leads to no window never fail: there is no window to act on,
/// whatever the key code, and the answer to the key query is false.
pub proof fn lemma_unknown_handle_is_inert<C, W>(bridge: Bridge<C, W>, handle: i64, code: i64)
    requires
        bridge.is_initialized(),
        !bridge.is_live(handle as int),
    ensures
        bridge.window_target(seq![Value::Integer(handle)]) == Ok::<Option<W>, BridgeError>(None),
        bridge.key_target(seq![Value::Integer(handle), Value::Integer(code)]) == Ok::<
            Option<(W, i32)>,
            BridgeError,
        >(None),
        key_reply(None) == Value::Boolean(false),
{
}

/// Before the backend has started, every operation that needs it fails with
/// the not-initialized error, whatever its arguments.
pub proof fn lemma_uninitialized_fails<C, W>(bridge: Bridge<C, W>, args: Seq<Value>)
    requires
        !bridge.is_initialized(),
    ensures
        bridge.creation_plan(args) == Err::<(int, int, Seq<char>), BridgeError>(
            BridgeError::NotInitialized,
        ),
        bridge.context_target(args) == Err::<C, BridgeError>(BridgeError::NotInitialized),
        bridge.window_target(args) == Err::<Option<W>, BridgeError>(BridgeError::NotInitialized),
        bridge.key_target(args) == Err::<Option<(W, i32)>, BridgeError>(
            BridgeError::NotInitialized,
        ),
{
}

/// A window of no size is never asked of the backend: a well-shaped creation
/// with a width or height of zero or less fails with the window-creation
/// error.
pub proof fn lemma_empty_window_is_refused(args: Seq<Value>)
    requires
        is_window_args(args),
        args[0].int_of()->Some_0 <= 0 || args[1].int_of()->Some_0 <= 0,
    ensures
        window_args_outcome(args) == Err::<(int, int, Seq<char>), BridgeError>(
            BridgeError::WindowCreation,
        ),
{
}

} // verus!
