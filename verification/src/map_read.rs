//! Bounded reads of a map file into permanent map storage. The source fills
//! the storage front to back until it reports end of file; a full buffer is
//! accepted only when one more read into separate storage finds nothing.
use vstd::prelude::*;

use crate::map_source::{MapSource, ReadCall, Recorded};

verus! {

/// What a bounded read does after one call of the source.
pub enum ReadStep {
    /// Keep reading; this many bytes are filled.
    Continue(usize),
    /// The read is over, with this outcome.
    Done(Result<usize, &'static str>),
}

/// The decision after the source was asked to fill storage of `capacity`
/// bytes from `offset` on: its error ends the read; a count beyond the
/// space offered is rejected; zero is end of file with `offset` bytes;
/// anything else advances.
pub open spec fn read_step(capacity: usize, offset: usize, result: Result<usize, &'static str>) -> ReadStep {
    match result {
        Err(e) => ReadStep::Done(Err(e)),
        Ok(count) => if count > capacity - offset {
            ReadStep::Done(Err("invalid map read length"))
        } else if count == 0 {
            ReadStep::Done(Ok(offset))
        } else {
            ReadStep::Continue((offset + count) as usize)
        },
    }
}

/// The decision after storage of `filled` bytes is full and the source was
/// asked for one more byte: end of file accepts the map, any data rejects it
/// as too large, and the source's error is passed on.
pub open spec fn probe_outcome(filled: usize, result: Result<usize, &'static str>) -> Result<usize, &'static str> {
    match result {
        Err(e) => Err(e),
        Ok(count) => if count == 0 {
            Ok(filled)
        } else {
            Err("map larger than the map buffer")
        },
    }
}

/// The filled length after `calls`, when each of them was offered the rest
/// of the storage and advanced the read.
pub open spec fn offset_after(capacity: usize, calls: Seq<ReadCall>) -> Option<usize>
    decreases calls.len(),
{
    if calls.len() == 0 {
        Some(0)
    } else {
        match offset_after(capacity, calls.drop_last()) {
            Some(offset) => {
                let call = calls.last();
                if offset < capacity && call.offered == capacity - offset {
                    match read_step(capacity, offset, call.result) {
                        ReadStep::Continue(next) => Some(next),
                        ReadStep::Done(_) => None,
                    }
                } else {
                    None
                }
            },
            None => None,
        }
    }
}

/// The outcome of a read into storage of `capacity` bytes whose source
/// calls were exactly `calls`: every call but the last advanced the read
/// with the rest of the storage; the last ended it, either as a fill that
/// reported an error, an overlong count or end of file, or, once the storage
/// is full, as a one-byte probe. `None` when `calls` is not such a run.
pub open spec fn read_outcome(capacity: usize, calls: Seq<ReadCall>) -> Option<Result<usize, &'static str>> {
    if calls.len() == 0 {
        None
    } else {
        match offset_after(capacity, calls.drop_last()) {
            Some(offset) => {
                let call = calls.last();
                if offset < capacity {
                    if call.offered == capacity - offset {
                        match read_step(capacity, offset, call.result) {
                            ReadStep::Done(outcome) => Some(outcome),
                            ReadStep::Continue(_) => None,
                        }
                    } else {
                        None
                    }
                } else if call.offered == 1 {
                    Some(probe_outcome(offset, call.result))
                } else {
                    None
                }
            },
            None => None,
        }
    }
}

/// The storage, first `initial`, after the source calls `calls` of a read:
/// each fill call wrote the slice from the filled length on, leaving the
/// filled prefix as it was; the probe of full storage touches nothing.
pub open spec fn filled_after(initial: Seq<u8>, calls: Seq<ReadCall>) -> Seq<u8>
    decreases calls.len(),
{
    if calls.len() == 0 {
        initial
    } else {
        let before = filled_after(initial, calls.drop_last());
        match offset_after(initial.len() as usize, calls.drop_last()) {
            Some(offset) => if offset < initial.len() {
                before.take(offset as int) + calls.last().contents
            } else {
                before
            },
            None => before,
        }
    }
}

/// Bytes a call reported as written: its count, or none on an error.
pub open spec fn reported_count(result: Result<usize, &'static str>) -> nat {
    match result {
        Ok(count) => count as nat,
        Err(_) => 0,
    }
}

/// The bytes the calls reported, in order: the first `count` bytes of each
/// call's slice.
pub open spec fn reported_bytes(calls: Seq<ReadCall>) -> Seq<u8>
    decreases calls.len(),
{
    if calls.len() == 0 {
        Seq::empty()
    } else {
        reported_bytes(calls.drop_last()) + calls.last().contents.take(
            reported_count(calls.last().result) as int,
        )
    }
}

/// Every call's slice kept the length it was handed with.
pub open spec fn slices_kept(calls: Seq<ReadCall>) -> bool {
    forall|i: int| 0 <= i < calls.len() ==> (#[trigger] calls[i]).contents.len() == calls[i].offered
}

/// While a read advances, the storage keeps its length and its filled
/// prefix is exactly the bytes the source reported, in order.
pub proof fn lemma_filled_prefix(initial: Seq<u8>, calls: Seq<ReadCall>)
    requires
        initial.len() <= usize::MAX,
        offset_after(initial.len() as usize, calls) is Some,
        slices_kept(calls),
    ensures
        filled_after(initial, calls).len() == initial.len(),
        reported_bytes(calls).len() == offset_after(initial.len() as usize, calls)->0,
        filled_after(initial, calls).take(offset_after(initial.len() as usize, calls)->0 as int)
            == reported_bytes(calls),
    decreases calls.len(),
{
    if calls.len() > 0 {
        let prev = calls.drop_last();
        assert(slices_kept(prev)) by {
            assert forall|i: int| 0 <= i < prev.len() implies (#[trigger] prev[i]).contents.len()
                == prev[i].offered by {
                assert(prev[i] == calls[i]);
            }
        }
        lemma_filled_prefix(initial, prev);
        let last = calls.last();
        assert(last == calls[calls.len() - 1]);
        let p = offset_after(initial.len() as usize, prev)->0;
        let before = filled_after(initial, prev);
        let k = reported_count(last.result);
        assert(before.take(p as int) + last.contents.take(k as int) =~= (before.take(p as int)
            + last.contents).take(p + k));
    }
}

/// Decides how a read goes on after one fill; see `read_step`.
pub fn after_read(capacity: usize, offset: usize, result: Result<usize, &'static str>) -> (r:
    ReadStep)
    requires
        offset <= capacity,
    ensures
        r == read_step(capacity, offset, result),
{
    match result {
        Err(e) => ReadStep::Done(Err(e)),
        Ok(count) => {
            if count > capacity - offset {
                ReadStep::Done(Err("invalid map read length"))
            } else if count == 0 {
                ReadStep::Done(Ok(offset))
            } else {
                ReadStep::Continue(offset + count)
            }
        },
    }
}

/// Decides a read after the probe of full storage; see `probe_outcome`.
pub fn after_probe(filled: usize, result: Result<usize, &'static str>) -> (r: Result<
    usize,
    &'static str,
>)
    ensures
        r == probe_outcome(filled, result),
{
    match result {
        Err(e) => Err(e),
        Ok(0) => Ok(filled),
        Ok(_) => Err("map larger than the map buffer"),
    }
}

/// A run of advancing calls fills at least one byte per call and never
/// more than the storage.
proof fn lemma_offset_bounds(capacity: usize, calls: Seq<ReadCall>)
    requires
        offset_after(capacity, calls) is Some,
    ensures
        calls.len() <= offset_after(capacity, calls)->0 <= capacity,
    decreases calls.len(),
{
    if calls.len() > 0 {
        lemma_offset_bounds(capacity, calls.drop_last());
    }
}

/// A finished read makes at most one call per byte of storage plus the
/// probe, succeeds only with the filled length, never beyond the storage,
/// and only after the source reported end of file.
pub proof fn lemma_read_outcome_bounds(capacity: usize, calls: Seq<ReadCall>)
    requires
        read_outcome(capacity, calls) is Some,
    ensures
        calls.len() <= capacity + 1,
        read_outcome(capacity, calls) matches Some(Ok(n)) ==> n <= capacity
            && calls.last().result == Ok::<usize, &'static str>(0),
{
    lemma_offset_bounds(capacity, calls.drop_last());
}

/// Reads through end of file, returning the length of the filled prefix.
/// The source is offered the unfilled rest of `buffer` until it reports end
/// of file, an error or a count beyond that rest; once `buffer` is full it
/// is asked for one more byte in separate storage, and a file longer than
/// `buffer` is an error rather than a truncated map.
pub fn read_into<S: MapSource>(buffer: &mut [u8], source: &mut Recorded<S>) -> (r: Result<
    usize,
    &'static str,
>)
    ensures
        final(source).calls().len() >= old(source).calls().len(),
        final(source).calls().take(old(source).calls().len() as int) == old(source).calls(),
        ({
            let made = final(source).calls().skip(old(source).calls().len() as int);
            &&& read_outcome(old(buffer)@.len() as usize, made) == Some(r)
            &&& final(buffer)@ == filled_after(old(buffer)@, made)
            &&& made.len() <= old(buffer)@.len() + 1
            &&& r matches Ok(n) ==> n <= old(buffer)@.len() && made.last().result == Ok::<
                usize,
                &'static str,
            >(0)
            &&& r matches Ok(n) ==> final(buffer)@.take(n as int) == reported_bytes(
                made.drop_last(),
            )
        }),
{
    let capacity = buffer.len();
    let ghost initial = buffer@;
    let ghost start = source.calls();
    let ghost mut calls: Seq<ReadCall> = Seq::empty();
    let mut offset: usize = 0;
    while offset < buffer.len()
        invariant
            buffer@.len() == capacity,
            capacity == old(buffer)@.len(),
            initial == old(buffer)@,
            start == old(source).calls(),
            offset <= capacity,
            offset_after(capacity, calls) == Some(offset),
            source.calls() == start + calls,
            buffer@ == filled_after(initial, calls),
            slices_kept(calls),
        decreases capacity - offset,
    {
        let ghost before = buffer@;
        let (head, tail) = buffer.split_at_mut(offset);
        let result = source.read(tail);
        proof {
            let call = ReadCall { offered: (capacity - offset) as nat, contents: tail@, result };
            assert(head@ == before.take(offset as int));
            assert(calls.push(call).drop_last() =~= calls);
            assert(start + calls.push(call) =~= (start + calls).push(call));
            calls = calls.push(call);
        }
        match after_read(capacity, offset, result) {
            ReadStep::Done(outcome) => {
                proof {
                    lemma_read_outcome_bounds(capacity, calls);
                    let prev = calls.drop_last();
                    assert(slices_kept(prev)) by {
                        assert forall|i: int| 0 <= i < prev.len() implies (
                        #[trigger] prev[i]).contents.len() == prev[i].offered by {
                            assert(prev[i] == calls[i]);
                        }
                    }
                    lemma_filled_prefix(initial, prev);
                    assert(filled_after(initial, calls).take(offset as int) =~= filled_after(
                        initial,
                        prev,
                    ).take(offset as int));
                    assert((start + calls).skip(start.len() as int) =~= calls);
                    assert((start + calls).take(start.len() as int) =~= start);
                }
                return outcome;
            },
            ReadStep::Continue(next) => {
                offset = next;
            },
        }
    }
    let mut extra = [0u8];
    let result = source.read(&mut extra);
    proof {
        let call = ReadCall { offered: 1, contents: extra@, result };
        assert(calls.push(call).drop_last() =~= calls);
        assert(start + calls.push(call) =~= (start + calls).push(call));
        calls = calls.push(call);
        lemma_read_outcome_bounds(capacity, calls);
        let prev = calls.drop_last();
        assert(slices_kept(prev)) by {
            assert forall|i: int| 0 <= i < prev.len() implies (#[trigger] prev[i]).contents.len()
                == prev[i].offered by {
                assert(prev[i] == calls[i]);
            }
        }
        lemma_filled_prefix(initial, prev);
        assert(filled_after(initial, calls).take(offset as int) =~= filled_after(initial, prev));
        assert((start + calls).skip(start.len() as int) =~= calls);
        assert((start + calls).take(start.len() as int) =~= start);
    }
    after_probe(offset, result)
}

} // verus!
