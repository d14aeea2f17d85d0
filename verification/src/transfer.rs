//! What an upload and a download report when they end.

use crate::pipeline::{lemma_sequence_numbers_dense, Event, Outcome, Phase, PipelineState};
use crate::reassembly::{
    arrivals_in, is_completion_order, lemma_reassembly_restores_order, ReassemblyState,
};
use crate::types::{FileTransferOperationResult, FileTransferProgress, SftpError};
use vstd::prelude::*;

verus! {

/// The result of a transfer that ended with `outcome`.
///
/// A failed transfer reports its error. A cancelled one echoes both paths.
/// A completed one reports the size of the source and all of it done; where
/// the source did not report its size, that is an error.
pub open spec fn result_of(
    src_file: String,
    dest_file: String,
    file_size: Option<u64>,
    outcome: Outcome,
) -> Result<FileTransferOperationResult, SftpError> {
    match outcome {
        Outcome::Failed(error) => Err(error),
        Outcome::Cancelled => Ok(FileTransferOperationResult::Cancelled { src_file, dest_file }),
        Outcome::Completed => match file_size {
            Some(size) => Ok(
                FileTransferOperationResult::Completed(
                    FileTransferProgress {
                        src_file,
                        dest_file,
                        file_size: size,
                        percentage_progress: 100,
                    },
                ),
            ),
            None => Err(SftpError::UnknownSize),
        },
    }
}

/// Gives the result of a transfer from `src_file` to `dest_file` that ended
/// with `outcome`.
pub fn transfer_result(
    src_file: String,
    dest_file: String,
    file_size: Option<u64>,
    outcome: Outcome,
) -> (result: Result<FileTransferOperationResult, SftpError>)
    ensures
        result == result_of(src_file, dest_file, file_size, outcome),
{
    match outcome {
        Outcome::Failed(error) => Err(error),
        Outcome::Cancelled => Ok(FileTransferOperationResult::Cancelled { src_file, dest_file }),
        Outcome::Completed => match file_size {
            Some(size) => Ok(
                FileTransferOperationResult::Completed(
                    FileTransferProgress {
                        src_file,
                        dest_file,
                        file_size: size,
                        percentage_progress: 100,
                    },
                ),
            ),
            None => Err(SftpError::UnknownSize),
        },
    }
}

/// The bytes that reach the destination when the sends of `chunks`
/// complete in `order`.
pub open spec fn written(chunks: Seq<Seq<u8>>, order: Seq<nat>) -> Seq<u8> {
    ReassemblyState::initial().feed(arrivals_in(chunks, order)).1.flatten()
}

/// The chunks that a series of events made the read side send, in the
/// order in which the source yielded them.
pub open spec fn chunks_sent(concurrency: nat, events: Seq<Event>) -> Seq<Seq<u8>> {
    PipelineState::initial(concurrency).sent(events).map_values(|sent: (nat, Seq<u8>)| sent.1)
}

/// The two sides of a transfer together: the chunks that the read side
/// sent, under the numbers it gave them, leave the write side as they
/// were read, whatever the order in which their sends completed.
pub proof fn lemma_destination_equals_source(
    concurrency: nat,
    events: Seq<Event>,
    order: Seq<nat>,
)
    requires
        is_completion_order(order, PipelineState::initial(concurrency).sent(events).len()),
    ensures
        ReassemblyState::initial().feed(
            Seq::new(
                order.len(),
                |i: int| PipelineState::initial(concurrency).sent(events)[order[i] as int],
            ),
        ).1 == chunks_sent(concurrency, events),
{
    let sent = PipelineState::initial(concurrency).sent(events);
    let chunks = chunks_sent(concurrency, events);
    lemma_sequence_numbers_dense(concurrency, events);
    assert(Seq::new(order.len(), |i: int| sent[order[i] as int]) =~= arrivals_in(chunks, order));
    lemma_reassembly_restores_order(chunks, order);
}

/// A file that is uploaded and then downloaded again comes back byte for
/// byte, however either transfer cut it into chunks and in whatever order
/// the sends of either completed. A file without bytes, which gives no
/// chunk, is no exception.
pub proof fn lemma_round_trip(
    uploaded: Seq<Seq<u8>>,
    upload_order: Seq<nat>,
    downloaded: Seq<Seq<u8>>,
    download_order: Seq<nat>,
)
    requires
        is_completion_order(upload_order, uploaded.len()),
        is_completion_order(download_order, downloaded.len()),
        downloaded.flatten() == written(uploaded, upload_order),
    ensures
        written(downloaded, download_order) == uploaded.flatten(),
{
    lemma_reassembly_restores_order(uploaded, upload_order);
    lemma_reassembly_restores_order(downloaded, download_order);
}

/// A transfer that is cancelled before its first chunk was sent never
/// sends one, whatever is reported afterwards, so its destination receives
/// nothing; and once the writing side has finished it ends as cancelled,
/// with both paths as they were given.
pub proof fn lemma_cancelled_before_first_chunk(
    src_file: String,
    dest_file: String,
    file_size: Option<u64>,
    concurrency: nat,
    later: Seq<Event>,
)
    requires
        concurrency > 0,
    ensures
        PipelineState::initial(concurrency).step(Event::CancelRequested).run(later).next_sequence
            == 0,
        PipelineState::initial(concurrency).sent(seq![Event::CancelRequested] + later)
            == Seq::<(nat, Seq<u8>)>::empty(),
        ReassemblyState::initial().feed(Seq::empty()).1 == Seq::<Seq<u8>>::empty(),
        PipelineState::initial(concurrency).step(Event::CancelRequested).step(
            Event::WriterFinished,
        ).outcome() == Some(Outcome::Cancelled),
        result_of(src_file, dest_file, file_size, Outcome::Cancelled) == Ok::<
            FileTransferOperationResult,
            SftpError,
        >(FileTransferOperationResult::Cancelled { src_file, dest_file }),
    decreases later.len(),
{
    let start = PipelineState::initial(concurrency);
    let events = seq![Event::CancelRequested] + later;
    lemma_stays_out_of_reading(start.step(Event::CancelRequested), later);
    if later.len() == 0 {
        assert(events.drop_last() =~= Seq::empty());
        assert(events.last() == Event::CancelRequested);
        assert(start.sent(events.drop_last()) =~= Seq::empty());
        assert(start.sent(events) =~= Seq::empty());
    } else {
        lemma_cancelled_before_first_chunk(
            src_file,
            dest_file,
            file_size,
            concurrency,
            later.drop_last(),
        );
        assert(events.drop_last() =~= seq![Event::CancelRequested] + later.drop_last());
        lemma_run_after_first(start, Event::CancelRequested, later.drop_last());
        lemma_stays_out_of_reading(start.step(Event::CancelRequested), later.drop_last());
    }
}

/// Running a series of events is stepping through its first, then running
/// the rest.
proof fn lemma_run_after_first(state: PipelineState, first: Event, rest: Seq<Event>)
    ensures
        state.run(seq![first] + rest) == state.step(first).run(rest),
    decreases rest.len(),
{
    let events = seq![first] + rest;
    if rest.len() == 0 {
        assert(events.drop_last() =~= Seq::empty());
        assert(events.last() == first);
        assert(state.run(events.drop_last()) == state);
    } else {
        assert(events.drop_last() =~= seq![first] + rest.drop_last());
        lemma_run_after_first(state, first, rest.drop_last());
    }
}

/// Reading, once over, does not start again, and no further chunk is
/// numbered.
proof fn lemma_stays_out_of_reading(state: PipelineState, events: Seq<Event>)
    requires
        state.phase != Phase::Reading,
        state.phase != Phase::Backpressure,
    ensures
        state.run(events).phase != Phase::Reading,
        state.run(events).phase != Phase::Backpressure,
        state.run(events).next_sequence == state.next_sequence,
        state.run(events).cancelled == state.cancelled,
    decreases events.len(),
{
    if events.len() > 0 {
        lemma_stays_out_of_reading(state, events.drop_last());
    }
}

} // verus!
