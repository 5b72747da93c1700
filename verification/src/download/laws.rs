//! What holds of the download machine, step by step and over whole runs.

use vstd::prelude::*;
use crate::download::{
    file_name, left_of, ActionView, DownloadErrorView, DownloadView, EventView, Phase, SkipReason,
    MAX_ETA_SECONDS, NANOS_PER_SECOND,
};

verus! {

/// A step leaves alone what the batch consists of, and keeps a
/// well-formed state well formed.
pub proof fn lemma_step_keeps_batch(state: DownloadView, event: EventView)
    requires
        state.wf(),
    ensures
        state.step(event).0.wf(),
        state.step(event).0.files == state.files,
        state.step(event).0.provider == state.provider,
        state.step(event).0.total_download_size == state.total_download_size,
{
}

/// Files are taken in their order and bytes are only ever added: a step
/// never goes back to an earlier file and never lowers the count of the
/// batch, nor, between the chunks of one file, the count of that file.
pub proof fn lemma_step_goes_forward(state: DownloadView, event: EventView)
    requires
        state.wf(),
    ensures
        state.step(event).0.index >= state.index,
        state.step(event).0.total_downloaded >= state.total_downloaded,
        (state.phase == Phase::Body || state.phase == Phase::Sink) && (state.step(event).0.phase
            == Phase::Body || state.step(event).0.phase == Phase::Sink) ==> state.step(
            event,
        ).0.index == state.index && state.step(event).0.downloaded >= state.downloaded,
{
}

/// Once the batch is over it stays over: whatever is told, the machine
/// asks for no directory, request, chunk or progress any more.
pub proof fn lemma_over_is_final(state: DownloadView, event: EventView)
    requires
        state.phase == Phase::Over,
    ensures
        state.step(event).0 == state,
        state.step(event).1 is Finish,
{
}

/// The batch ends only by an action that finishes it, and every action
/// that finishes it ends it.
pub proof fn lemma_finish_ends_batch(state: DownloadView, event: EventView)
    ensures
        state.step(event).1 is Finish <==> state.step(event).0.phase == Phase::Over,
{
}

/// A sink that refuses a progress ends the batch at once, with the
/// refusal as the error.
pub proof fn lemma_sink_refusal_ends_batch(state: DownloadView, message: Seq<char>)
    requires
        state.phase == Phase::Sink,
    ensures
        state.step(EventView::SinkFailed(message)).0.phase == Phase::Over,
        state.step(EventView::SinkFailed(message)).1 == ActionView::Finish(
            Err(DownloadErrorView::Sink(message)),
        ),
{
}

/// A file for which no address is listed is passed over once its
/// directory exists, and when that has been noted the machine turns to
/// the next file, or finishes well after the last.
pub proof fn lemma_file_without_address_is_passed_over(state: DownloadView)
    requires
        state.wf(),
        state.phase == Phase::Directory,
        state.current().url_for(state.provider) is None,
    ensures
        state.step(EventView::DirectoryReady).1 == (ActionView::Skip {
            reason: SkipReason::NoUrl,
            path: state.current().path,
            url: Seq::empty(),
            detail: state.provider.key(),
        }),
        state.step(EventView::DirectoryReady).0.step(EventView::Noted) == state.turn_to(
            state.index + 1,
        ),
        state.index + 1 < state.files.len() ==> state.turn_to(state.index + 1).1
            == (ActionView::CreateDirectory { path: state.files[state.index as int + 1].path }),
        state.index + 1 == state.files.len() ==> state.turn_to(state.index + 1).1
            == ActionView::Finish(Ok(())),
{
    let skipped = state.step(EventView::DirectoryReady).0;
    assert(skipped.turn_to(state.index + 1) == state.turn_to(state.index + 1));
}

/// Only an address that the manifest lists for the file in progress is
/// ever requested: the one of the provider asked for, or else the one of
/// the provider with the key `none`.
pub proof fn lemma_request_is_for_listed_address(state: DownloadView, event: EventView)
    requires
        state.wf(),
    ensures
        state.step(event).1 matches ActionView::Request { url, path } ==> state.phase
            == Phase::Directory && state.current().url_for(state.provider) == Some(url) && path
            == state.current().path,
{
}

/// What a progress holds: the place of its file in the batch, counts that
/// include the chunk, what is left of the batch and never less than
/// nothing, and an estimate of at most a day that is 0 where nothing has
/// arrived or no time has passed.
pub proof fn lemma_progress_facts(state: DownloadView, len: nat, elapsed_nanos: nat)
    requires
        state.wf(),
        state.phase == Phase::Body,
    ensures
        1 <= state.progress(len, elapsed_nanos).file_index <= state.progress(
            len,
            elapsed_nanos,
        ).total_files,
        state.progress(len, elapsed_nanos).current >= state.downloaded,
        state.progress(len, elapsed_nanos).total_size_downloaded >= state.total_downloaded,
        state.progress(len, elapsed_nanos).total_amount_left == left_of(
            state.total_download_size,
            state.progress(len, elapsed_nanos).total_size_downloaded,
        ),
        state.progress(len, elapsed_nanos).total_amount_left + state.progress(
            len,
            elapsed_nanos,
        ).total_size_downloaded >= state.total_download_size,
        state.progress(len, elapsed_nanos).expected_time_left <= MAX_ETA_SECONDS,
        elapsed_nanos == 0 ==> state.progress(len, elapsed_nanos).speed == 0 && state.progress(
            len,
            elapsed_nanos,
        ).expected_time_left == 0,
{
    let progress = state.progress(len, elapsed_nanos);
    if progress.current > 0 && elapsed_nanos > 0 {
        let work = (progress.total_amount_left * elapsed_nanos) as int;
        let rate = progress.current * NANOS_PER_SECOND;
        assert(rate > 0) by (nonlinear_arith)
            requires
                rate == progress.current * NANOS_PER_SECOND,
                progress.current > 0,
                NANOS_PER_SECOND == 1_000_000_000,
        ;
        assert(work / rate >= 0) by (nonlinear_arith)
            requires
                work >= 0,
                rate > 0,
        ;
    }
}

/// The last part of a path holds no slash; it is the whole path where
/// that holds none.
pub proof fn lemma_file_name_has_no_slash(path: Seq<char>)
    ensures
        !file_name(path).contains('/'),
        file_name(path).len() <= path.len(),
        !path.contains('/') ==> file_name(path) == path,
    decreases path.len(),
{
    if path.len() > 0 && path.last() != '/' {
        let rest = path.drop_last();
        lemma_file_name_has_no_slash(rest);
        let name = file_name(path);
        assert forall|i: int| 0 <= i < name.len() implies name[i] != '/' by {
            if i < file_name(rest).len() {
                assert(file_name(rest).contains(file_name(rest)[i]));
            }
        }
        if !path.contains('/') {
            assert forall|i: int| 0 <= i < rest.len() implies rest[i] != '/' by {
                assert(path.contains(path[i]));
            }
            assert(name =~= path);
        }
    } else if path.len() > 0 {
        assert(path.contains(path.last()));
    } else {
        assert(file_name(path) =~= path);
    }
}

impl DownloadView {
    /// The state that the machine is in after it has been told `events`,
    /// one after the other.
    pub open spec fn after(self, events: Seq<EventView>) -> DownloadView
        decreases events.len(),
    {
        if events.len() == 0 {
            self
        } else {
            self.after(events.drop_last()).step(events.last()).0
        }
    }

    /// What the machine asks for when it is told the event at place `at`
    /// of `events`, having been told those before it.
    pub open spec fn answer(self, events: Seq<EventView>, at: int) -> ActionView {
        self.after(events.take(at)).step(events[at]).1
    }

    /// How far the machine has come: a number that no step lowers, and
    /// that grows when a file is requested and when the machine turns to
    /// the next file.
    pub open spec fn rank(self) -> nat {
        match self.phase {
            Phase::Ready => 0,
            Phase::Directory => 3 * self.index + 1,
            Phase::Over => 3 * self.files.len() + 3,
            _ => 3 * self.index + 2,
        }
    }
}

/// Telling one event more is one step more.
proof fn lemma_after_one_more(state: DownloadView, events: Seq<EventView>, at: int)
    requires
        0 <= at < events.len(),
    ensures
        state.after(events.take(at + 1)) == state.after(events.take(at)).step(events[at]).0,
{
    assert(events.take(at + 1).drop_last() =~= events.take(at));
}

/// A step never lowers the rank, and a request raises it from that of the
/// directory of its file.
proof fn lemma_step_raises_rank(state: DownloadView, event: EventView)
    requires
        state.wf(),
    ensures
        state.step(event).0.rank() >= state.rank(),
        state.step(event).1 is Request ==> state.rank() == 3 * state.index + 1 && state.step(
            event,
        ).0.rank() == 3 * state.index + 2,
{
}

/// Whatever the machine is told, its state stays well formed and the
/// batch stays what it was.
pub proof fn lemma_run_keeps_batch(state: DownloadView, events: Seq<EventView>)
    requires
        state.wf(),
    ensures
        state.after(events).wf(),
        state.after(events).files == state.files,
        state.after(events).provider == state.provider,
        state.after(events).total_download_size == state.total_download_size,
    decreases events.len(),
{
    if events.len() > 0 {
        lemma_run_keeps_batch(state, events.drop_last());
        lemma_step_keeps_batch(state.after(events.drop_last()), events.last());
    }
}

/// Whatever the machine is told, it never goes back: from one place in
/// the events to a later one, neither the file in progress, nor the bytes
/// received of the batch, nor the rank gets lower.
pub proof fn lemma_run_goes_forward(
    state: DownloadView,
    events: Seq<EventView>,
    from: int,
    to: int,
)
    requires
        state.wf(),
        0 <= from <= to <= events.len(),
    ensures
        state.after(events.take(from)).index <= state.after(events.take(to)).index,
        state.after(events.take(from)).total_downloaded <= state.after(
            events.take(to),
        ).total_downloaded,
        state.after(events.take(from)).rank() <= state.after(events.take(to)).rank(),
    decreases to - from,
{
    if from < to {
        lemma_run_goes_forward(state, events, from, to - 1);
        lemma_after_one_more(state, events, to - 1);
        let before = state.after(events.take(to - 1));
        lemma_run_keeps_batch(state, events.take(to - 1));
        lemma_step_goes_forward(before, events[to - 1]);
        lemma_step_raises_rank(before, events[to - 1]);
    }
}

/// Files are requested in the order of the batch, each at most once: of
/// two requests, the later one is for a later file. And each request is
/// for the file in progress, at the address listed for it.
pub proof fn lemma_requests_follow_the_batch(
    state: DownloadView,
    events: Seq<EventView>,
    first: int,
    second: int,
)
    requires
        state.wf(),
        0 <= first < second < events.len(),
        state.answer(events, first) is Request,
        state.answer(events, second) is Request,
    ensures
        state.after(events.take(first)).index < state.after(events.take(second)).index,
        state.after(events.take(second)).index < state.files.len(),
        state.answer(events, second) == (ActionView::Request {
            url: state.after(events.take(second)).current_url(),
            path: state.files[state.after(events.take(second)).index as int].path,
        }),
{
    let early = state.after(events.take(first));
    let late = state.after(events.take(second));
    lemma_run_keeps_batch(state, events.take(first));
    lemma_run_keeps_batch(state, events.take(second));
    lemma_step_raises_rank(early, events[first]);
    lemma_step_raises_rank(late, events[second]);
    lemma_after_one_more(state, events, first);
    lemma_run_goes_forward(state, events, first + 1, second);
    lemma_request_is_for_listed_address(late, events[second]);
}

/// Once the machine has asked to finish, it asks for nothing else,
/// whatever it is told: no directory, request, chunk or progress follows.
pub proof fn lemma_nothing_follows_the_end(
    state: DownloadView,
    events: Seq<EventView>,
    end: int,
    later: int,
)
    requires
        0 <= end < later < events.len(),
        state.answer(events, end) is Finish,
    ensures
        state.answer(events, later) == ActionView::Finish(Err(DownloadErrorView::OutOfTurn)),
        state.after(events.take(later)).phase == Phase::Over,
        state.after(events.take(later)).total_downloaded == state.after(
            events.take(end),
        ).total_downloaded,
    decreases later - end,
{
    lemma_after_one_more(state, events, end);
    lemma_finish_ends_batch(state.after(events.take(end)), events[end]);
    if later > end + 1 {
        assert(state.answer(events, later - 1) is Finish) by {
            lemma_nothing_follows_the_end(state, events, end, later - 1);
        }
        lemma_nothing_follows_the_end(state, events, end, later - 1);
        lemma_after_one_more(state, events, later - 1);
        lemma_over_is_final(state.after(events.take(later - 1)), events[later - 1]);
    }
    lemma_over_is_final(state.after(events.take(later)), events[later]);
}

/// A sink that refuses a progress stops the batch for good: the refusal
/// is answered by the end with the refusal as its error, and whatever the
/// machine is told afterwards, it asks for nothing more.
pub proof fn lemma_refusal_stops_everything(
    state: DownloadView,
    events: Seq<EventView>,
    at: int,
    later: int,
)
    requires
        0 <= at < later < events.len(),
        state.after(events.take(at)).phase == Phase::Sink,
        events[at] is SinkFailed,
    ensures
        state.answer(events, at) == ActionView::Finish(
            Err(DownloadErrorView::Sink(events[at]->SinkFailed_0)),
        ),
        state.answer(events, later) is Finish,
{
    lemma_sink_refusal_ends_batch(state.after(events.take(at)), events[at]->SinkFailed_0);
    lemma_nothing_follows_the_end(state, events, at, later);
}

/// Faults of the network pass one file over and faults of the local
/// machine end the batch. A refused or failed request and a body that
/// breaks off lead to a skip, after which the machine turns to the next
/// file. A directory or destination that cannot be created and a chunk
/// that cannot be written end the batch with their error.
pub proof fn lemma_faults(state: DownloadView, message: Seq<char>)
    requires
        state.wf(),
    ensures
        state.phase == Phase::Request ==> state.step(EventView::ResponseRefused(message))
            == state.skip(SkipReason::Refused, message) && state.step(
            EventView::RequestFailed(message),
        ) == state.skip(SkipReason::Unreachable, message) && state.step(
            EventView::FileFailed(message),
        ) == state.abort(DownloadErrorView::File(message)),
        state.phase == Phase::Body ==> state.step(EventView::ChunkFailed(message)) == state.skip(
            SkipReason::Interrupted,
            message,
        ) && state.step(EventView::WriteFailed(message)) == state.abort(
            DownloadErrorView::Write(message),
        ),
        state.phase == Phase::Directory ==> state.step(EventView::DirectoryFailed(message))
            == state.abort(DownloadErrorView::Directory(message)),
        state.phase.in_file() ==> state.skip(SkipReason::Refused, message).0.step(
            EventView::Noted,
        ) == state.turn_to(state.index + 1),
        state.abort(DownloadErrorView::Write(message)).0.phase == Phase::Over,
{
    if state.phase.in_file() {
        let skipped = state.skip(SkipReason::Refused, message).0;
        assert(skipped.turn_to(state.index + 1) == state.turn_to(state.index + 1));
    }
}

} // verus!
