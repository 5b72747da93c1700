//! The download of the pending files, as a machine that decides and never
//! waits: it is told what happened and answers with what to do next.
//!
//! Whoever drives the machine performs each action (creating directories,
//! requesting, reading and writing chunks, calling the progress sink) and
//! reports the outcome as the next event, until the machine finishes.

use vstd::prelude::*;
use vstd::string::*;
use crate::manifest::{files_view, PatchFile, PatchFileView, Provider, ProviderView};
use crate::progress::{Progress, ProgressView};
use crate::text::push_char;
use crate::reconcile::FileOperationView;
use crate::transaction::{lemma_pending_are_the_not_present, pending, Transaction};

pub mod laws;

verus! {

/// The longest estimate that a progress carries: one day, in seconds.
pub const MAX_ETA_SECONDS: u64 = 86400;

/// Nanoseconds in a second.
pub const NANOS_PER_SECOND: u64 = 1_000_000_000;

/// What the machine waits to be told.
#[derive(Debug, Clone, Copy, PartialEq, Eq, Structural)]
pub enum Phase {
    /// Nothing has been asked for yet.
    Ready,
    /// Whether the directory of the file in progress exists.
    Directory,
    /// Whether the request for the file in progress was answered and its
    /// destination created.
    Request,
    /// The next chunk of the file in progress.
    Body,
    /// What the sink said to the last progress.
    Sink,
    /// That the skipping of the file in progress has been noted.
    Skipped,
    /// Nothing any more: the batch is over.
    Over,
}

/// What happened to the last action.
#[derive(Debug)]
pub enum Event {
    /// The batch is to begin.
    Begin,
    /// The directory exists.
    DirectoryReady,
    /// The directory could not be created.
    DirectoryFailed(String),
    /// The provider answered with success and the destination was created.
    ResponseReady,
    /// The provider answered with another status than success.
    ResponseRefused(String),
    /// The request did not get through.
    RequestFailed(String),
    /// The destination could not be created.
    FileFailed(String),
    /// A chunk of `len` bytes arrived and was written, `elapsed_nanos`
    /// after the file was begun.
    Chunk { len: u64, elapsed_nanos: u64 },
    /// The body broke off.
    ChunkFailed(String),
    /// A chunk arrived and could not be written.
    WriteFailed(String),
    /// The body has ended.
    BodyEnded,
    /// The sink took the progress.
    SinkAccepted,
    /// The sink refused the progress.
    SinkFailed(String),
    /// The skipping of a file has been noted.
    Noted,
}

/// An event as a value of the model.
pub enum EventView {
    Begin,
    DirectoryReady,
    DirectoryFailed(Seq<char>),
    ResponseReady,
    ResponseRefused(Seq<char>),
    RequestFailed(Seq<char>),
    FileFailed(Seq<char>),
    Chunk { len: nat, elapsed_nanos: nat },
    ChunkFailed(Seq<char>),
    WriteFailed(Seq<char>),
    BodyEnded,
    SinkAccepted,
    SinkFailed(Seq<char>),
    Noted,
}

impl View for Event {
    type V = EventView;

    open spec fn view(&self) -> EventView {
        match self {
            Event::Begin => EventView::Begin,
            Event::DirectoryReady => EventView::DirectoryReady,
            Event::DirectoryFailed(message) => EventView::DirectoryFailed(message@),
            Event::ResponseReady => EventView::ResponseReady,
            Event::ResponseRefused(status) => EventView::ResponseRefused(status@),
            Event::RequestFailed(message) => EventView::RequestFailed(message@),
            Event::FileFailed(message) => EventView::FileFailed(message@),
            Event::Chunk { len, elapsed_nanos } => EventView::Chunk {
                len: *len as nat,
                elapsed_nanos: *elapsed_nanos as nat,
            },
            Event::ChunkFailed(message) => EventView::ChunkFailed(message@),
            Event::WriteFailed(message) => EventView::WriteFailed(message@),
            Event::BodyEnded => EventView::BodyEnded,
            Event::SinkAccepted => EventView::SinkAccepted,
            Event::SinkFailed(message) => EventView::SinkFailed(message@),
            Event::Noted => EventView::Noted,
        }
    }
}

/// Why a file is passed over while the batch goes on.
#[derive(Debug, Clone, Copy, PartialEq, Eq, Structural)]
pub enum SkipReason {
    /// The manifest lists no address for the provider asked for, nor for
    /// the provider with the key `none`.
    NoUrl,
    /// The provider answered with another status than success.
    Refused,
    /// The request did not get through.
    Unreachable,
    /// The body broke off.
    Interrupted,
}

/// Why the batch was ended before its last file.
#[derive(Debug)]
pub enum DownloadError {
    /// A directory could not be created.
    Directory(String),
    /// A destination could not be created.
    File(String),
    /// A chunk could not be written.
    Write(String),
    /// The sink refused a progress.
    Sink(String),
    /// An event came that answers no action of the machine.
    OutOfTurn,
}

/// An error as a value of the model.
pub enum DownloadErrorView {
    Directory(Seq<char>),
    File(Seq<char>),
    Write(Seq<char>),
    Sink(Seq<char>),
    OutOfTurn,
}

impl View for DownloadError {
    type V = DownloadErrorView;

    open spec fn view(&self) -> DownloadErrorView {
        match self {
            DownloadError::Directory(message) => DownloadErrorView::Directory(message@),
            DownloadError::File(message) => DownloadErrorView::File(message@),
            DownloadError::Write(message) => DownloadErrorView::Write(message@),
            DownloadError::Sink(message) => DownloadErrorView::Sink(message@),
            DownloadError::OutOfTurn => DownloadErrorView::OutOfTurn,
        }
    }
}

impl DownloadErrorView {
    /// The explanation of the error: what the failed action reported, and
    /// a fixed text for an event out of turn.
    pub open spec fn message(self) -> Seq<char> {
        match self {
            DownloadErrorView::Directory(message) => message,
            DownloadErrorView::File(message) => message,
            DownloadErrorView::Write(message) => message,
            DownloadErrorView::Sink(message) => message,
            DownloadErrorView::OutOfTurn =>
                "The download was told of something it had not asked for"@,
        }
    }
}

impl DownloadError {
    /// The explanation of the error.
    pub fn message(&self) -> (message: String)
        ensures
            message@ == self@.message(),
    {
        match self {
            DownloadError::Directory(message) => message.clone(),
            DownloadError::File(message) => message.clone(),
            DownloadError::Write(message) => message.clone(),
            DownloadError::Sink(message) => message.clone(),
            DownloadError::OutOfTurn => String::from_str(
                "The download was told of something it had not asked for",
            ),
        }
    }
}

/// What a user is told when a file is passed over: for a file without an
/// address, the provider asked for and the file; else the address tried
/// and what went wrong.
pub open spec fn skip_text(
    reason: SkipReason,
    path: Seq<char>,
    url: Seq<char>,
    detail: Seq<char>,
) -> Seq<char> {
    if reason == SkipReason::NoUrl {
        "No URL found for provider "@ + detail + " for file "@ + path
    } else {
        "Failed to download "@ + url + ": "@ + detail
    }
}

/// Writes what a user is told when a file is passed over.
pub fn skip_message(reason: SkipReason, path: &str, url: &str, detail: &str) -> (message: String)
    ensures
        message@ == skip_text(reason, path@, url@, detail@),
{
    match reason {
        SkipReason::NoUrl => {
            let mut message = String::from_str("No URL found for provider ");
            message.append(detail);
            message.append(" for file ");
            message.append(path);
            message
        },
        _ => {
            let mut message = String::from_str("Failed to download ");
            message.append(url);
            message.append(": ");
            message.append(detail);
            message
        },
    }
}

/// What is to be done next.
#[derive(Debug)]
pub enum Action {
    /// Make sure that the directory exists in which the file at `path`,
    /// below the base directory, will stand.
    CreateDirectory { path: String },
    /// Request `url` and create the file at `path` below the base
    /// directory to receive it.
    Request { url: String, path: String },
    /// Wait for the next chunk of the body and write it.
    ReadChunk,
    /// Hand the progress to the sink.
    Report(Progress),
    /// Tell the user that the file at `path` is passed over. `detail` is
    /// the key of the provider where no address is listed, and else what
    /// the event said; `url` is the address that was tried, if any.
    Skip { reason: SkipReason, path: String, url: String, detail: String },
    /// The batch is over, with this result.
    Finish(Result<(), DownloadError>),
}

/// An action as a value of the model.
pub enum ActionView {
    CreateDirectory { path: Seq<char> },
    Request { url: Seq<char>, path: Seq<char> },
    ReadChunk,
    Report(ProgressView),
    Skip { reason: SkipReason, path: Seq<char>, url: Seq<char>, detail: Seq<char> },
    Finish(Result<(), DownloadErrorView>),
}

impl View for Action {
    type V = ActionView;

    open spec fn view(&self) -> ActionView {
        match self {
            Action::CreateDirectory { path } => ActionView::CreateDirectory { path: path@ },
            Action::Request { url, path } => ActionView::Request { url: url@, path: path@ },
            Action::ReadChunk => ActionView::ReadChunk,
            Action::Report(progress) => ActionView::Report(progress@),
            Action::Skip { reason, path, url, detail } => ActionView::Skip {
                reason: *reason,
                path: path@,
                url: url@,
                detail: detail@,
            },
            Action::Finish(result) => ActionView::Finish(
                match result {
                    Ok(_) => Ok(()),
                    Err(error) => Err(error@),
                },
            ),
        }
    }
}

/// The last part of a path: what follows its last slash, and the whole
/// path where it has none.
pub open spec fn file_name(path: Seq<char>) -> Seq<char>
    decreases path.len(),
{
    if path.len() == 0 || path.last() == '/' {
        Seq::empty()
    } else {
        file_name(path.drop_last()).push(path.last())
    }
}

/// The smaller of two numbers.
pub open spec fn least(a: int, b: int) -> int {
    if a <= b {
        a
    } else {
        b
    }
}

/// `a + b`, and the largest `u64` where the sum is larger.
pub open spec fn capped_sum(a: nat, b: nat) -> nat {
    least((a + b) as int, u64::MAX as int) as nat
}

/// Bytes per second when `downloaded` bytes took `elapsed_nanos`: whole
/// bytes, at most the largest `u64`, and 0 where no time has passed.
pub open spec fn speed_of(downloaded: nat, elapsed_nanos: nat) -> nat {
    if elapsed_nanos == 0 {
        0
    } else {
        least((downloaded * NANOS_PER_SECOND) / (elapsed_nanos as int), u64::MAX as int) as nat
    }
}

/// Whole seconds that `left` bytes take at the speed at which
/// `downloaded` bytes took `elapsed_nanos`, at most a day; 0 where that
/// speed is 0.
pub open spec fn eta_of(left: nat, downloaded: nat, elapsed_nanos: nat) -> nat {
    if downloaded == 0 || elapsed_nanos == 0 {
        0
    } else {
        least(
            (left * elapsed_nanos) as int / (downloaded * NANOS_PER_SECOND),
            MAX_ETA_SECONDS as int,
        ) as nat
    }
}

/// What is left of `total` after `done`, and 0 where more is done.
pub open spec fn left_of(total: int, done: nat) -> nat {
    if total > done {
        (total - done) as nat
    } else {
        0
    }
}

/// The machine.
#[derive(Debug)]
pub struct Download {
    files: Vec<PatchFile>,
    provider: Provider,
    total_download_size: i64,
    phase: Phase,
    index: usize,
    downloaded: u64,
    total_downloaded: u64,
}

/// A state of the machine as a value of the model.
pub struct DownloadView {
    /// The files to download, in their order.
    pub files: Seq<PatchFileView>,
    /// The provider asked for.
    pub provider: ProviderView,
    /// The expected length of the whole batch.
    pub total_download_size: int,
    pub phase: Phase,
    /// The place of the file in progress among `files`, counted from 0;
    /// their number once the last is done.
    pub index: nat,
    /// Bytes received of the file in progress.
    pub downloaded: nat,
    /// Bytes received of the whole batch.
    pub total_downloaded: nat,
}

impl View for Download {
    type V = DownloadView;

    closed spec fn view(&self) -> DownloadView {
        DownloadView {
            files: files_view(self.files@),
            provider: self.provider@,
            total_download_size: self.total_download_size as int,
            phase: self.phase,
            index: self.index as nat,
            downloaded: self.downloaded as nat,
            total_downloaded: self.total_downloaded as nat,
        }
    }
}

/// The expected files of a list of operations, in their order.
pub open spec fn files_of(operations: Seq<FileOperationView>) -> Seq<PatchFileView> {
    Seq::new(operations.len(), |i: int| operations[i].patch_file)
}

impl Phase {
    /// The machine is busy with the file in progress.
    pub open spec fn in_file(self) -> bool {
        self != Phase::Ready && self != Phase::Over
    }
}

impl DownloadView {
    /// The state before anything has been asked for.
    pub open spec fn initial(
        files: Seq<PatchFileView>,
        provider: ProviderView,
        total: int,
    ) -> DownloadView {
        DownloadView {
            files,
            provider,
            total_download_size: total,
            phase: Phase::Ready,
            index: 0,
            downloaded: 0,
            total_downloaded: 0,
        }
    }

    /// Sizes are byte counts, counters are in range, while the machine is
    /// busy with a file there is such a file, and before it begins nothing
    /// has been received.
    pub open spec fn wf(self) -> bool {
        &&& forall|i: int| 0 <= i < self.files.len() ==> (#[trigger] self.files[i]).wf()
        &&& self.files.len() <= usize::MAX
        &&& 0 <= self.total_download_size <= i64::MAX
        &&& self.index <= self.files.len()
        &&& self.phase.in_file() ==> self.index < self.files.len()
        &&& self.phase == Phase::Ready ==> self.index == 0 && self.total_downloaded == 0
        &&& self.downloaded <= u64::MAX
        &&& self.total_downloaded <= u64::MAX
    }

    /// The file in progress.
    pub open spec fn current(self) -> PatchFileView {
        self.files[self.index as int]
    }

    /// The batch ends with `error`.
    pub open spec fn abort(self, error: DownloadErrorView) -> (DownloadView, ActionView) {
        (DownloadView { phase: Phase::Over, ..self }, ActionView::Finish(Err(error)))
    }

    /// The machine turns to the file at `index`: its directory is asked
    /// for, or the batch ends well where there is no such file.
    pub open spec fn turn_to(self, index: nat) -> (DownloadView, ActionView) {
        if index < self.files.len() {
            (
                DownloadView { phase: Phase::Directory, index, downloaded: 0, ..self },
                ActionView::CreateDirectory { path: self.files[index as int].path },
            )
        } else {
            (
                DownloadView { phase: Phase::Over, index: self.files.len(), downloaded: 0, ..self },
                ActionView::Finish(Ok(())),
            )
        }
    }

    /// The address of the file in progress, and the empty text where it
    /// has none.
    pub open spec fn current_url(self) -> Seq<char> {
        match self.current().url_for(self.provider) {
            Some(url) => url,
            None => Seq::empty(),
        }
    }

    /// The file in progress is passed over.
    pub open spec fn skip(self, reason: SkipReason, detail: Seq<char>) -> (
        DownloadView,
        ActionView,
    ) {
        (
            DownloadView { phase: Phase::Skipped, ..self },
            ActionView::Skip { reason, path: self.current().path, url: self.current_url(), detail },
        )
    }

    /// The progress after a chunk of `len` bytes that arrived
    /// `elapsed_nanos` after the file in progress was begun.
    pub open spec fn progress(self, len: nat, elapsed_nanos: nat) -> ProgressView {
        let downloaded = capped_sum(self.downloaded, len);
        let total_downloaded = capped_sum(self.total_downloaded, len);
        let left = left_of(self.total_download_size, total_downloaded);
        ProgressView {
            current: downloaded,
            file_index: self.index + 1,
            total_files: self.files.len(),
            speed: speed_of(downloaded, elapsed_nanos),
            file_size: self.current().size as nat,
            elapsed_nanos,
            filename: file_name(self.current().path),
            total_size_downloaded: total_downloaded,
            total_amount_left: left,
            expected_time_left: eta_of(left, downloaded, elapsed_nanos),
            total_download_size: self.total_download_size,
        }
    }

    /// What the machine does when `event` comes: the state it goes to and
    /// the action it asks for.
    ///
    /// Files are taken in their order. For each, the directory is asked
    /// for, then the address is looked up and requested, then chunk after
    /// chunk is read, each followed by a progress for the sink. A file
    /// without an address, a refused or failed request and a body that
    /// breaks off pass the file over and the batch goes on. A directory or
    /// destination that cannot be created, a chunk that cannot be written
    /// and a sink that refuses end the batch at once, as does an event that
    /// answers no action.
    pub open spec fn step(self, event: EventView) -> (DownloadView, ActionView) {
        match (self.phase, event) {
            (Phase::Ready, EventView::Begin) => self.turn_to(0),
            (Phase::Directory, EventView::DirectoryReady) => match self.current().url_for(
                self.provider,
            ) {
                Some(url) => (
                    DownloadView { phase: Phase::Request, ..self },
                    ActionView::Request { url, path: self.current().path },
                ),
                None => self.skip(SkipReason::NoUrl, self.provider.key()),
            },
            (Phase::Directory, EventView::DirectoryFailed(message)) => self.abort(
                DownloadErrorView::Directory(message),
            ),
            (Phase::Request, EventView::ResponseReady) => (
                DownloadView { phase: Phase::Body, downloaded: 0, ..self },
                ActionView::ReadChunk,
            ),
            (Phase::Request, EventView::ResponseRefused(status)) => self.skip(
                SkipReason::Refused,
                status,
            ),
            (Phase::Request, EventView::RequestFailed(message)) => self.skip(
                SkipReason::Unreachable,
                message,
            ),
            (Phase::Request, EventView::FileFailed(message)) => self.abort(
                DownloadErrorView::File(message),
            ),
            (Phase::Body, EventView::Chunk { len, elapsed_nanos }) => (
                DownloadView {
                    phase: Phase::Sink,
                    downloaded: capped_sum(self.downloaded, len),
                    total_downloaded: capped_sum(self.total_downloaded, len),
                    ..self
                },
                ActionView::Report(self.progress(len, elapsed_nanos)),
            ),
            (Phase::Body, EventView::ChunkFailed(message)) => self.skip(
                SkipReason::Interrupted,
                message,
            ),
            (Phase::Body, EventView::WriteFailed(message)) => self.abort(
                DownloadErrorView::Write(message),
            ),
            (Phase::Body, EventView::BodyEnded) => self.turn_to(self.index + 1),
            (Phase::Sink, EventView::SinkAccepted) => (
                DownloadView { phase: Phase::Body, ..self },
                ActionView::ReadChunk,
            ),
            (Phase::Sink, EventView::SinkFailed(message)) => self.abort(
                DownloadErrorView::Sink(message),
            ),
            (Phase::Skipped, EventView::Noted) => self.turn_to(self.index + 1),
            _ => self.abort(DownloadErrorView::OutOfTurn),
        }
    }
}

fn file_name_of(path: &str) -> (name: String)
    ensures
        name@ == file_name(path@),
{
    let mut name = String::new();
    assert(path@.take(0) =~= Seq::<char>::empty());
    for c in it: path.chars()
        invariant
            it.seq() == path@,
            name@ == file_name(path@.take(it.index() as int)),
    {
        let ghost seen = path@.take(it.index() + 1);
        assert(seen.drop_last() =~= path@.take(it.index() as int));
        assert(seen.last() == c);
        if c == '/' {
            name = String::new();
        } else {
            push_char(&mut name, c);
        }
    }
    assert(path@.take(path@.len() as int) =~= path@);
    name
}

fn capped_add(a: u64, b: u64) -> (sum: u64)
    ensures
        sum == capped_sum(a as nat, b as nat),
{
    if a > u64::MAX - b {
        u64::MAX
    } else {
        a + b
    }
}

fn speed(downloaded: u64, elapsed_nanos: u64) -> (speed: u64)
    ensures
        speed == speed_of(downloaded as nat, elapsed_nanos as nat),
{
    if elapsed_nanos == 0 {
        0
    } else {
        assert(downloaded * NANOS_PER_SECOND <= 0xffff_ffff_ffff_ffff * 1_000_000_000)
            by (nonlinear_arith)
            requires
                downloaded <= 0xffff_ffff_ffff_ffff,
                NANOS_PER_SECOND == 1_000_000_000,
        ;
        let scaled: u128 = downloaded as u128 * NANOS_PER_SECOND as u128;
        let speed: u128 = scaled / (elapsed_nanos as u128);
        if speed > u64::MAX as u128 {
            u64::MAX
        } else {
            speed as u64
        }
    }
}

fn eta(left: u64, downloaded: u64, elapsed_nanos: u64) -> (seconds: u64)
    ensures
        seconds == eta_of(left as nat, downloaded as nat, elapsed_nanos as nat),
        seconds <= MAX_ETA_SECONDS,
{
    if downloaded == 0 || elapsed_nanos == 0 {
        0
    } else {
        assert(left * elapsed_nanos <= 0xffff_ffff_ffff_ffff * 0xffff_ffff_ffff_ffff)
            by (nonlinear_arith)
            requires
                left <= 0xffff_ffff_ffff_ffff,
                elapsed_nanos <= 0xffff_ffff_ffff_ffff,
        ;
        let work: u128 = left as u128 * elapsed_nanos as u128;
        assert(0 < downloaded * NANOS_PER_SECOND <= 0xffff_ffff_ffff_ffff * 1_000_000_000)
            by (nonlinear_arith)
            requires
                0 < downloaded <= 0xffff_ffff_ffff_ffff,
                NANOS_PER_SECOND == 1_000_000_000,
        ;
        let rate: u128 = downloaded as u128 * NANOS_PER_SECOND as u128;
        let seconds: u128 = work / rate;
        if seconds > MAX_ETA_SECONDS as u128 {
            MAX_ETA_SECONDS
        } else {
            seconds as u64
        }
    }
}

impl Download {
    /// The machine for the pending files of `transaction`, to be asked for
    /// from `provider`. Nothing has been asked for yet.
    pub fn new(transaction: &Transaction, provider: Provider) -> (download: Download)
        requires
            transaction@.wf(),
        ensures
            download@ == DownloadView::initial(
                files_of(pending(transaction@.operations)),
                provider@,
                crate::transaction::total_download_size(transaction@.operations),
            ),
            download@.wf(),
    {
        let found = transaction.pending();
        let ghost picked = pending(transaction@.operations);
        proof {
            lemma_pending_are_the_not_present(transaction@.operations);
        }
        let mut files: Vec<PatchFile> = Vec::new();
        let mut i: usize = 0;
        while i < found.len()
            invariant
                i <= found.len(),
                crate::reconcile::borrowed_view(found@) == picked,
                files@.len() == i,
                forall|j: int| 0 <= j < i ==> (#[trigger] files@[j])@ == picked[j].patch_file,
            decreases found.len() - i,
        {
            assert(crate::reconcile::borrowed_view(found@)[i as int] == found@[i as int]@);
            files.push(found[i].patch_file().clone());
            i = i + 1;
        }
        assert(files_view(files@) =~= files_of(picked));
        assert forall|j: int| 0 <= j < files_view(files@).len() implies (#[trigger] files_view(
            files@,
        )[j]).wf() by {
            let all = transaction@.operations;
            assert(all.contains(picked[j]));
            let at = choose|at: int| 0 <= at < all.len() && all[at] == picked[j];
            assert(all[at].wf());
        }
        Download {
            files,
            provider,
            total_download_size: transaction.total_download_size(),
            phase: Phase::Ready,
            index: 0,
            downloaded: 0,
            total_downloaded: 0,
        }
    }

    /// What the machine waits to be told.
    pub fn phase(&self) -> (phase: Phase)
        ensures
            phase == self@.phase,
    {
        self.phase
    }

    /// Whether the batch is over.
    pub fn is_over(&self) -> (over: bool)
        ensures
            over == (self@.phase == Phase::Over),
    {
        self.phase == Phase::Over
    }

    /// Bytes received of the whole batch so far.
    pub fn total_downloaded(&self) -> (bytes: u64)
        ensures
            bytes == self@.total_downloaded,
    {
        self.total_downloaded
    }

    fn abort(&mut self, error: DownloadError) -> (action: Action)
        requires
            old(self)@.wf(),
        ensures
            (final(self)@, action@) == old(self)@.abort(error@),
            final(self)@.wf(),
    {
        self.phase = Phase::Over;
        Action::Finish(Err(error))
    }

    fn turn_to(&mut self, index: usize) -> (action: Action)
        requires
            old(self)@.wf(),
            index <= old(self)@.files.len(),
        ensures
            (final(self)@, action@) == old(self)@.turn_to(index as nat),
            final(self)@.wf(),
    {
        self.downloaded = 0;
        if index < self.files.len() {
            self.phase = Phase::Directory;
            self.index = index;
            Action::CreateDirectory { path: self.files[index].path.clone() }
        } else {
            self.phase = Phase::Over;
            self.index = self.files.len();
            Action::Finish(Ok(()))
        }
    }

    fn skip(&mut self, reason: SkipReason, detail: String) -> (action: Action)
        requires
            old(self)@.wf(),
            old(self)@.phase.in_file(),
        ensures
            (final(self)@, action@) == old(self)@.skip(reason, detail@),
            final(self)@.wf(),
    {
        let file = &self.files[self.index];
        let url = match file.get_url(&self.provider) {
            Some(url) => url.clone(),
            None => String::new(),
        };
        let action = Action::Skip { reason, path: file.path.clone(), url, detail };
        self.phase = Phase::Skipped;
        action
    }

    fn report(&mut self, len: u64, elapsed_nanos: u64) -> (action: Action)
        requires
            old(self)@.wf(),
            old(self)@.phase == Phase::Body,
        ensures
            (final(self)@, action@) == old(self)@.step(
                EventView::Chunk { len: len as nat, elapsed_nanos: elapsed_nanos as nat },
            ),
            final(self)@.wf(),
    {
        let file = &self.files[self.index];
        assert(self@.files[self.index as int].wf());
        let downloaded = capped_add(self.downloaded, len);
        let total_downloaded = capped_add(self.total_downloaded, len);
        let total = self.total_download_size as u64;
        let left: u64 = if total > total_downloaded {
            total - total_downloaded
        } else {
            0
        };
        let progress = Progress {
            current: downloaded,
            file_index: self.index + 1,
            total_files: self.files.len(),
            speed: speed(downloaded, elapsed_nanos),
            file_size: file.size as u64,
            elapsed_nanos,
            filename: file_name_of(file.path.as_str()),
            total_size_downloaded: total_downloaded,
            total_amount_left: left,
            expected_time_left: eta(left, downloaded, elapsed_nanos),
            total_download_size: self.total_download_size,
        };
        self.downloaded = downloaded;
        self.total_downloaded = total_downloaded;
        self.phase = Phase::Sink;
        Action::Report(progress)
    }

    /// Tells the machine what happened to its last action and returns what
    /// is to be done next.
    pub fn step(&mut self, event: Event) -> (action: Action)
        requires
            old(self)@.wf(),
        ensures
            (final(self)@, action@) == old(self)@.step(event@),
            final(self)@.wf(),
    {
        match self.phase {
            Phase::Ready => match event {
                Event::Begin => self.turn_to(0),
                _ => self.abort(DownloadError::OutOfTurn),
            },
            Phase::Directory => match event {
                Event::DirectoryReady => {
                    let file = &self.files[self.index];
                    match file.get_url(&self.provider) {
                        Some(url) => {
                            let action = Action::Request {
                                url: url.clone(),
                                path: file.path.clone(),
                            };
                            self.phase = Phase::Request;
                            action
                        },
                        None => {
                            let key = String::from_str(self.provider.key());
                            self.skip(SkipReason::NoUrl, key)
                        },
                    }
                },
                Event::DirectoryFailed(message) => self.abort(DownloadError::Directory(message)),
                _ => self.abort(DownloadError::OutOfTurn),
            },
            Phase::Request => match event {
                Event::ResponseReady => {
                    self.downloaded = 0;
                    self.phase = Phase::Body;
                    Action::ReadChunk
                },
                Event::ResponseRefused(status) => self.skip(SkipReason::Refused, status),
                Event::RequestFailed(message) => self.skip(SkipReason::Unreachable, message),
                Event::FileFailed(message) => self.abort(DownloadError::File(message)),
                _ => self.abort(DownloadError::OutOfTurn),
            },
            Phase::Body => match event {
                Event::Chunk { len, elapsed_nanos } => self.report(len, elapsed_nanos),
                Event::ChunkFailed(message) => self.skip(SkipReason::Interrupted, message),
                Event::WriteFailed(message) => self.abort(DownloadError::Write(message)),
                Event::BodyEnded => {
                    let next = self.index + 1;
                    self.turn_to(next)
                },
                _ => self.abort(DownloadError::OutOfTurn),
            },
            Phase::Sink => match event {
                Event::SinkAccepted => {
                    self.phase = Phase::Body;
                    Action::ReadChunk
                },
                Event::SinkFailed(message) => self.abort(DownloadError::Sink(message)),
                _ => self.abort(DownloadError::OutOfTurn),
            },
            Phase::Skipped => match event {
                Event::Noted => {
                    let next = self.index + 1;
                    self.turn_to(next)
                },
                _ => self.abort(DownloadError::OutOfTurn),
            },
            Phase::Over => self.abort(DownloadError::OutOfTurn),
        }
    }
}

impl Transaction {
    /// The machine that downloads the pending files of this transaction
    /// from `provider`. Nothing has been asked for yet: whoever drives the
    /// machine begins by telling it `Event::Begin`.
    pub fn download(&self, provider: Provider) -> (download: Download)
        requires
            self@.wf(),
        ensures
            download@ == DownloadView::initial(
                files_of(pending(self@.operations)),
                provider@,
                crate::transaction::total_download_size(self@.operations),
            ),
            download@.wf(),
    {
        Download::new(self, provider)
    }
}

} // verus!
