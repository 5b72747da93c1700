//! What a transaction reports: the files by status with their sizes, the
//! totals, and the same as lines of text for a person to read.

use vstd::prelude::*;
use vstd::string::*;
use crate::size::{binary_size_text, format_size_binary};
use crate::text::{decimal, push_decimal};
use crate::reconcile::{borrowed_view, FileOperation, FileOperationView, Status};
use crate::transaction::{
    disk_space_change, lemma_group_members, pending, total_download_size, with_status,
    Transaction, TransactionView,
};

verus! {

/// One file of a report.
#[derive(Debug)]
pub struct FileReport {
    pub path: String,
    /// The length on disk, and nothing where the file is missing.
    pub current_size: Option<i64>,
    /// The expected length.
    pub new_size: i64,
}

/// One file of a report as a value of the model.
pub struct FileReportView {
    pub path: Seq<char>,
    pub current_size: Option<int>,
    pub new_size: int,
}

impl View for FileReport {
    type V = FileReportView;

    open spec fn view(&self) -> FileReportView {
        FileReportView {
            path: self.path@,
            current_size: match self.current_size {
                Some(size) => Some(size as int),
                None => None,
            },
            new_size: self.new_size as int,
        }
    }
}

/// The model of a list of reported files.
pub open spec fn reports_view(reports: Seq<FileReport>) -> Seq<FileReportView> {
    Seq::new(reports.len(), |i: int| reports[i]@)
}

/// What is reported of one operation.
pub open spec fn reported(operation: FileOperationView) -> FileReportView {
    FileReportView {
        path: operation.patch_file.path,
        current_size: if operation.status == Status::Missing {
            None
        } else {
            Some(operation.size)
        },
        new_size: operation.patch_file.size,
    }
}

/// What is reported of each of a list of operations, in their order.
pub open spec fn reported_all(operations: Seq<FileOperationView>) -> Seq<FileReportView> {
    Seq::new(operations.len(), |i: int| reported(operations[i]))
}

/// The report of a transaction.
#[derive(Debug)]
pub struct TransactionReport {
    pub version: String,
    pub uid: String,
    pub up_to_date_files: Vec<FileReport>,
    pub outdated_files: Vec<FileReport>,
    pub missing_files: Vec<FileReport>,
    pub total_download_size: u64,
    pub disk_space_change: i64,
    pub base_path: String,
}

/// A report as a value of the model.
pub struct TransactionReportView {
    pub version: Seq<char>,
    pub uid: Seq<char>,
    pub up_to_date_files: Seq<FileReportView>,
    pub outdated_files: Seq<FileReportView>,
    pub missing_files: Seq<FileReportView>,
    pub total_download_size: int,
    pub disk_space_change: int,
    pub base_path: Seq<char>,
}

impl View for TransactionReport {
    type V = TransactionReportView;

    open spec fn view(&self) -> TransactionReportView {
        TransactionReportView {
            version: self.version@,
            uid: self.uid@,
            up_to_date_files: reports_view(self.up_to_date_files@),
            outdated_files: reports_view(self.outdated_files@),
            missing_files: reports_view(self.missing_files@),
            total_download_size: self.total_download_size as int,
            disk_space_change: self.disk_space_change as int,
            base_path: self.base_path@,
        }
    }
}

/// The report of a transaction: its files in three groups by status, each
/// in the order of the manifest, and its two totals.
pub open spec fn report_of(transaction: TransactionView) -> TransactionReportView {
    TransactionReportView {
        version: transaction.version,
        uid: transaction.uid,
        up_to_date_files: reported_all(with_status(transaction.operations, Status::Present)),
        outdated_files: reported_all(with_status(transaction.operations, Status::OutOfDate)),
        missing_files: reported_all(with_status(transaction.operations, Status::Missing)),
        total_download_size: total_download_size(transaction.operations),
        disk_space_change: disk_space_change(transaction.operations),
        base_path: transaction.base_path,
    }
}

fn report_group(found: &Vec<&FileOperation>) -> (reports: Vec<FileReport>)
    ensures
        reports_view(reports@) == reported_all(borrowed_view(found@)),
{
    let mut reports: Vec<FileReport> = Vec::new();
    let mut i: usize = 0;
    while i < found.len()
        invariant
            i <= found.len(),
            reports@.len() == i,
            forall|j: int| 0 <= j < i ==> (#[trigger] reports@[j])@ == reported(found@[j]@),
        decreases found.len() - i,
    {
        let operation = found[i];
        let current_size = match operation.status() {
            Status::Missing => None,
            _ => Some(operation.size()),
        };
        reports.push(
            FileReport {
                path: operation.patch_file().path.clone(),
                current_size,
                new_size: operation.patch_file().size,
            },
        );
        i = i + 1;
    }
    assert(reports_view(reports@) =~= reported_all(borrowed_view(found@)));
    reports
}

impl Transaction {
    /// The report of the transaction.
    pub fn generate_report(&self) -> (report: TransactionReport)
        requires
            self@.wf(),
        ensures
            report@ == report_of(self@),
            report@.wf(),
    {
        proof {
            lemma_report_wf(self@);
        }
        TransactionReport {
            version: self.version().clone(),
            uid: self.uid().clone(),
            up_to_date_files: report_group(&self.up_to_date()),
            outdated_files: report_group(&self.outdated()),
            missing_files: report_group(&self.missing()),
            total_download_size: self.total_download_size() as u64,
            disk_space_change: self.disk_space_change(),
            base_path: self.base_path().clone(),
        }
    }
}

/// Which group a line of the summary belongs to; a terminal may give each
/// its own colour.
#[derive(Debug, Clone, Copy, PartialEq, Eq, Structural)]
pub enum Tone {
    /// No group.
    Plain,
    /// Files that are present.
    UpToDate,
    /// Files that are out of date.
    Outdated,
    /// Files that are missing.
    Missing,
}

/// One line of the summary. Its text is `lead`, `marked` and `rest` in
/// turn; `marked` is the part that carries the tone.
#[derive(Debug)]
pub struct SummaryLine {
    pub tone: Tone,
    pub lead: String,
    pub marked: String,
    pub rest: String,
}

/// A line of the summary as a value of the model.
pub struct SummaryLineView {
    pub tone: Tone,
    pub lead: Seq<char>,
    pub marked: Seq<char>,
    pub rest: Seq<char>,
}

impl View for SummaryLine {
    type V = SummaryLineView;

    open spec fn view(&self) -> SummaryLineView {
        SummaryLineView {
            tone: self.tone,
            lead: self.lead@,
            marked: self.marked@,
            rest: self.rest@,
        }
    }
}

impl SummaryLineView {
    /// The whole text of the line.
    pub open spec fn text(self) -> Seq<char> {
        self.lead + self.marked + self.rest
    }
}

/// The model of a list of summary lines.
pub open spec fn lines_view(lines: Seq<SummaryLine>) -> Seq<SummaryLineView> {
    Seq::new(lines.len(), |i: int| lines[i]@)
}

/// A size of the model written with binary units.
pub open spec fn size_text(size: int) -> Seq<char> {
    binary_size_text(size as u64)
}

/// A line without a tone.
pub open spec fn plain_line(text: Seq<char>) -> SummaryLineView {
    SummaryLineView { tone: Tone::Plain, lead: text, marked: Seq::empty(), rest: Seq::empty() }
}

/// The line that opens a group: an empty line, then the title in the tone
/// of the group.
pub open spec fn heading_line(tone: Tone, title: Seq<char>) -> SummaryLineView {
    SummaryLineView { tone, lead: "\n "@, marked: title, rest: Seq::empty() }
}

/// The line of a file that is up to date.
pub open spec fn up_to_date_line(file: FileReportView) -> SummaryLineView {
    SummaryLineView {
        tone: Tone::UpToDate,
        lead: "  "@,
        marked: file.path,
        rest: " (Size: "@ + size_text(file.new_size) + ")"@,
    }
}

/// The size on disk that a line shows: 0 where the file is missing.
pub open spec fn shown_current_size(file: FileReportView) -> int {
    match file.current_size {
        Some(size) => size,
        None => 0,
    }
}

/// The line of a file that is out of date.
pub open spec fn outdated_line(file: FileReportView) -> SummaryLineView {
    SummaryLineView {
        tone: Tone::Outdated,
        lead: "  "@,
        marked: file.path,
        rest: " (Current Size: "@ + size_text(shown_current_size(file)) + ", New Size: "@
            + size_text(file.new_size) + ")"@,
    }
}

/// The line of a file that is missing.
pub open spec fn missing_line(file: FileReportView) -> SummaryLineView {
    SummaryLineView {
        tone: Tone::Missing,
        lead: "  "@,
        marked: file.path,
        rest: " (New Size: "@ + size_text(file.new_size) + ")"@,
    }
}

/// The line of a file in the group of the given tone.
pub open spec fn file_line(tone: Tone, file: FileReportView) -> SummaryLineView {
    match tone {
        Tone::Outdated => outdated_line(file),
        Tone::Missing => missing_line(file),
        _ => up_to_date_line(file),
    }
}

/// The lines of the files of one group, in their order.
pub open spec fn file_lines(tone: Tone, files: Seq<FileReportView>) -> Seq<SummaryLineView> {
    Seq::new(files.len(), |i: int| file_line(tone, files[i]))
}

/// The lines that open the summary.
pub open spec fn overview_lines(report: TransactionReportView) -> Seq<SummaryLineView> {
    seq![
        plain_line("\nManifest Overview:"@),
        plain_line(" Version: "@ + report.version),
        plain_line(" UID: "@ + report.uid),
        plain_line(" Base path: "@ + report.base_path),
    ]
}

/// The line on disk space: how much more is used where the tree grows, how
/// much is freed where it does not.
pub open spec fn disk_space_line(change: int) -> SummaryLineView {
    if change > 0 {
        plain_line(
            "After this operation, "@ + size_text(change)
                + " of additional disk space will be used."@,
        )
    } else {
        plain_line(
            "After this operation, "@ + size_text(-change) + " of disk space will be freed."@,
        )
    }
}

/// The lines that close the summary where `pending_count` files need a
/// download; none where no file does.
pub open spec fn closing_lines(report: TransactionReportView, pending_count: nat) -> Seq<
    SummaryLineView,
> {
    if pending_count > 0 {
        seq![
            plain_line("\nTransaction Summary:"@),
            plain_line(" Installing/Updating: "@ + decimal(pending_count) + " files"@),
            plain_line(
                "\nTotal size of inbound files is "@ + size_text(report.total_download_size)
                    + ". Need to download "@ + size_text(report.total_download_size) + "."@,
            ),
            disk_space_line(report.disk_space_change),
        ]
    } else {
        Seq::empty()
    }
}

/// The summary of a report: the overview, then the files that are up to
/// date, those out of date and those missing, each group under its
/// heading, then the totals where anything is pending.
pub open spec fn summary_of(report: TransactionReportView, pending_count: nat) -> Seq<
    SummaryLineView,
> {
    overview_lines(report) + seq![heading_line(Tone::UpToDate, "Up-to-date files:"@)] + file_lines(
        Tone::UpToDate,
        report.up_to_date_files,
    ) + seq![heading_line(Tone::Outdated, "Outdated files (will be updated):"@)] + file_lines(
        Tone::Outdated,
        report.outdated_files,
    ) + seq![heading_line(Tone::Missing, "Missing files (will be downloaded):"@)] + file_lines(
        Tone::Missing,
        report.missing_files,
    ) + closing_lines(report, pending_count)
}

/// The summary has a line for each of the four facts of the overview, for
/// each of the three headings and for each file, and four more for the
/// totals where anything is pending. The groups stand in the order
/// up to date, out of date, missing, each under its heading and in the
/// order of its files.
pub proof fn lemma_summary_shape(report: TransactionReportView, pending_count: nat)
    ensures
        ({
            let lines = summary_of(report, pending_count);
            let present = report.up_to_date_files.len() as int;
            let outdated = report.outdated_files.len() as int;
            let missing = report.missing_files.len() as int;
            &&& lines.len() == 7 + present + outdated + missing + (if pending_count > 0 {
                4int
            } else {
                0int
            })
            &&& lines[4] == heading_line(Tone::UpToDate, "Up-to-date files:"@)
            &&& forall|i: int|
                0 <= i < present ==> #[trigger] lines[5 + i] == up_to_date_line(
                    report.up_to_date_files[i],
                )
            &&& lines[5 + present] == heading_line(
                Tone::Outdated,
                "Outdated files (will be updated):"@,
            )
            &&& forall|i: int|
                0 <= i < outdated ==> #[trigger] lines[6 + present + i] == outdated_line(
                    report.outdated_files[i],
                )
            &&& lines[6 + present + outdated] == heading_line(
                Tone::Missing,
                "Missing files (will be downloaded):"@,
            )
            &&& forall|i: int|
                0 <= i < missing ==> #[trigger] lines[7 + present + outdated + i] == missing_line(
                    report.missing_files[i],
                )
        }),
{
}

impl FileReportView {
    /// Both sizes are byte counts.
    pub open spec fn wf(self) -> bool {
        &&& 0 <= self.new_size <= i64::MAX
        &&& 0 <= shown_current_size(self) <= i64::MAX
    }
}

/// Every file of a group is well formed.
pub open spec fn group_wf(files: Seq<FileReportView>) -> bool {
    forall|i: int| 0 <= i < files.len() ==> (#[trigger] files[i]).wf()
}

impl TransactionReportView {
    /// Every size is a byte count, and the totals can be held as sizes.
    pub open spec fn wf(self) -> bool {
        &&& group_wf(self.up_to_date_files)
        &&& group_wf(self.outdated_files)
        &&& group_wf(self.missing_files)
        &&& 0 <= self.total_download_size <= i64::MAX
        &&& i64::MIN <= self.disk_space_change <= i64::MAX
    }
}

/// What is reported of well-formed operations is well formed.
proof fn lemma_group_wf(operations: Seq<FileOperationView>, status: Status)
    requires
        forall|i: int| 0 <= i < operations.len() ==> (#[trigger] operations[i]).wf(),
    ensures
        group_wf(reported_all(with_status(operations, status))),
{
    lemma_group_members(operations, status);
    let picked = with_status(operations, status);
    assert forall|i: int| 0 <= i < reported_all(picked).len() implies (#[trigger] reported_all(
        picked,
    )[i]).wf() by {
        assert(operations.contains(picked[i]));
        let at = choose|at: int| 0 <= at < operations.len() && operations[at] == picked[i];
        assert(operations[at].wf());
    }
}

/// The report of a well-formed transaction is well formed.
pub proof fn lemma_report_wf(transaction: TransactionView)
    requires
        transaction.wf(),
    ensures
        report_of(transaction).wf(),
{
    lemma_group_wf(transaction.operations, Status::Present);
    lemma_group_wf(transaction.operations, Status::OutOfDate);
    lemma_group_wf(transaction.operations, Status::Missing);
    crate::transaction::lemma_totals_fit(transaction.operations);
}

fn plain(text: String) -> (line: SummaryLine)
    ensures
        line@ == plain_line(text@),
{
    SummaryLine { tone: Tone::Plain, lead: text, marked: String::new(), rest: String::new() }
}

fn labelled(label: &str, value: &str) -> (line: SummaryLine)
    ensures
        line@ == plain_line(label@ + value@),
{
    let mut text = String::from_str(label);
    text.append(value);
    plain(text)
}

fn heading(tone: Tone, title: &str) -> (line: SummaryLine)
    ensures
        line@ == heading_line(tone, title@),
{
    SummaryLine {
        tone,
        lead: String::from_str("\n "),
        marked: String::from_str(title),
        rest: String::new(),
    }
}

fn binary(size: i64) -> (text: String)
    requires
        size >= 0,
    ensures
        text@ == size_text(size as int),
{
    format_size_binary(size as u64)
}

fn line_of(tone: Tone, file: &FileReport) -> (line: SummaryLine)
    requires
        file@.wf(),
    ensures
        line@ == file_line(tone, file@),
{
    let mut rest = String::new();
    match tone {
        Tone::Outdated => {
            let current: i64 = match file.current_size {
                Some(size) => size,
                None => 0,
            };
            rest.append(" (Current Size: ");
            rest.append(binary(current).as_str());
            rest.append(", New Size: ");
            rest.append(binary(file.new_size).as_str());
            rest.append(")");
            assert(rest@ =~= outdated_line(file@).rest);
        },
        Tone::Missing => {
            rest.append(" (New Size: ");
            rest.append(binary(file.new_size).as_str());
            rest.append(")");
            assert(rest@ =~= missing_line(file@).rest);
        },
        _ => {
            rest.append(" (Size: ");
            rest.append(binary(file.new_size).as_str());
            rest.append(")");
            assert(rest@ =~= up_to_date_line(file@).rest);
        },
    }
    let tone_of_line = match tone {
        Tone::Outdated => Tone::Outdated,
        Tone::Missing => Tone::Missing,
        _ => Tone::UpToDate,
    };
    SummaryLine {
        tone: tone_of_line,
        lead: String::from_str("  "),
        marked: file.path.clone(),
        rest,
    }
}

fn push_group(lines: &mut Vec<SummaryLine>, tone: Tone, files: &Vec<FileReport>)
    requires
        group_wf(reports_view(files@)),
    ensures
        lines_view(final(lines)@) == lines_view(old(lines)@) + file_lines(
            tone,
            reports_view(files@),
        ),
{
    let ghost before = lines_view(lines@);
    let ghost all = file_lines(tone, reports_view(files@));
    let mut i: usize = 0;
    assert(lines_view(lines@) =~= before + all.take(0));
    while i < files.len()
        invariant
            i <= files.len(),
            all == file_lines(tone, reports_view(files@)),
            group_wf(reports_view(files@)),
            lines_view(lines@) == before + all.take(i as int),
        decreases files.len() - i,
    {
        assert(reports_view(files@)[i as int].wf());
        let line = line_of(tone, &files[i]);
        let ghost shown = lines_view(lines@);
        let ghost added = line@;
        lines.push(line);
        assert(lines_view(lines@) =~= shown.push(added));
        assert(all[i as int] == added);
        assert(shown.push(added) =~= before + all.take(i + 1));
        i = i + 1;
    }
    assert(all.take(i as int) =~= all);
}

fn disk_space(change: i64) -> (line: SummaryLine)
    ensures
        line@ == disk_space_line(change as int),
{
    let mut text = String::from_str("After this operation, ");
    if change > 0 {
        text.append(binary(change).as_str());
        text.append(" of additional disk space will be used.");
    } else {
        let freed: u64 = if change == i64::MIN {
            9223372036854775808u64
        } else {
            (-change) as u64
        };
        text.append(format_size_binary(freed).as_str());
        text.append(" of disk space will be freed.");
    }
    plain(text)
}

impl TransactionReport {
    /// The report as lines of text, closed by the totals where
    /// `pending_count` is not 0.
    pub fn summary(&self, pending_count: usize) -> (lines: Vec<SummaryLine>)
        requires
            self@.wf(),
        ensures
            lines_view(lines@) == summary_of(self@, pending_count as nat),
    {
        let mut lines: Vec<SummaryLine> = Vec::new();
        lines.push(plain(String::from_str("\nManifest Overview:")));
        lines.push(labelled(" Version: ", self.version.as_str()));
        lines.push(labelled(" UID: ", self.uid.as_str()));
        lines.push(labelled(" Base path: ", self.base_path.as_str()));
        let ghost opened = overview_lines(self@);
        assert(lines_view(lines@) =~= opened);
        lines.push(heading(Tone::UpToDate, "Up-to-date files:"));
        let ghost first_heading = opened + seq![heading_line(Tone::UpToDate, "Up-to-date files:"@)];
        assert(lines_view(lines@) =~= first_heading);
        push_group(&mut lines, Tone::UpToDate, &self.up_to_date_files);
        let ghost first_group = first_heading + file_lines(Tone::UpToDate, self@.up_to_date_files);
        assert(lines_view(lines@) =~= first_group);
        lines.push(heading(Tone::Outdated, "Outdated files (will be updated):"));
        let ghost second_heading = first_group + seq![
            heading_line(Tone::Outdated, "Outdated files (will be updated):"@),
        ];
        assert(lines_view(lines@) =~= second_heading);
        push_group(&mut lines, Tone::Outdated, &self.outdated_files);
        let ghost second_group = second_heading + file_lines(Tone::Outdated, self@.outdated_files);
        assert(lines_view(lines@) =~= second_group);
        lines.push(heading(Tone::Missing, "Missing files (will be downloaded):"));
        let ghost third_heading = second_group + seq![
            heading_line(Tone::Missing, "Missing files (will be downloaded):"@),
        ];
        assert(lines_view(lines@) =~= third_heading);
        push_group(&mut lines, Tone::Missing, &self.missing_files);
        let ghost body = third_heading + file_lines(Tone::Missing, self@.missing_files);
        assert(lines_view(lines@) =~= body);
        if pending_count > 0 {
            lines.push(plain(String::from_str("\nTransaction Summary:")));
            let mut count = String::from_str(" Installing/Updating: ");
            push_decimal(&mut count, pending_count as u64);
            count.append(" files");
            lines.push(plain(count));
            let total = format_size_binary(self.total_download_size);
            let mut inbound = String::from_str("\nTotal size of inbound files is ");
            inbound.append(total.as_str());
            inbound.append(". Need to download ");
            inbound.append(total.as_str());
            inbound.append(".");
            lines.push(plain(inbound));
            lines.push(disk_space(self.disk_space_change));
            assert(lines_view(lines@) =~= body + closing_lines(self@, pending_count as nat));
        } else {
            assert(lines_view(lines@) =~= body + closing_lines(self@, pending_count as nat));
        }
        lines
    }
}

impl Transaction {
    /// The report of the transaction as lines of text.
    pub fn summary(&self) -> (lines: Vec<SummaryLine>)
        requires
            self@.wf(),
        ensures
            lines_view(lines@) == summary_of(report_of(self@), pending(self@.operations).len()),
    {
        let report = self.generate_report();
        report.summary(self.pending_count())
    }
}

impl SummaryLine {
    /// The whole text of the line.
    pub fn text(&self) -> (text: String)
        ensures
            text@ == self@.text(),
    {
        let mut text = self.lead.clone();
        text.append(self.marked.as_str());
        text.append(self.rest.as_str());
        text
    }
}

} // verus!
