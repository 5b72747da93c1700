//! The state of a running download as one line of text.

use vstd::prelude::*;
use vstd::string::*;
use crate::format::{eta_text, eta_to_human_readable};
use crate::size::{decimal_size_text, format_size_decimal};
use crate::text::{
    decimal, decimal_string, digit_char, padded_left, padded_right, push_char, push_decimal,
    push_padded_left, push_padded_right, push_repeated, repeated,
};

verus! {

/// The width of the column that holds the file name.
pub const MAX_FILENAME_LENGTH: usize = 20;

/// The number of cells in the bar.
pub const PROGRESS_BAR_WIDTH: usize = 20;

/// Where a download stands after one more chunk of a file has arrived.
#[derive(Debug)]
pub struct Progress {
    /// Bytes received of the file in progress.
    pub current: u64,
    /// The place of the file in the batch, counted from 1.
    pub file_index: usize,
    /// The number of files in the batch.
    pub total_files: usize,
    /// Bytes per second over the file in progress.
    pub speed: u64,
    /// The expected length of the file in progress.
    pub file_size: u64,
    /// Nanoseconds since the file in progress was begun.
    pub elapsed_nanos: u64,
    /// The name of the file in progress, without its directories.
    pub filename: String,
    /// Bytes received of the whole batch.
    pub total_size_downloaded: u64,
    /// Bytes of the whole batch still to come.
    pub total_amount_left: u64,
    /// Seconds that the rest of the batch is expected to take.
    pub expected_time_left: u64,
    /// The expected length of the whole batch.
    pub total_download_size: i64,
}

/// A state of a download as a value of the model.
pub struct ProgressView {
    pub current: nat,
    pub file_index: nat,
    pub total_files: nat,
    pub speed: nat,
    pub file_size: nat,
    pub elapsed_nanos: nat,
    pub filename: Seq<char>,
    pub total_size_downloaded: nat,
    pub total_amount_left: nat,
    pub expected_time_left: nat,
    pub total_download_size: int,
}

impl View for Progress {
    type V = ProgressView;

    open spec fn view(&self) -> ProgressView {
        ProgressView {
            current: self.current as nat,
            file_index: self.file_index as nat,
            total_files: self.total_files as nat,
            speed: self.speed as nat,
            file_size: self.file_size as nat,
            elapsed_nanos: self.elapsed_nanos as nat,
            filename: self.filename@,
            total_size_downloaded: self.total_size_downloaded as nat,
            total_amount_left: self.total_amount_left as nat,
            expected_time_left: self.expected_time_left as nat,
            total_download_size: self.total_download_size as int,
        }
    }
}

/// A file name in its column of twenty characters: filled up with spaces
/// where it is shorter, cut to seventeen characters and three dots where
/// it is longer.
pub open spec fn shown_name(name: Seq<char>) -> Seq<char> {
    if name.len() <= 20 {
        padded_right(name, 20)
    } else {
        name.take(17) + "..."@
    }
}

/// How many of the twenty cells of the bar are filled when `current` of
/// `total` bytes have arrived: the twentieths that are complete, and all
/// cells from `total` on. Of nothing, nothing is filled until a byte
/// arrives.
pub open spec fn filled_cells(current: nat, total: nat) -> nat {
    if current >= total {
        if current == 0 {
            0
        } else {
            20
        }
    } else {
        (current * 20) / total
    }
}

/// The bar: filled cells as dashes, then empty cells, between brackets.
pub open spec fn bar_text(current: nat, total: nat) -> Seq<char> {
    seq!['['] + repeated('-', filled_cells(current, total)) + repeated(
        ' ',
        (20 - filled_cells(current, total)) as nat,
    ) + seq![']']
}

/// The share of `total` that `current` is, in tenths of a percent, rounded
/// to the nearest tenth and upwards from the middle.
pub open spec fn percent_tenths(current: nat, total: nat) -> nat {
    if total == 0 {
        0
    } else {
        (2000 * current + total) / (2 * total)
    }
}

/// The share of `total` that `current` is, as a percentage with one
/// decimal.
pub open spec fn percent_text(current: nat, total: nat) -> Seq<char> {
    decimal(percent_tenths(current, total) / 10) + seq!['.'] + seq![
        digit_char((percent_tenths(current, total) % 10) as int),
    ]
}

/// The place in the batch: the index, set right in a column as wide as the
/// number of files, a slash and that number, in brackets.
pub open spec fn position_text(index: nat, total: nat) -> Seq<char> {
    seq!['['] + padded_left(decimal(index), decimal(total).len()) + seq!['/'] + decimal(total)
        + seq![']']
}

/// What every status line begins with: the codes that clear the line on a
/// terminal, then place, name and bar.
pub open spec fn line_head(progress: ProgressView) -> Seq<char> {
    "\r\x1B[2K\r"@ + position_text(progress.file_index, progress.total_files) + seq![' ']
        + padded_right(shown_name(progress.filename), 19) + seq![' '] + bar_text(
        progress.current,
        progress.file_size,
    ) + seq![' ']
}

/// The speed, in its column of eight characters.
pub open spec fn speed_text(progress: ProgressView) -> Seq<char> {
    padded_right(decimal_size_text(progress.speed as u64), 8) + "/s | "@
}

impl ProgressView {
    /// The file in progress has arrived in full.
    pub open spec fn is_complete(self) -> bool {
        self.current >= self.file_size
    }

    /// The bytes of the file in progress that are still to come.
    pub open spec fn file_left(self) -> nat {
        if self.current >= self.file_size {
            0
        } else {
            (self.file_size - self.current) as nat
        }
    }

    /// The status line. While the file is under way it shows place, name,
    /// bar, percentage, speed, size, bytes left and the time expected, and
    /// no line end, so that the next line overwrites it. Once the file is
    /// complete it shows `100% (complete)` in place of the percentage,
    /// leaves the bytes left out, and ends the line.
    pub open spec fn status_line(self) -> Seq<char> {
        if self.is_complete() {
            line_head(self) + "100% (complete) | "@ + speed_text(self) + decimal_size_text(
                self.file_size as u64,
            ) + " | ETA: "@ + eta_text(self.expected_time_left) + seq!['\n']
        } else {
            line_head(self) + padded_left(percent_text(self.current, self.file_size), 5) + "% | "@
                + speed_text(self) + decimal_size_text(self.file_size as u64) + " | "@
                + decimal_size_text(self.file_left() as u64) + " | ETA: "@ + eta_text(
                self.expected_time_left,
            )
        }
    }
}

/// Name and bar have the same width whatever they show: twenty
/// characters for the name, twenty cells between two brackets for the bar,
/// of which never more than twenty are filled.
pub proof fn lemma_columns_are_fixed(name: Seq<char>, current: nat, total: nat)
    ensures
        shown_name(name).len() == 20,
        filled_cells(current, total) <= 20,
        bar_text(current, total).len() == 22,
        current >= total && current > 0 ==> filled_cells(current, total) == 20,
{
    reveal_strlit("...");
    if current < total {
        assert((current * 20) / total < 20) by (nonlinear_arith)
            requires
                current < total,
        ;
    }
}

/// The percentage shown while a file is under way lies between 0.0 and
/// 100.0.
pub proof fn lemma_percent_in_range(current: nat, total: nat)
    requires
        current < total,
    ensures
        percent_tenths(current, total) <= 1000,
{
    assert((2000 * current + total) / (2 * total) <= 1000) by (nonlinear_arith)
        requires
            current < total,
    ;
}

fn filled(current: u64, total: u64) -> (cells: usize)
    ensures
        cells == filled_cells(current as nat, total as nat),
        cells <= 20,
{
    if current >= total {
        if current == 0 {
            0
        } else {
            20
        }
    } else {
        let scaled: u128 = current as u128 * 20;
        let cells: u128 = scaled / (total as u128);
        assert(cells < 20) by (nonlinear_arith)
            requires
                cells == scaled as int / total as int,
                scaled < 20 * total,
                total > 0,
        ;
        cells as usize
    }
}

fn tenths(current: u64, total: u64) -> (share: u64)
    requires
        current < total,
    ensures
        share == percent_tenths(current as nat, total as nat),
        share <= 1000,
{
    let doubled: u128 = 2000 * (current as u128) + total as u128;
    let twice: u128 = 2 * (total as u128);
    let share: u128 = doubled / twice;
    assert(share <= 1000) by (nonlinear_arith)
        requires
            share == doubled as int / twice as int,
            doubled < 1001 * twice,
            twice > 0,
    ;
    share as u64
}

impl Progress {
    /// Fits a file name into its column of twenty characters.
    pub fn truncate_filename(name: &str) -> (shown: String)
        ensures
            shown@ == shown_name(name@),
    {
        let len = name.unicode_len();
        let mut shown = String::new();
        if len <= MAX_FILENAME_LENGTH {
            push_padded_right(&mut shown, name, MAX_FILENAME_LENGTH);
        } else {
            shown.append(name.substring_char(0, MAX_FILENAME_LENGTH - 3));
            shown.append("...");
        }
        shown
    }

    /// Draws the bar for `current` of `total` bytes.
    pub fn create_progress_bar(current: u64, total: u64) -> (bar: String)
        ensures
            bar@ == bar_text(current as nat, total as nat),
    {
        let cells = filled(current, total);
        let mut bar = String::new();
        push_char(&mut bar, '[');
        push_repeated(&mut bar, '-', cells);
        push_repeated(&mut bar, ' ', PROGRESS_BAR_WIDTH - cells);
        push_char(&mut bar, ']');
        bar
    }

    /// Whether the file in progress has arrived in full.
    pub fn is_complete(&self) -> (complete: bool)
        ensures
            complete == self@.is_complete(),
    {
        self.current >= self.file_size
    }

    fn push_head(&self, line: &mut String)
        ensures
            final(line)@ == old(line)@ + line_head(self@),
    {
        let ghost before = line@;
        line.append("\r\x1B[2K\r");
        push_char(line, '[');
        let total = decimal_string(self.total_files as u64);
        let index = decimal_string(self.file_index as u64);
        push_padded_left(line, index.as_str(), total.as_str().unicode_len());
        push_char(line, '/');
        line.append(total.as_str());
        push_char(line, ']');
        assert(line@ =~= before + "\r\x1B[2K\r"@ + position_text(
            self@.file_index,
            self@.total_files,
        ));
        push_char(line, ' ');
        let name = Progress::truncate_filename(self.filename.as_str());
        push_padded_right(line, name.as_str(), MAX_FILENAME_LENGTH - 1);
        push_char(line, ' ');
        line.append(Progress::create_progress_bar(self.current, self.file_size).as_str());
        push_char(line, ' ');
        assert(line@ =~= before + line_head(self@));
    }

    fn push_speed(&self, line: &mut String)
        ensures
            final(line)@ == old(line)@ + speed_text(self@),
    {
        let ghost before = line@;
        push_padded_right(line, format_size_decimal(self.speed).as_str(), 8);
        line.append("/s | ");
        assert(line@ =~= before + speed_text(self@));
    }

    /// The status line for this state of the download.
    pub fn status_line(&self) -> (line: String)
        ensures
            line@ == self@.status_line(),
    {
        let mut line = String::new();
        self.push_head(&mut line);
        if self.current >= self.file_size {
            line.append("100% (complete) | ");
            self.push_speed(&mut line);
            line.append(format_size_decimal(self.file_size).as_str());
            line.append(" | ETA: ");
            line.append(eta_to_human_readable(self.expected_time_left).as_str());
            push_char(&mut line, '\n');
            assert(line@ =~= self@.status_line());
        } else {
            let share = tenths(self.current, self.file_size);
            let mut percent = String::new();
            push_decimal(&mut percent, share / 10);
            push_char(&mut percent, '.');
            push_decimal(&mut percent, share % 10);
            assert(percent@ =~= percent_text(self@.current, self@.file_size));
            push_padded_left(&mut line, percent.as_str(), 5);
            line.append("% | ");
            self.push_speed(&mut line);
            line.append(format_size_decimal(self.file_size).as_str());
            line.append(" | ");
            line.append(format_size_decimal(self.file_size - self.current).as_str());
            line.append(" | ETA: ");
            line.append(eta_to_human_readable(self.expected_time_left).as_str());
            assert(line@ =~= self@.status_line());
        }
        line
    }
}

} // verus!
