//! The report on a set of volumes: one row for each, in the order of their
//! root paths, under a header and above a row of totals.

use crate::disk::{ColumnLengths, DriveInfo};
use crate::format_utils::{
    format_byte_count, format_count, number_text, rounded_quotient, size_text, three_decimals,
};
use crate::path_order::{
    is_stable_sort_of, lemma_origin_holds_every_place, sort_by_root_path, sorted_from,
};
use crate::style::{
    header_style, is_styled, separator_style, style_header, style_separator, style_total,
    total_style,
};
use crate::text::{
    decimal_digits, decimal_string, digit_of, left_justified, left_justify, push_decimal,
    push_repeated, repeated, right_justified, right_justify,
};
use crate::time_utils::{duration_secs, duration_subsec_nanos, elapsed_text, format_elapsed};
use core::time::Duration;
use vstd::prelude::*;
use vstd::string::*;
use vstd::utf8::encode_utf8;

verus! {

/// A cell that shows a size is never narrower than this, so that sizes of
/// up to six digits before the point line up whatever the column's width.
pub const SIZE_CELL_MIN_WIDTH: usize = 12;

/// The characters that the separator line has besides the column widths:
/// four for each of the seven gaps between the columns.
pub const SEPARATOR_PADDING: usize = 28;

/// The sum of a sequence of numbers.
pub open spec fn sum_of(values: Seq<nat>) -> nat
    decreases values.len(),
{
    if values.len() == 0 {
        0
    } else {
        sum_of(values.drop_last()) + values.last()
    }
}

/// The file counts of the volumes, in their order.
pub open spec fn files_column(drives: Seq<DriveInfo>) -> Seq<nat> {
    Seq::new(drives.len(), |i: int| drives[i].num_files as nat)
}

/// The directory counts of the volumes, in their order.
pub open spec fn dirs_column(drives: Seq<DriveInfo>) -> Seq<nat> {
    Seq::new(drives.len(), |i: int| drives[i].num_dirs as nat)
}

/// The sizes of the volumes, in their order.
pub open spec fn total_space_column(drives: Seq<DriveInfo>) -> Seq<nat> {
    Seq::new(drives.len(), |i: int| drives[i].total_space as nat)
}

/// The free bytes of the volumes, in their order.
pub open spec fn available_space_column(drives: Seq<DriveInfo>) -> Seq<nat> {
    Seq::new(drives.len(), |i: int| drives[i].available_space as nat)
}

/// The length in bytes of the root path of a volume.
pub open spec fn path_length(drive: DriveInfo) -> nat {
    encode_utf8(drive.root_path@).len()
}

/// The length of the longest root path among the volumes, in bytes; zero
/// where there is no volume.
pub open spec fn longest_path_length(drives: Seq<DriveInfo>) -> nat
    decreases drives.len(),
{
    if drives.len() == 0 {
        0
    } else {
        let rest = longest_path_length(drives.drop_last());
        let last = path_length(drives.last());
        if last > rest {
            last
        } else {
            rest
        }
    }
}

/// What the report adds up over all volumes.
#[derive(Debug, Clone, Copy, PartialEq, Eq, Structural)]
pub struct Totals {
    /// The length of the longest root path, in bytes.
    pub longest_path_length: usize,
    pub total_files: u128,
    pub total_dirs: u128,
    pub total_space: u128,
    pub available_space: u128,
}

/// Whether `totals` holds, for each column, the sum of that column over all
/// the volumes, and the length of the longest root path.
pub open spec fn totals_of(drives: Seq<DriveInfo>, totals: Totals) -> bool {
    &&& totals.longest_path_length == longest_path_length(drives)
    &&& totals.total_files == sum_of(files_column(drives))
    &&& totals.total_dirs == sum_of(dirs_column(drives))
    &&& totals.total_space == sum_of(total_space_column(drives))
    &&& totals.available_space == sum_of(available_space_column(drives))
}

/// A sum of `n` numbers, none of them above `limit`, is at most `n * limit`.
proof fn lemma_sum_bound(values: Seq<nat>, limit: nat)
    requires
        forall|i: int| 0 <= i < values.len() ==> #[trigger] values[i] <= limit,
    ensures
        sum_of(values) <= values.len() * limit,
    decreases values.len(),
{
    if values.len() > 0 {
        lemma_sum_bound(values.drop_last(), limit);
        assert(values.len() * limit == values.drop_last().len() * limit + limit)
            by (nonlinear_arith)
            requires
                values.drop_last().len() + 1 == values.len(),
        ;
    }
}

/// Taking one number out of a sequence takes it off the sum.
proof fn lemma_sum_without(values: Seq<nat>, at: int)
    requires
        0 <= at < values.len(),
    ensures
        sum_of(values) == sum_of(values.remove(at)) + values[at],
    decreases values.len(),
{
    if at == values.len() - 1 {
        assert(values.remove(at) =~= values.drop_last());
    } else {
        lemma_sum_without(values.drop_last(), at);
        assert(values.remove(at).drop_last() =~= values.drop_last().remove(at));
        assert(values.remove(at).last() == values.last());
    }
}

/// The same numbers in another order have the same sum. `origin[i]` is the
/// place in `values` of the number that stands at place `i` of `moved`.
proof fn lemma_sum_of_permutation(values: Seq<nat>, moved: Seq<nat>, origin: Seq<int>)
    requires
        moved.len() == values.len(),
        origin.len() == values.len(),
        forall|i: int|
            0 <= i < origin.len() ==> 0 <= #[trigger] origin[i] < values.len() && moved[i]
                == values[origin[i]],
        forall|i: int, j: int|
            0 <= i < j < origin.len() ==> #[trigger] origin[i] != #[trigger] origin[j],
    ensures
        sum_of(moved) == sum_of(values),
    decreases values.len(),
{
    if values.len() > 0 {
        let last = values.len() - 1;
        let at = lemma_origin_holds_every_place(origin, last);
        let rest = values.drop_last();
        let moved_rest = moved.remove(at);
        let origin_rest = origin.remove(at);
        assert forall|i: int| 0 <= i < origin_rest.len() implies 0 <= #[trigger] origin_rest[i]
            < rest.len() && moved_rest[i] == rest[origin_rest[i]] by {
            if i < at {
                assert(origin_rest[i] == origin[i]);
                assert(origin[i] != origin[at]);
            } else {
                assert(origin_rest[i] == origin[i + 1]);
                assert(origin[at] != origin[i + 1]);
            }
        }
        assert forall|i: int, j: int| 0 <= i < j < origin_rest.len() implies #[trigger] origin_rest[i]
            != #[trigger] origin_rest[j] by {
            let from_i = if i < at {
                i
            } else {
                i + 1
            };
            let from_j = if j < at {
                j
            } else {
                j + 1
            };
            assert(origin_rest[i] == origin[from_i]);
            assert(origin_rest[j] == origin[from_j]);
            assert(origin[from_i] != origin[from_j]);
        }
        lemma_sum_of_permutation(rest, moved_rest, origin_rest);
        lemma_sum_without(moved, at);
    }
}

/// Sorting the volumes changes no total: the sums over the rows of a report
/// are the sums over the volumes as they were handed in.
pub proof fn lemma_sorting_keeps_totals(before: Seq<DriveInfo>, after: Seq<DriveInfo>)
    requires
        is_stable_sort_of(before, after),
    ensures
        sum_of(files_column(after)) == sum_of(files_column(before)),
        sum_of(dirs_column(after)) == sum_of(dirs_column(before)),
        sum_of(total_space_column(after)) == sum_of(total_space_column(before)),
        sum_of(available_space_column(after)) == sum_of(available_space_column(before)),
{
    let origin = choose|origin: Seq<int>| sorted_from(before, after, origin);
    assert forall|i: int| 0 <= i < origin.len() implies after[i] == before[#[trigger] origin[i]] by {}
    lemma_sum_of_permutation(files_column(before), files_column(after), origin);
    lemma_sum_of_permutation(dirs_column(before), dirs_column(after), origin);
    lemma_sum_of_permutation(total_space_column(before), total_space_column(after), origin);
    lemma_sum_of_permutation(
        available_space_column(before),
        available_space_column(after),
        origin,
    );
}

/// Adds up the counts and sizes of the volumes and finds the longest root
/// path. No sum can leave the range of its type: each has room for as many
/// values as a vector can hold.
pub fn accumulate_totals(drives: &Vec<DriveInfo>) -> (totals: Totals)
    ensures
        totals_of(drives@, totals),
{
    let mut totals = Totals {
        longest_path_length: 0,
        total_files: 0,
        total_dirs: 0,
        total_space: 0,
        available_space: 0,
    };
    let mut i: usize = 0;
    assert(drives@.take(0) =~= Seq::<DriveInfo>::empty());
    while i < drives.len()
        invariant
            i <= drives.len(),
            totals_of(drives@.take(i as int), totals),
        decreases drives.len() - i,
    {
        let drive = &drives[i];
        let ghost seen = drives@.take(i as int);
        let ghost next = drives@.take(i + 1);
        proof {
            assert(next.drop_last() =~= seen);
            assert(next.last() == drives@[i as int]);
            assert(files_column(next).drop_last() =~= files_column(seen));
            assert(dirs_column(next).drop_last() =~= dirs_column(seen));
            assert(total_space_column(next).drop_last() =~= total_space_column(seen));
            assert(available_space_column(next).drop_last() =~= available_space_column(seen));
            let limit = usize::MAX as nat;
            lemma_sum_bound(files_column(seen), limit);
            lemma_sum_bound(dirs_column(seen), limit);
            lemma_sum_bound(total_space_column(seen), limit);
            lemma_sum_bound(available_space_column(seen), limit);
            assert(seen.len() * limit + limit <= u128::MAX) by (nonlinear_arith)
                requires
                    seen.len() < usize::MAX,
                    limit == usize::MAX,
                    usize::MAX <= 0xffff_ffff_ffff_ffff,
            ;
        }
        let length = drive.root_path.as_str().as_bytes().len();
        if length > totals.longest_path_length {
            totals.longest_path_length = length;
        }
        totals.total_files = totals.total_files + drive.num_files as u128;
        totals.total_dirs = totals.total_dirs + drive.num_dirs as u128;
        totals.total_space = totals.total_space + drive.total_space as u128;
        totals.available_space = totals.available_space + drive.available_space as u128;
        i += 1;
    }
    assert(drives@.take(drives@.len() as int) =~= drives@);
    totals
}

/// The texts of the eight cells of one line of the report.
pub struct RowText {
    pub path: Seq<char>,
    pub drive_type: Seq<char>,
    pub total_space: Seq<char>,
    pub available_space: Seq<char>,
    pub files: Seq<char>,
    pub dirs: Seq<char>,
    pub time_seconds: Seq<char>,
    pub time: Seq<char>,
}

impl RowText {
    /// The cells as a row: three spaces between two columns, two before the
    /// last.
    pub open spec fn line(self) -> Seq<char> {
        self.path + "   "@ + self.drive_type + "   "@ + self.total_space + "   "@
            + self.available_space + "   "@ + self.files + "   "@ + self.dirs + "   "@
            + self.time_seconds + "  "@ + self.time
    }

    /// The cells as the header: as a row, but with five spaces before the
    /// total size, which makes up for the least width of a size cell.
    pub open spec fn header_line(self) -> Seq<char> {
        self.path + "   "@ + self.drive_type + "     "@ + self.total_space + "   "@
            + self.available_space + "   "@ + self.files + "   "@ + self.dirs + "   "@
            + self.time_seconds + "  "@ + self.time
    }
}

/// The eight cells of one line of the report, each already justified in its
/// column. A caller may decorate a cell before it joins them.
#[derive(Debug, Clone, PartialEq, Eq)]
pub struct RowCells {
    pub path: String,
    pub drive_type: String,
    pub total_space: String,
    pub available_space: String,
    pub files: String,
    pub dirs: String,
    pub time_seconds: String,
    pub time: String,
}

impl View for RowCells {
    type V = RowText;

    open spec fn view(&self) -> RowText {
        RowText {
            path: self.path@,
            drive_type: self.drive_type@,
            total_space: self.total_space@,
            available_space: self.available_space@,
            files: self.files@,
            dirs: self.dirs@,
            time_seconds: self.time_seconds@,
            time: self.time@,
        }
    }
}

impl RowCells {
    fn join(&self, second_gap: &str) -> (line: String)
        ensures
            line@ == self.path@ + "   "@ + self.drive_type@ + second_gap@ + self.total_space@
                + "   "@ + self.available_space@ + "   "@ + self.files@ + "   "@ + self.dirs@
                + "   "@ + self.time_seconds@ + "  "@ + self.time@,
    {
        let mut line = String::from_str(self.path.as_str());
        line.append("   ");
        line.append(self.drive_type.as_str());
        line.append(second_gap);
        line.append(self.total_space.as_str());
        line.append("   ");
        line.append(self.available_space.as_str());
        line.append("   ");
        line.append(self.files.as_str());
        line.append("   ");
        line.append(self.dirs.as_str());
        line.append("   ");
        line.append(self.time_seconds.as_str());
        line.append("  ");
        line.append(self.time.as_str());
        line
    }

    /// Joins the cells into a row of the report.
    pub fn to_line(&self) -> (line: String)
        ensures
            line@ == self@.line(),
    {
        self.join("   ")
    }

    /// Joins the cells into the header of the report.
    pub fn to_header_line(&self) -> (line: String)
        ensures
            line@ == self@.header_line(),
    {
        self.join("     ")
    }
}

/// The cell of a size: right-justified in the column, and in at least
/// `SIZE_CELL_MIN_WIDTH` characters.
pub open spec fn size_cell(size: nat, width: nat) -> Seq<char> {
    right_justified(
        size_text(size),
        if width > SIZE_CELL_MIN_WIDTH {
            width
        } else {
            SIZE_CELL_MIN_WIDTH as nat
        },
    )
}

fn format_size_cell(size: u128, width: usize) -> (cell: String)
    ensures
        cell@ == size_cell(size as nat, width as nat),
{
    let text = format_byte_count(size);
    if width > SIZE_CELL_MIN_WIDTH {
        right_justify(text.as_str(), width)
    } else {
        right_justify(text.as_str(), SIZE_CELL_MIN_WIDTH)
    }
}

/// Seconds with three decimals: the elapsed time rounded to milliseconds,
/// half a millisecond going to the even neighbour.
pub open spec fn seconds_text(secs: nat, nanos: nat) -> Seq<char> {
    three_decimals(rounded_quotient(secs * 1_000_000_000 + nanos, 1_000_000))
}

/// Renders an elapsed time as seconds with three decimals.
pub fn format_seconds(secs: u64, subsec_nanos: u32) -> (text: String)
    ensures
        text@ == seconds_text(secs as nat, subsec_nanos as nat),
{
    let total: u128 = secs as u128 * 1_000_000_000 + subsec_nanos as u128;
    let q = total / 1_000_000;
    let r = total % 1_000_000;
    let thousandths = if 2 * r > 1_000_000 || (2 * r == 1_000_000 && q % 2 == 1) {
        q + 1
    } else {
        q
    };
    let mut text = String::new();
    push_decimal(&mut text, thousandths / 1000);
    text.push('.');
    text.push(digit_of(((thousandths / 100) % 10) as u8));
    text.push(digit_of(((thousandths / 10) % 10) as u8));
    text.push(digit_of((thousandths % 10) as u8));
    text
}

/// The titles of the columns, each justified as its column is.
pub open spec fn header_text(lengths: ColumnLengths) -> RowText {
    RowText {
        path: left_justified("Path"@, lengths.path_length as nat),
        drive_type: left_justified("Type"@, lengths.type_length as nat),
        total_space: right_justified("Total Size"@, lengths.total_space_length as nat),
        available_space: right_justified(
            "Available Space"@,
            lengths.available_space_length as nat,
        ),
        files: right_justified("Files"@, lengths.files_length as nat),
        dirs: right_justified("Dirs"@, lengths.dirs_length as nat),
        time_seconds: right_justified("Time (s)"@, lengths.time_seconds_length as nat),
        time: right_justified("Time"@, lengths.time_length as nat),
    }
}

/// The cells of the header.
pub fn header_cells(lengths: &ColumnLengths) -> (cells: RowCells)
    ensures
        cells@ == header_text(*lengths),
{
    RowCells {
        path: left_justify("Path", lengths.path_length),
        drive_type: left_justify("Type", lengths.type_length),
        total_space: right_justify("Total Size", lengths.total_space_length),
        available_space: right_justify("Available Space", lengths.available_space_length),
        files: right_justify("Files", lengths.files_length),
        dirs: right_justify("Dirs", lengths.dirs_length),
        time_seconds: right_justify("Time (s)", lengths.time_seconds_length),
        time: right_justify("Time", lengths.time_length),
    }
}

/// The cells of a row of totals that shows the given sums, for an elapsed
/// time of `secs` seconds and `nanos` nanoseconds.
pub open spec fn totals_row_text(
    total_space: nat,
    available_space: nat,
    total_files: nat,
    total_dirs: nat,
    secs: nat,
    nanos: nat,
    lengths: ColumnLengths,
) -> RowText {
    RowText {
        path: left_justified("Total"@, lengths.path_length as nat),
        drive_type: left_justified(Seq::<char>::empty(), lengths.type_length as nat),
        total_space: size_cell(total_space, lengths.total_space_length as nat),
        available_space: size_cell(available_space, lengths.available_space_length as nat),
        files: number_text(total_files, lengths.files_length as nat),
        dirs: number_text(total_dirs, lengths.dirs_length as nat),
        time_seconds: right_justified(
            seconds_text(secs, nanos),
            lengths.time_seconds_length as nat,
        ),
        time: right_justified(elapsed_text(secs, nanos), lengths.time_length as nat),
    }
}

/// The cells of the row of totals of a report on `drives`: each sum is the
/// sum of its column over all the volumes.
pub open spec fn totals_text(
    drives: Seq<DriveInfo>,
    secs: nat,
    nanos: nat,
    lengths: ColumnLengths,
) -> RowText {
    totals_row_text(
        sum_of(total_space_column(drives)),
        sum_of(available_space_column(drives)),
        sum_of(files_column(drives)),
        sum_of(dirs_column(drives)),
        secs,
        nanos,
        lengths,
    )
}

/// The cells of the row of totals.
pub fn totals_cells(
    totals: &Totals,
    secs: u64,
    subsec_nanos: u32,
    lengths: &ColumnLengths,
) -> (cells: RowCells)
    ensures
        cells@ == totals_row_text(
            totals.total_space as nat,
            totals.available_space as nat,
            totals.total_files as nat,
            totals.total_dirs as nat,
            secs as nat,
            subsec_nanos as nat,
            *lengths,
        ),
{
    let seconds = format_seconds(secs, subsec_nanos);
    let elapsed = format_elapsed(secs, subsec_nanos);
    let empty = String::new();
    RowCells {
        path: left_justify("Total", lengths.path_length),
        drive_type: left_justify(empty.as_str(), lengths.type_length),
        total_space: format_size_cell(totals.total_space, lengths.total_space_length),
        available_space: format_size_cell(totals.available_space, lengths.available_space_length),
        files: format_count(totals.total_files, lengths.files_length),
        dirs: format_count(totals.total_dirs, lengths.dirs_length),
        time_seconds: right_justify(seconds.as_str(), lengths.time_seconds_length),
        time: right_justify(elapsed.as_str(), lengths.time_length),
    }
}

impl DriveInfo {
    /// The cells of the row of this volume.
    pub open spec fn row_text(&self, lengths: ColumnLengths) -> RowText {
        let secs = (self.time_nanoseconds / 1_000_000_000) as nat;
        let nanos = (self.time_nanoseconds % 1_000_000_000) as nat;
        RowText {
            path: left_justified(self.root_path@, lengths.path_length as nat),
            drive_type: left_justified(self.drive_type.name(), lengths.type_length as nat),
            total_space: size_cell(self.total_space as nat, lengths.total_space_length as nat),
            available_space: size_cell(
                self.available_space as nat,
                lengths.available_space_length as nat,
            ),
            files: number_text(self.num_files as nat, lengths.files_length as nat),
            dirs: number_text(self.num_dirs as nat, lengths.dirs_length as nat),
            time_seconds: right_justified(
                decimal_digits(secs),
                lengths.time_seconds_length as nat,
            ),
            time: right_justified(elapsed_text(secs, nanos), lengths.time_length as nat),
        }
    }

    /// The cells of the row of this volume.
    pub fn row_cells(&self, lengths: &ColumnLengths) -> (cells: RowCells)
        ensures
            cells@ == self.row_text(*lengths),
    {
        let secs = self.time_nanoseconds / 1_000_000_000;
        let nanos = (self.time_nanoseconds % 1_000_000_000) as u32;
        let seconds = decimal_string(secs as u128);
        let elapsed = format_elapsed(secs, nanos);
        RowCells {
            path: left_justify(self.root_path.as_str(), lengths.path_length),
            drive_type: left_justify(self.drive_type.label(), lengths.type_length),
            total_space: format_size_cell(self.total_space as u128, lengths.total_space_length),
            available_space: format_size_cell(
                self.available_space as u128,
                lengths.available_space_length,
            ),
            files: format_count(self.num_files as u128, lengths.files_length),
            dirs: format_count(self.num_dirs as u128, lengths.dirs_length),
            time_seconds: right_justify(seconds.as_str(), lengths.time_seconds_length),
            time: right_justify(elapsed.as_str(), lengths.time_length),
        }
    }

    /// The row of this volume in a report with columns of the given widths.
    pub fn format_with_lengths(&self, lengths: &ColumnLengths) -> (row: String)
        ensures
            row@ == self.row_text(*lengths).line(),
    {
        self.row_cells(lengths).to_line()
    }
}

/// The widths of the columns of a report on `drives`: the path column as
/// wide as the longest root path has bytes, the others at their defaults.
pub open spec fn report_lengths(drives: Seq<DriveInfo>) -> ColumnLengths {
    ColumnLengths {
        path_length: longest_path_length(drives) as usize,
        ..ColumnLengths::default_lengths()
    }
}

/// How many dashes the separator line has: the widths of all columns and
/// `SEPARATOR_PADDING` more.
pub open spec fn separator_length(lengths: ColumnLengths) -> nat {
    (lengths.path_length + lengths.type_length + lengths.total_space_length
        + lengths.available_space_length + lengths.files_length + lengths.dirs_length
        + lengths.time_seconds_length + lengths.time_length + SEPARATOR_PADDING) as nat
}

/// The separator line for columns of the given widths.
pub fn separator_line(lengths: &ColumnLengths) -> (line: String)
    ensures
        line@ == repeated('-', separator_length(*lengths)),
{
    let mut line = String::new();
    push_repeated(&mut line, '-', lengths.path_length);
    push_repeated(&mut line, '-', lengths.type_length);
    push_repeated(&mut line, '-', lengths.total_space_length);
    push_repeated(&mut line, '-', lengths.available_space_length);
    push_repeated(&mut line, '-', lengths.files_length);
    push_repeated(&mut line, '-', lengths.dirs_length);
    push_repeated(&mut line, '-', lengths.time_seconds_length);
    push_repeated(&mut line, '-', lengths.time_length);
    push_repeated(&mut line, '-', SEPARATOR_PADDING);
    assert(line@ =~= repeated('-', separator_length(*lengths)));
    line
}

/// A report ready to be written out: the cells of the header, the
/// separator line that goes below the header and above the totals, one
/// line for each volume, and the cells of the totals.
#[derive(Debug, Clone, PartialEq, Eq)]
pub struct DriveInfoTable {
    pub header: RowCells,
    pub separator: String,
    pub rows: Vec<String>,
    pub totals: RowCells,
}

/// Whether `table` is the report on the volumes `before`, which stand in
/// `after` once it is made, for an elapsed time of `secs` seconds and
/// `nanos` nanoseconds.
pub open spec fn is_report_on(
    table: DriveInfoTable,
    before: Seq<DriveInfo>,
    after: Seq<DriveInfo>,
    secs: nat,
    nanos: nat,
) -> bool {
    let lengths = report_lengths(before);
    &&& is_stable_sort_of(before, after)
    &&& table.header@ == header_text(lengths)
    &&& table.separator@ == repeated('-', separator_length(lengths))
    &&& table.rows.len() == after.len()
    &&& forall|i: int|
        0 <= i < after.len() ==> (#[trigger] table.rows[i])@ == after[i].row_text(lengths).line()
    &&& table.totals@ == totals_text(before, secs, nanos, lengths)
}

/// Whether `styled` is `table` with its colours: every cell of the header
/// in the style of the header, the separator line in its style, the label
/// of the totals in its style, and all else as it was.
pub open spec fn is_styled_table(styled: DriveInfoTable, table: DriveInfoTable) -> bool {
    &&& is_styled(styled.header.path@, table.header.path@, header_style())
    &&& is_styled(styled.header.drive_type@, table.header.drive_type@, header_style())
    &&& is_styled(styled.header.total_space@, table.header.total_space@, header_style())
    &&& is_styled(styled.header.available_space@, table.header.available_space@, header_style())
    &&& is_styled(styled.header.files@, table.header.files@, header_style())
    &&& is_styled(styled.header.dirs@, table.header.dirs@, header_style())
    &&& is_styled(styled.header.time_seconds@, table.header.time_seconds@, header_style())
    &&& is_styled(styled.header.time@, table.header.time@, header_style())
    &&& is_styled(styled.separator@, table.separator@, separator_style())
    &&& styled.rows == table.rows
    &&& is_styled(styled.totals.path@, table.totals.path@, total_style())
    &&& styled.totals == RowCells { path: styled.totals.path, ..table.totals }
}

/// The lines of a report in the order in which they are written: the
/// header, the separator, the rows, the separator again and the totals.
pub open spec fn lines_of(table: DriveInfoTable) -> Seq<Seq<char>> {
    seq![table.header@.header_line(), table.separator@] + Seq::new(
        table.rows@.len(),
        |i: int| table.rows@[i]@,
    ) + seq![table.separator@, table.totals@.line()]
}

impl DriveInfoTable {
    /// Gives the report its colours: the header, the separator line and
    /// the label of the totals are styled, the rows stay as they are.
    pub fn styled(self) -> (styled: DriveInfoTable)
        ensures
            is_styled_table(styled, self),
    {
        let header = RowCells {
            path: style_header(self.header.path.as_str()),
            drive_type: style_header(self.header.drive_type.as_str()),
            total_space: style_header(self.header.total_space.as_str()),
            available_space: style_header(self.header.available_space.as_str()),
            files: style_header(self.header.files.as_str()),
            dirs: style_header(self.header.dirs.as_str()),
            time_seconds: style_header(self.header.time_seconds.as_str()),
            time: style_header(self.header.time.as_str()),
        };
        let separator = style_separator(self.separator.as_str());
        let label = style_total(self.totals.path.as_str());
        self.with_styled_cells(header, separator, label)
    }

    /// Puts cells that have their style into the report: the cells of the
    /// header, the separator line and the label of the totals are the ones
    /// given, and the rows and the other cells of the totals stay as they
    /// are.
    pub fn with_styled_cells(
        self,
        header: RowCells,
        separator: String,
        total_label: String,
    ) -> (styled: DriveInfoTable)
        ensures
            styled == (DriveInfoTable {
                header,
                separator,
                rows: self.rows,
                totals: RowCells { path: total_label, ..self.totals },
            }),
    {
        let totals = RowCells {
            path: total_label,
            drive_type: self.totals.drive_type,
            total_space: self.totals.total_space,
            available_space: self.totals.available_space,
            files: self.totals.files,
            dirs: self.totals.dirs,
            time_seconds: self.totals.time_seconds,
            time: self.totals.time,
        };
        DriveInfoTable { header, separator, rows: self.rows, totals }
    }

    /// The lines of the report in the order in which they are written.
    pub fn lines(&self) -> (lines: Vec<String>)
        ensures
            lines@.len() == lines_of(*self).len(),
            forall|i: int| 0 <= i < lines@.len() ==> (#[trigger] lines@[i])@ == lines_of(*self)[i],
    {
        let mut lines: Vec<String> = Vec::new();
        lines.push(self.header.to_header_line());
        lines.push(self.separator.clone());
        let mut i: usize = 0;
        while i < self.rows.len()
            invariant
                i <= self.rows.len(),
                lines@.len() == 2 + i,
                lines@[0]@ == self.header@.header_line(),
                lines@[1]@ == self.separator@,
                forall|k: int| 0 <= k < i ==> (#[trigger] lines@[2 + k])@ == self.rows@[k]@,
            decreases self.rows.len() - i,
        {
            lines.push(self.rows[i].clone());
            i += 1;
        }
        lines.push(self.separator.clone());
        lines.push(self.totals.to_line());
        proof {
            let expected = lines_of(*self);
            assert(expected.len() == self.rows@.len() + 4);
            assert forall|k: int| 0 <= k < lines@.len() implies (#[trigger] lines@[k])@
                == expected[k] by {
                if 2 <= k < 2 + self.rows@.len() {
                    assert(lines@[2 + (k - 2)]@ == self.rows@[k - 2]@);
                }
            }
        }
        lines
    }
}

/// Makes the report on `drives` for an elapsed time given in seconds and
/// nanoseconds, and leaves `drives` sorted by root path as the rows are.
pub fn drive_info_table_for(drives: &mut Vec<DriveInfo>, secs: u64, subsec_nanos: u32) -> (table:
    DriveInfoTable)
    ensures
        is_report_on(table, old(drives)@, final(drives)@, secs as nat, subsec_nanos as nat),
{
    let totals = accumulate_totals(drives);
    let mut lengths = ColumnLengths::default();
    lengths.path_length = totals.longest_path_length;
    let header = header_cells(&lengths);
    let separator = separator_line(&lengths);
    sort_by_root_path(drives);
    let mut rows: Vec<String> = Vec::new();
    let mut i: usize = 0;
    while i < drives.len()
        invariant
            i <= drives.len(),
            rows.len() == i,
            forall|k: int|
                0 <= k < i ==> (#[trigger] rows[k])@ == drives@[k].row_text(lengths).line(),
        decreases drives.len() - i,
    {
        rows.push(drives[i].format_with_lengths(&lengths));
        i += 1;
    }
    let totals_row = totals_cells(&totals, secs, subsec_nanos, &lengths);
    DriveInfoTable { header, separator, rows, totals: totals_row }
}

/// Makes the report on `drives` for the elapsed time `total_duration`, and
/// leaves `drives` sorted by root path as the rows are.
pub fn drive_info_table(drives: &mut Vec<DriveInfo>, total_duration: Duration) -> (table:
    DriveInfoTable)
    ensures
        is_report_on(
            table,
            old(drives)@,
            final(drives)@,
            duration_secs(total_duration) as nat,
            duration_subsec_nanos(total_duration) as nat,
        ),
{
    drive_info_table_for(drives, total_duration.as_secs(), total_duration.subsec_nanos())
}

} // verus!
