//! Writing a process snapshot out as comma-separated text.
//!
//! This module decides what the export file holds and what a failure is
//! called; creating the file and writing to it is the caller's business.

use crate::process::{ProcessEntry, ProcessModel};
use crate::text::{decimal_digits, decimal_string, digit_char, digit_str};
use vstd::prelude::*;

verus! {

/// The name of the export file.
pub open spec fn export_file_name() -> Seq<char> {
    "processes.csv"@
}

/// The path of the export file: a fixed name in the working directory,
/// overwritten by each export.
pub fn export_path() -> (path: String)
    ensures
        path@ == export_file_name(),
{
    "processes.csv".to_owned()
}

/// The first line of the export file.
pub open spec fn header_line() -> Seq<char> {
    "id,name,cpu_percent,memory,status"@
}

/// A number of tenths written with one decimal place: `123` is `12.3`.
pub open spec fn one_decimal(tenths: nat) -> Seq<char> {
    decimal_digits(tenths / 10).push('.').push(digit_char(tenths % 10))
}

/// The line of the export file for `entry`: id, name, processor load with
/// one decimal place, memory and status, separated by commas. Texts are
/// written as they are.
pub open spec fn row_line(entry: ProcessModel) -> Seq<char> {
    decimal_digits(entry.pid as nat).push(',') + entry.name + seq![','] + one_decimal(
        entry.cpu_tenths as nat,
    ) + seq![','] + decimal_digits(entry.memory as nat) + seq![','] + entry.status
}

/// The lines after the header: one per entry, in the order of the snapshot.
pub open spec fn row_lines(entries: Seq<ProcessModel>) -> Seq<Seq<char>> {
    Seq::new(entries.len(), |i: int| row_line(entries[i]))
}

/// The lines of an export file, without their line ends.
#[derive(Debug, PartialEq, Eq)]
pub struct CsvDocument {
    pub header: String,
    pub rows: Vec<String>,
}

/// A [`CsvDocument`] as plain text.
pub struct CsvModel {
    pub header: Seq<char>,
    pub rows: Seq<Seq<char>>,
}

impl View for CsvDocument {
    type V = CsvModel;

    open spec fn view(&self) -> CsvModel {
        CsvModel { header: self.header@, rows: self.rows.deep_view() }
    }
}

/// The export file for a snapshot.
pub open spec fn csv_of(entries: Seq<ProcessModel>) -> CsvModel {
    CsvModel { header: header_line(), rows: row_lines(entries) }
}

/// Writes a number of tenths with one decimal place.
pub fn format_tenths(tenths: u64) -> (text: String)
    ensures
        text@ == one_decimal(tenths as nat),
{
    let mut text = decimal_string(tenths / 10);
    proof {
        reveal_strlit(".");
    }
    text.append(".");
    text.append(digit_str(tenths % 10));
    text
}

/// Writes the line of the export file for one process.
pub fn csv_row(entry: &ProcessEntry) -> (line: String)
    ensures
        line@ == row_line(entry@),
{
    proof {
        reveal_strlit(",");
    }
    let mut line = decimal_string(entry.pid as u64);
    line.append(",");
    line.append(entry.name.as_str());
    line.append(",");
    line.append(format_tenths(entry.cpu_tenths as u64).as_str());
    line.append(",");
    line.append(decimal_string(entry.memory).as_str());
    line.append(",");
    line.append(entry.status.as_str());
    line
}

/// Lays out the export file for a snapshot: the header, then one line per
/// process.
pub fn csv_document(processes: &Vec<ProcessEntry>) -> (document: CsvDocument)
    ensures
        document@ == csv_of(processes.deep_view()),
{
    let mut rows: Vec<String> = Vec::new();
    let mut i: usize = 0;
    while i < processes.len()
        invariant
            i <= processes.len(),
            rows.len() == i,
            forall|j: int| 0 <= j < i ==> (#[trigger] rows[j])@ == row_line(processes[j]@),
        decreases processes.len() - i,
    {
        rows.push(csv_row(&processes[i]));
        i += 1;
    }
    assert(rows.deep_view() =~= row_lines(processes.deep_view()));
    CsvDocument { header: "id,name,cpu_percent,memory,status".to_owned(), rows }
}

/// The step of an export at which writing can fail.
#[derive(Debug, Clone, Copy, PartialEq, Eq, Structural)]
pub enum ExportStage {
    /// Creating the file.
    Create,
    /// Writing the header.
    Header,
    /// Writing the line of a process.
    Row,
    /// Flushing what was written.
    Flush,
}

/// What stands before the cause in the reason of a failure at `stage`.
pub open spec fn failure_opening(stage: ExportStage) -> Seq<char> {
    match stage {
        ExportStage::Create => "Cannot create CSV file: "@,
        ExportStage::Header => "Cannot write to CSV: "@,
        ExportStage::Row => "Cannot write process data: "@,
        ExportStage::Flush => "Cannot save CSV file: "@,
    }
}

/// What stands behind the cause in the reason of a failure at `stage`.
pub open spec fn failure_closing(stage: ExportStage) -> Seq<char> {
    match stage {
        ExportStage::Create => " - check permissions"@,
        ExportStage::Header => " - disk may be full"@,
        ExportStage::Row => " - disk error"@,
        ExportStage::Flush => " - write failed"@,
    }
}

/// The reason reported for an export that failed at `stage` because of
/// `cause`.
pub open spec fn failure_reason(stage: ExportStage, cause: Seq<char>) -> Seq<char> {
    failure_opening(stage) + cause + failure_closing(stage)
}

/// Words the reason of a failed export: the stage it failed at, with the
/// cause that the system gave in the middle.
pub fn export_failure(stage: ExportStage, cause: &str) -> (reason: String)
    ensures
        reason@ == failure_reason(stage, cause@),
{
    let (opening, closing) = match stage {
        ExportStage::Create => ("Cannot create CSV file: ", " - check permissions"),
        ExportStage::Header => ("Cannot write to CSV: ", " - disk may be full"),
        ExportStage::Row => ("Cannot write process data: ", " - disk error"),
        ExportStage::Flush => ("Cannot save CSV file: ", " - write failed"),
    };
    let mut reason = opening.to_owned();
    reason.append(cause);
    reason.append(closing);
    reason
}

} // verus!
