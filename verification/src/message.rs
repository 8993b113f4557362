//! What goes into a transition and what comes out of it: messages, effects,
//! and the values they carry.
//!
//! Texts and lists are owned by the values that run through the program.
//! Beside each such type stands its model, the same value with its texts as
//! sequences of characters, which is what the contracts speak of.

use crate::config::{ConfigFile, ConfigFileModel};
use crate::metrics::Metrics;
use crate::process::{ProcessEntry, ProcessModel};
use vstd::prelude::*;

verus! {

/// The view that is on screen.
#[derive(Debug, Clone, Copy, PartialEq, Eq, Structural)]
pub enum Screen {
    Overview,
    Processes,
    Settings,
}

/// The colours to draw with.
#[derive(Debug, Clone, Copy, PartialEq, Eq, Structural)]
pub enum ThemeChoice {
    Light,
    Dark,
}

/// How a notice is to be read.
#[derive(Debug, Clone, Copy, PartialEq, Eq, Structural)]
pub enum Severity {
    Normal,
    Error,
}

/// A short message to the user that goes away by itself.
#[derive(Debug, PartialEq, Eq)]
pub struct Notice {
    pub text: String,
    pub severity: Severity,
}

/// A [`Notice`] as plain text.
pub struct NoticeModel {
    pub text: Seq<char>,
    pub severity: Severity,
}

impl View for Notice {
    type V = NoticeModel;

    open spec fn view(&self) -> NoticeModel {
        NoticeModel { text: self.text@, severity: self.severity }
    }
}

impl DeepView for Notice {
    type V = NoticeModel;

    open spec fn deep_view(&self) -> NoticeModel {
        self@
    }
}

impl Clone for Notice {
    fn clone(&self) -> (copy: Self)
        ensures
            copy == *self,
    {
        Notice { text: self.text.clone(), severity: self.severity }
    }
}

/// Copies a process list, entry by entry.
pub fn copy_processes(processes: &Vec<ProcessEntry>) -> (copy: Vec<ProcessEntry>)
    ensures
        copy@ == processes@,
{
    let copy = processes.clone();
    copy
}

/// One sample of the system: the figures and the processes.
#[derive(Debug, PartialEq, Eq)]
pub struct Snapshot {
    pub metrics: Metrics,
    pub processes: Vec<ProcessEntry>,
}

impl Clone for Snapshot {
    fn clone(&self) -> (copy: Self)
        ensures
            copy@ == self@,
    {
        Snapshot { metrics: self.metrics, processes: copy_processes(&self.processes) }
    }
}

/// A [`Snapshot`] on plain values.
pub struct SnapshotModel {
    pub metrics: Metrics,
    pub processes: Seq<ProcessModel>,
}

impl View for Snapshot {
    type V = SnapshotModel;

    open spec fn view(&self) -> SnapshotModel {
        SnapshotModel { metrics: self.metrics, processes: self.processes.deep_view() }
    }
}

/// What can happen: a user action, the timer, or the end of an effect.
#[derive(Debug, PartialEq, Eq)]
pub enum Message {
    /// The timer fired.
    Tick,
    /// A sample that was fetched has arrived.
    SystemData(Snapshot),
    GoToOverview,
    GoToProcesses,
    GoToSettings,
    /// The process list that was asked for on entering the process view.
    ProcessesRefreshed(Vec<ProcessEntry>),
    ToggleTheme,
    SortByCpu,
    SortByMemory,
    FilterChanged(String),
    SelectProcess(u32),
    /// The user dismissed the notice.
    ClearError,
    /// The user edited the refresh interval.
    SetRefreshInterval(String),
    /// Writing the preference file failed, for the reason given.
    SaveFailed(String),
    ExportProcesses,
    /// The export ended, well or with the reason of its failure.
    ExportComplete(Result<(), String>),
    /// The time of the notice is up.
    ClearToast,
}

impl Clone for Message {
    fn clone(&self) -> (copy: Self)
        ensures
            copy@ == self@,
    {
        match self {
            Message::Tick => Message::Tick,
            Message::SystemData(snapshot) => Message::SystemData(snapshot.clone()),
            Message::GoToOverview => Message::GoToOverview,
            Message::GoToProcesses => Message::GoToProcesses,
            Message::GoToSettings => Message::GoToSettings,
            Message::ProcessesRefreshed(processes) => Message::ProcessesRefreshed(
                copy_processes(processes),
            ),
            Message::ToggleTheme => Message::ToggleTheme,
            Message::SortByCpu => Message::SortByCpu,
            Message::SortByMemory => Message::SortByMemory,
            Message::FilterChanged(text) => Message::FilterChanged(text.clone()),
            Message::SelectProcess(pid) => Message::SelectProcess(*pid),
            Message::ClearError => Message::ClearError,
            Message::SetRefreshInterval(text) => Message::SetRefreshInterval(text.clone()),
            Message::SaveFailed(reason) => Message::SaveFailed(reason.clone()),
            Message::ExportProcesses => Message::ExportProcesses,
            Message::ExportComplete(outcome) => Message::ExportComplete(
                match outcome {
                    Ok(done) => Ok(*done),
                    Err(reason) => Err(reason.clone()),
                },
            ),
            Message::ClearToast => Message::ClearToast,
        }
    }
}

/// A [`Message`] on plain values.
pub enum MessageModel {
    Tick,
    SystemData(SnapshotModel),
    GoToOverview,
    GoToProcesses,
    GoToSettings,
    ProcessesRefreshed(Seq<ProcessModel>),
    ToggleTheme,
    SortByCpu,
    SortByMemory,
    FilterChanged(Seq<char>),
    SelectProcess(u32),
    ClearError,
    SetRefreshInterval(Seq<char>),
    SaveFailed(Seq<char>),
    ExportProcesses,
    ExportComplete(Result<(), Seq<char>>),
    ClearToast,
}

impl View for Message {
    type V = MessageModel;

    open spec fn view(&self) -> MessageModel {
        match self {
            Message::Tick => MessageModel::Tick,
            Message::SystemData(snapshot) => MessageModel::SystemData(snapshot@),
            Message::GoToOverview => MessageModel::GoToOverview,
            Message::GoToProcesses => MessageModel::GoToProcesses,
            Message::GoToSettings => MessageModel::GoToSettings,
            Message::ProcessesRefreshed(processes) => MessageModel::ProcessesRefreshed(
                processes.deep_view(),
            ),
            Message::ToggleTheme => MessageModel::ToggleTheme,
            Message::SortByCpu => MessageModel::SortByCpu,
            Message::SortByMemory => MessageModel::SortByMemory,
            Message::FilterChanged(text) => MessageModel::FilterChanged(text@),
            Message::SelectProcess(pid) => MessageModel::SelectProcess(*pid),
            Message::ClearError => MessageModel::ClearError,
            Message::SetRefreshInterval(text) => MessageModel::SetRefreshInterval(text@),
            Message::SaveFailed(reason) => MessageModel::SaveFailed(reason@),
            Message::ExportProcesses => MessageModel::ExportProcesses,
            Message::ExportComplete(outcome) => MessageModel::ExportComplete(
                match outcome {
                    Ok(_) => Ok(()),
                    Err(reason) => Err(reason@),
                },
            ),
            Message::ClearToast => MessageModel::ClearToast,
        }
    }
}

/// An effect that a transition asks the caller to run. Each is run once and
/// reports back with a message, where one is named.
#[derive(Debug, PartialEq, Eq)]
pub enum Command {
    /// Nothing to do.
    Nothing,
    /// Take a sample off the event loop; report it as
    /// [`Message::SystemData`].
    FetchSystemData,
    /// List the processes right away; report them as
    /// [`Message::ProcessesRefreshed`].
    RefreshProcesses,
    /// Write the preference file. Where `report_failure` is set, report a
    /// failure as [`Message::SaveFailed`]; otherwise a failure is dropped.
    WriteConfig { file: ConfigFile, report_failure: bool },
    /// Export these processes off the event loop; report the end as
    /// [`Message::ExportComplete`].
    Export(Vec<ProcessEntry>),
    /// Wait, then report [`Message::ClearToast`].
    ClearToastAfter { seconds: u64 },
}

/// A [`Command`] on plain values.
pub enum CommandModel {
    Nothing,
    FetchSystemData,
    RefreshProcesses,
    WriteConfig { file: ConfigFileModel, report_failure: bool },
    Export(Seq<ProcessModel>),
    ClearToastAfter { seconds: u64 },
}

impl View for Command {
    type V = CommandModel;

    open spec fn view(&self) -> CommandModel {
        match self {
            Command::Nothing => CommandModel::Nothing,
            Command::FetchSystemData => CommandModel::FetchSystemData,
            Command::RefreshProcesses => CommandModel::RefreshProcesses,
            Command::WriteConfig { file, report_failure } => CommandModel::WriteConfig {
                file: file@,
                report_failure: *report_failure,
            },
            Command::Export(processes) => CommandModel::Export(processes.deep_view()),
            Command::ClearToastAfter { seconds } => CommandModel::ClearToastAfter {
                seconds: *seconds,
            },
        }
    }
}

} // verus!
