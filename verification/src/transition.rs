//! The transition on plain values, and what holds of it.
//!
//! [`step`] says what each message does to the state and which effect it asks
//! for. The laws below it are stated of every state and every message, so
//! they hold of every run of the program.

use crate::config::{saved_config, AppConfig, ConfigFileModel};
use crate::message::{
    CommandModel, MessageModel, NoticeModel, Screen, Severity, SnapshotModel,
};
use crate::metrics::{no_metrics, Metrics};
use crate::process::{ProcessModel, SortBy};
use crate::text::{
    contains_text, decimal_digits, lemma_decimal_digits_parse_back, occurs_at, parsed_u64,
};
use vstd::prelude::*;

verus! {

/// How long a notice stays before it is cleared, in seconds.
pub const NOTICE_SECONDS: u64 = 3;

/// The application state on plain values.
pub struct StateModel {
    pub screen: Screen,
    pub metrics: Metrics,
    /// The latest process snapshot.
    pub processes: Seq<ProcessModel>,
    pub sort_by: SortBy,
    pub filter_text: Seq<char>,
    /// The id of the selected process, which may have ended since.
    pub selected: Option<u32>,
    pub dark_mode: bool,
    /// Seconds between two samples, at least 1.
    pub refresh_interval: u64,
    /// What stands in the interval's input field, valid or not.
    pub refresh_interval_input: Seq<char>,
    pub notice: Option<NoticeModel>,
    /// Whether an export was started and has not reported back.
    pub is_exporting: bool,
}

/// The interval that a typed number sets: the number, but at least 1.
pub open spec fn clamped_interval(seconds: u64) -> u64 {
    if seconds < 1 {
        1
    } else {
        seconds
    }
}

/// The notice shown when the preferences could not be saved.
pub open spec fn save_failure_notice(reason: Seq<char>) -> NoticeModel {
    NoticeModel {
        text: "Could not save settings: "@ + reason + " - check file permissions"@,
        severity: Severity::Error,
    }
}

/// The notice shown when an export has ended.
pub open spec fn export_notice(outcome: Result<(), Seq<char>>) -> NoticeModel {
    match outcome {
        Ok(_) => NoticeModel {
            text: "Processes exported to processes.csv"@,
            severity: Severity::Normal,
        },
        Err(reason) => NoticeModel {
            text: "Export failed: "@ + reason + " - check if file is open elsewhere"@,
            severity: Severity::Error,
        },
    }
}

/// The state a program starts in: the overview, no sample yet, the
/// preferences that were loaded, and the processes listed at start. An
/// interval of 0 counts as 1.
pub open spec fn initial_state(config: AppConfig, processes: Seq<ProcessModel>) -> StateModel {
    StateModel {
        screen: Screen::Overview,
        metrics: no_metrics(),
        processes,
        sort_by: SortBy::Cpu,
        filter_text: Seq::empty(),
        selected: None,
        dark_mode: config.dark_mode,
        refresh_interval: clamped_interval(config.refresh_interval),
        refresh_interval_input: decimal_digits(clamped_interval(config.refresh_interval) as nat),
        notice: None,
        is_exporting: false,
    }
}

/// What follows from preparing the preference file. Where that gave a file,
/// the file is to be written. Where it failed, there is nothing to write,
/// and the failure is shown as a notice if it is to be reported. The
/// preferences in `state` stay as they are either way.
pub open spec fn after_save(
    state: StateModel,
    outcome: Result<ConfigFileModel, Seq<char>>,
    report_failure: bool,
) -> (StateModel, CommandModel) {
    match outcome {
        Ok(file) => (state, CommandModel::WriteConfig { file, report_failure }),
        Err(reason) => if report_failure {
            (
                StateModel { notice: Some(save_failure_notice(reason)), ..state },
                CommandModel::Nothing,
            )
        } else {
            (state, CommandModel::Nothing)
        },
    }
}

/// The preferences that `state` holds.
pub open spec fn config_of(state: StateModel) -> AppConfig {
    AppConfig { refresh_interval: state.refresh_interval, dark_mode: state.dark_mode }
}

/// Saves the preferences of `state`.
pub open spec fn persist(state: StateModel, report_failure: bool) -> (StateModel, CommandModel) {
    after_save(state, saved_config(config_of(state)), report_failure)
}

/// The transition: the state after `message`, and the effect to run.
pub open spec fn step(state: StateModel, message: MessageModel) -> (StateModel, CommandModel) {
    match message {
        MessageModel::Tick => (state, CommandModel::FetchSystemData),
        MessageModel::SystemData(snapshot) => (
            StateModel {
                metrics: snapshot.metrics,
                processes: if state.screen == Screen::Processes {
                    snapshot.processes
                } else {
                    state.processes
                },
                ..state
            },
            CommandModel::Nothing,
        ),
        MessageModel::GoToOverview => (
            StateModel { screen: Screen::Overview, ..state },
            CommandModel::Nothing,
        ),
        MessageModel::GoToProcesses => (
            StateModel { screen: Screen::Processes, ..state },
            CommandModel::RefreshProcesses,
        ),
        MessageModel::GoToSettings => (
            StateModel { screen: Screen::Settings, ..state },
            CommandModel::Nothing,
        ),
        MessageModel::ProcessesRefreshed(processes) => (
            StateModel { processes, ..state },
            CommandModel::Nothing,
        ),
        MessageModel::ToggleTheme => persist(
            StateModel { dark_mode: !state.dark_mode, ..state },
            true,
        ),
        MessageModel::SortByCpu => (StateModel { sort_by: SortBy::Cpu, ..state }, CommandModel::Nothing),
        MessageModel::SortByMemory => (
            StateModel { sort_by: SortBy::Memory, ..state },
            CommandModel::Nothing,
        ),
        MessageModel::FilterChanged(text) => (
            StateModel { filter_text: text, ..state },
            CommandModel::Nothing,
        ),
        MessageModel::SelectProcess(pid) => (
            StateModel { selected: Some(pid), ..state },
            CommandModel::Nothing,
        ),
        MessageModel::ClearError => (StateModel { notice: None, ..state }, CommandModel::Nothing),
        MessageModel::SetRefreshInterval(text) => {
            let typed = StateModel { refresh_interval_input: text, ..state };
            match parsed_u64(text) {
                Some(seconds) => persist(
                    StateModel { refresh_interval: clamped_interval(seconds), ..typed },
                    false,
                ),
                None => (typed, CommandModel::Nothing),
            }
        },
        MessageModel::SaveFailed(reason) => (
            StateModel { notice: Some(save_failure_notice(reason)), ..state },
            CommandModel::Nothing,
        ),
        MessageModel::ExportProcesses => if state.is_exporting {
            (state, CommandModel::Nothing)
        } else {
            (StateModel { is_exporting: true, ..state }, CommandModel::Export(state.processes))
        },
        MessageModel::ExportComplete(outcome) => (
            StateModel { is_exporting: false, notice: Some(export_notice(outcome)), ..state },
            CommandModel::ClearToastAfter { seconds: NOTICE_SECONDS },
        ),
        MessageModel::ClearToast => (StateModel { notice: None, ..state }, CommandModel::Nothing),
    }
}

/// The first entry of `processes` with the id `pid`, if there is one.
pub open spec fn find_process(processes: Seq<ProcessModel>, pid: u32) -> Option<ProcessModel>
    decreases processes.len(),
{
    if processes.len() == 0 {
        None
    } else if processes.first().pid == pid {
        Some(processes.first())
    } else {
        find_process(processes.drop_first(), pid)
    }
}

/// Looking a process up finds the first entry with the id, and finds none
/// exactly where no entry has it.
pub proof fn lemma_find_process(processes: Seq<ProcessModel>, pid: u32)
    ensures
        match find_process(processes, pid) {
            Some(entry) => exists|i: int|
                0 <= i < processes.len() && processes[i] == entry && entry.pid == pid && forall|
                    j: int,
                | 0 <= j < i ==> (#[trigger] processes[j]).pid != pid,
            None => forall|i: int| 0 <= i < processes.len() ==> (#[trigger] processes[i]).pid != pid,
        },
    decreases processes.len(),
{
    if processes.len() > 0 && processes.first().pid != pid {
        let rest = processes.drop_first();
        lemma_find_process(rest, pid);
        match find_process(rest, pid) {
            Some(entry) => {
                let i = choose|i: int|
                    0 <= i < rest.len() && rest[i] == entry && entry.pid == pid && forall|j: int|
                        0 <= j < i ==> (#[trigger] rest[j]).pid != pid;
                assert(processes[i + 1] == entry);
                assert forall|j: int| 0 <= j < i + 1 implies (#[trigger] processes[j]).pid
                    != pid by {
                    if j > 0 {
                        assert(processes[j] == rest[j - 1]);
                    }
                }
            },
            None => {
                assert forall|i: int| 0 <= i < processes.len() implies (#[trigger] processes[i]).pid
                    != pid by {
                    if i > 0 {
                        assert(processes[i] == rest[i - 1]);
                    }
                }
            },
        }
    } else if processes.len() > 0 {
        assert(processes[0] == processes.first());
    }
}

/// The state after a run of messages, applied in order.
pub open spec fn run(state: StateModel, messages: Seq<MessageModel>) -> StateModel
    decreases messages.len(),
{
    if messages.len() == 0 {
        state
    } else {
        step(run(state, messages.drop_last()), messages.last()).0
    }
}

/// How many exports a run of messages starts.
pub open spec fn exports_started(state: StateModel, messages: Seq<MessageModel>) -> nat
    decreases messages.len(),
{
    if messages.len() == 0 {
        0
    } else {
        let before = messages.drop_last();
        let last = step(run(state, before), messages.last()).1;
        exports_started(state, before) + if last is Export {
            1nat
        } else {
            0nat
        }
    }
}

/// The refresh interval is at least 1 at the start and stays so whatever
/// message comes.
pub proof fn lemma_interval_stays_positive(
    config: AppConfig,
    processes: Seq<ProcessModel>,
    state: StateModel,
    message: MessageModel,
)
    ensures
        initial_state(config, processes).refresh_interval >= 1,
        state.refresh_interval >= 1 ==> step(state, message).0.refresh_interval >= 1,
{
}

/// At the start the interval's input field shows the interval: the text in
/// it denotes the number in effect.
pub proof fn lemma_initial_input_shows_interval(config: AppConfig, processes: Seq<ProcessModel>)
    ensures
        parsed_u64(initial_state(config, processes).refresh_interval_input) == Some(
            initial_state(config, processes).refresh_interval,
        ),
{
    lemma_decimal_digits_parse_back(clamped_interval(config.refresh_interval) as nat);
}

/// As long as every sample has no more in use than there is, so has the
/// state; the figures before the first sample are all zero.
pub proof fn lemma_metrics_stay_consistent(
    config: AppConfig,
    processes: Seq<ProcessModel>,
    state: StateModel,
    message: MessageModel,
)
    requires
        state.metrics.consistent(),
        message matches MessageModel::SystemData(snapshot) ==> snapshot.metrics.consistent(),
    ensures
        initial_state(config, processes).metrics.consistent(),
        step(state, message).0.metrics.consistent(),
{
}

/// The process snapshot changes only when a refreshed list arrives, or a
/// sample arrives while the process view is on screen. Sorting, filtering
/// and selecting leave it alone and ask for no effect.
pub proof fn lemma_snapshot_changes_only_on_refresh(state: StateModel, message: MessageModel)
    ensures
        step(state, message).0.processes != state.processes ==> message is ProcessesRefreshed || (
        message is SystemData && state.screen == Screen::Processes),
        message is SortByCpu || message is SortByMemory || message is FilterChanged
            || message is SelectProcess ==> step(state, message).1 is Nothing,
{
}

/// A sample overwrites the figures in any case, also when the user has
/// moved on since it was asked for; the timer itself changes nothing and
/// only asks for a sample.
pub proof fn lemma_sample_is_fetched_then_applied(state: StateModel, snapshot: SnapshotModel)
    ensures
        step(state, MessageModel::Tick) == (state, CommandModel::FetchSystemData),
        step(state, MessageModel::SystemData(snapshot)).0.metrics == snapshot.metrics,
        state.screen == Screen::Processes ==> step(
            state,
            MessageModel::SystemData(snapshot),
        ).0.processes == snapshot.processes,
        step(state, MessageModel::SystemData(snapshot)).1 is Nothing,
{
}

/// Toggling the theme flips the dark mode, whatever it was and whether or
/// not the preferences can be saved, and touches nothing else but the
/// notice. Toggling twice gives the mode back.
pub proof fn lemma_toggle_flips_theme(state: StateModel)
    ensures
        step(state, MessageModel::ToggleTheme).0.dark_mode == !state.dark_mode,
        step(state, MessageModel::ToggleTheme).0 == (StateModel {
            dark_mode: !state.dark_mode,
            notice: step(state, MessageModel::ToggleTheme).0.notice,
            ..state
        }),
        step(
            step(state, MessageModel::ToggleTheme).0,
            MessageModel::ToggleTheme,
        ).0.dark_mode == state.dark_mode,
{
}

/// Toggling the theme saves the preferences as they are after the toggle.
/// Where the file can be prepared it is handed on to be written, and a
/// failure to write is to be reported; where it cannot, an error notice says
/// so and the toggle stands.
pub proof fn lemma_toggle_saves_preferences(state: StateModel)
    ensures
        match saved_config(AppConfig {
            refresh_interval: state.refresh_interval,
            dark_mode: !state.dark_mode,
        }) {
            Ok(file) => step(state, MessageModel::ToggleTheme) == (
                StateModel { dark_mode: !state.dark_mode, ..state },
                CommandModel::WriteConfig { file, report_failure: true },
            ),
            Err(reason) => step(state, MessageModel::ToggleTheme) == (
                StateModel {
                    dark_mode: !state.dark_mode,
                    notice: Some(save_failure_notice(reason)),
                    ..state
                },
                CommandModel::Nothing,
            ),
        },
        save_failure_notice(Seq::empty()).severity == Severity::Error,
{
}

/// Whatever is typed into the interval field is kept as typed. Text that is
/// no number changes nothing else: the interval stays, nothing is saved.
pub proof fn lemma_interval_text_is_kept(state: StateModel, text: Seq<char>)
    ensures
        step(state, MessageModel::SetRefreshInterval(text)).0.refresh_interval_input == text,
        parsed_u64(text) is None ==> step(state, MessageModel::SetRefreshInterval(text)) == (
            StateModel { refresh_interval_input: text, ..state },
            CommandModel::Nothing,
        ),
{
}

/// Text that is a number sets the interval to that number, or to 1 for 0,
/// and saves the preferences with it; a failure to save is not reported.
pub proof fn lemma_typed_interval_is_set(state: StateModel, text: Seq<char>)
    requires
        parsed_u64(text) is Some,
    ensures
        step(state, MessageModel::SetRefreshInterval(text)).0 == (StateModel {
            refresh_interval_input: text,
            refresh_interval: clamped_interval(parsed_u64(text).unwrap()),
            ..state
        }),
        match saved_config(AppConfig {
            refresh_interval: clamped_interval(parsed_u64(text).unwrap()),
            dark_mode: state.dark_mode,
        }) {
            Ok(file) => step(state, MessageModel::SetRefreshInterval(text)).1
                == (CommandModel::WriteConfig { file, report_failure: false }),
            Err(_) => step(state, MessageModel::SetRefreshInterval(text)).1 is Nothing,
        },
{
}

/// An export is started only while none is under way: a request sets the
/// flag and takes the snapshot as it is at that moment, and a request that
/// comes while the flag is set changes nothing and starts nothing.
pub proof fn lemma_export_guard(state: StateModel)
    ensures
        !state.is_exporting ==> step(state, MessageModel::ExportProcesses) == (
            StateModel { is_exporting: true, ..state },
            CommandModel::Export(state.processes),
        ),
        state.is_exporting ==> step(state, MessageModel::ExportProcesses) == (
            state,
            CommandModel::Nothing,
        ),
        step(
            step(state, MessageModel::ExportProcesses).0,
            MessageModel::ExportProcesses,
        ).1 is Nothing,
{
}

/// Once set, the export flag stays set until the export reports back, and
/// that report clears it.
pub proof fn lemma_export_flag_cleared_by_completion(state: StateModel, message: MessageModel)
    ensures
        state.is_exporting && !(message is ExportComplete) ==> step(state, message).0.is_exporting,
        message is ExportComplete ==> !step(state, message).0.is_exporting,
        step(state, message).1 is Export ==> message is ExportProcesses && !state.is_exporting,
{
}

/// However many export requests and other messages come in a row, as long
/// as no export reports back among them at most one export is started, and
/// none if one was under way before.
pub proof fn lemma_one_export_at_a_time(state: StateModel, messages: Seq<MessageModel>)
    requires
        forall|i: int| 0 <= i < messages.len() ==> !(#[trigger] messages[i] is ExportComplete),
    ensures
        exports_started(state, messages) <= 1,
        state.is_exporting ==> exports_started(state, messages) == 0,
        run(state, messages).is_exporting == (state.is_exporting || exports_started(
            state,
            messages,
        ) == 1),
    decreases messages.len(),
{
    if messages.len() > 0 {
        let before = messages.drop_last();
        assert forall|i: int| 0 <= i < before.len() implies !(#[trigger] before[i]
            is ExportComplete) by {
        }
        lemma_one_export_at_a_time(state, before);
        lemma_export_flag_cleared_by_completion(run(state, before), messages.last());
    }
}

/// When an export has ended, a notice says how: an error notice that holds
/// the reason for a failure, a normal one for a success. Either way the
/// export flag is cleared and the notice is set to expire.
pub proof fn lemma_export_outcome_is_noticed(state: StateModel, outcome: Result<(), Seq<char>>)
    ensures
        step(state, MessageModel::ExportComplete(outcome)).0.notice == Some(export_notice(outcome)),
        step(state, MessageModel::ExportComplete(outcome)).1 == (CommandModel::ClearToastAfter {
            seconds: NOTICE_SECONDS,
        }),
        outcome is Ok ==> export_notice(outcome).severity == Severity::Normal,
        outcome matches Err(reason) ==> export_notice(outcome).severity == Severity::Error
            && contains_text(export_notice(outcome).text, reason),
{
    if let Err(reason) = outcome {
        let opening = "Export failed: "@;
        let text = export_notice(outcome).text;
        assert(text.subrange(opening.len() as int, (opening.len() + reason.len()) as int) =~= reason);
        assert(occurs_at(text, reason, opening.len() as int));
    }
}

/// Dismissing a notice and its expiry do the same: the notice is gone,
/// whether there was one or not, and nothing else changes.
pub proof fn lemma_notice_is_cleared(state: StateModel)
    ensures
        step(state, MessageModel::ClearError) == (
            StateModel { notice: None, ..state },
            CommandModel::Nothing,
        ),
        step(state, MessageModel::ClearToast) == step(state, MessageModel::ClearError),
{
}

} // verus!
