//! The application state and its transitions.
//!
//! Everything that happens arrives as a [`Message`]. [`LightMon::update`]
//! applies one message to the state and answers with at most one
//! [`Command`], an effect for the caller to run: fetch a sample, write a
//! file, wait. Each effect reports back with a message of its own, so the
//! state is only ever changed here, one message at a time.

use crate::config::{save_config, AppConfig, ConfigFile};
use crate::message::{
    copy_processes, Command, Message, Notice, Screen, Severity, ThemeChoice,
};
use crate::metrics::Metrics;
use crate::process::{shown_processes, visible_processes, ProcessEntry, SortBy};
use crate::text::{decimal_string, parse_u64};
use crate::transition::{
    after_save, export_notice, find_process, initial_state, save_failure_notice, step, StateModel,
    NOTICE_SECONDS,
};
use vstd::prelude::*;

verus! {

/// Words the notice for preferences that could not be saved.
pub fn save_failure(reason: &str) -> (notice: Notice)
    ensures
        notice@ == save_failure_notice(reason@),
{
    let mut text = "Could not save settings: ".to_owned();
    text.append(reason);
    text.append(" - check file permissions");
    Notice { text, severity: Severity::Error }
}

/// Words the notice for an export that has ended.
pub fn export_result_notice(outcome: &Result<(), String>) -> (notice: Notice)
    ensures
        notice@ == export_notice(
            match outcome {
                Ok(_) => Ok(()),
                Err(reason) => Err(reason@),
            },
        ),
{
    match outcome {
        Ok(_) => Notice {
            text: "Processes exported to processes.csv".to_owned(),
            severity: Severity::Normal,
        },
        Err(reason) => {
            let mut text = "Export failed: ".to_owned();
            text.append(reason.as_str());
            text.append(" - check if file is open elsewhere");
            Notice { text, severity: Severity::Error }
        },
    }
}

/// Looks a process up by its id. That there is none is no failure: a
/// selection may outlive its process.
pub fn lookup_process(processes: &Vec<ProcessEntry>, pid: u32) -> (found: Option<ProcessEntry>)
    ensures
        found.deep_view() == find_process(processes.deep_view(), pid),
{
    let ghost all = processes.deep_view();
    let mut i: usize = 0;
    assert(all.skip(0) =~= all);
    while i < processes.len()
        invariant
            i <= processes.len(),
            all == processes.deep_view(),
            find_process(all, pid) == find_process(all.skip(i as int), pid),
        decreases processes.len() - i,
    {
        if processes[i].pid == pid {
            return Some(processes[i].clone());
        }
        assert(all.skip(i as int).drop_first() =~= all.skip(i + 1));
        i += 1;
    }
    None
}

/// The application state. It is changed by [`LightMon::update`] alone.
#[derive(Debug)]
pub struct LightMon {
    metrics: Metrics,
    current_screen: Screen,
    dark_mode: bool,
    sort_by: SortBy,
    filter_text: String,
    selected: Option<u32>,
    processes: Vec<ProcessEntry>,
    refresh_interval: u64,
    refresh_interval_input: String,
    toast: Option<Notice>,
    is_exporting: bool,
}

impl View for LightMon {
    type V = StateModel;

    closed spec fn view(&self) -> StateModel {
        StateModel {
            screen: self.current_screen,
            metrics: self.metrics,
            processes: self.processes.deep_view(),
            sort_by: self.sort_by,
            filter_text: self.filter_text@,
            selected: self.selected,
            dark_mode: self.dark_mode,
            refresh_interval: self.refresh_interval,
            refresh_interval_input: self.refresh_interval_input@,
            notice: self.toast.deep_view(),
            is_exporting: self.is_exporting,
        }
    }
}

impl LightMon {
    #[verifier::type_invariant]
    spec fn interval_is_positive(self) -> bool {
        self.refresh_interval >= 1
    }

    /// Starts on the overview with the preferences that were loaded and the
    /// processes listed at start.
    pub fn new(config: AppConfig, processes: Vec<ProcessEntry>) -> (state: Self)
        ensures
            state@ == initial_state(config, processes.deep_view()),
    {
        let refresh_interval: u64 = if config.refresh_interval < 1 {
            1
        } else {
            config.refresh_interval
        };
        LightMon {
            metrics: Metrics {
                cpu_tenths: 0,
                memory_used: 0,
                memory_total: 0,
                disk_used: 0,
                disk_total: 0,
            },
            current_screen: Screen::Overview,
            dark_mode: config.dark_mode,
            sort_by: SortBy::Cpu,
            filter_text: String::new(),
            selected: None,
            processes,
            refresh_interval,
            refresh_interval_input: decimal_string(refresh_interval),
            toast: None,
            is_exporting: false,
        }
    }

    /// Applies the outcome of preparing the preference file: hands the file on
    /// to be written, or shows why there is none if that is to be reported.
    pub fn finish_save(&mut self, outcome: Result<ConfigFile, String>, report_failure: bool) -> (command:
        Command)
        ensures
            (final(self)@, command@) == after_save(
                old(self)@,
                match outcome {
                    Ok(file) => Ok(file@),
                    Err(reason) => Err(reason@),
                },
                report_failure,
            ),
    {
        proof {
            use_type_invariant(&*self);
        }
        match outcome {
            Ok(file) => Command::WriteConfig { file, report_failure },
            Err(reason) => {
                if report_failure {
                    self.toast = Some(save_failure(reason.as_str()));
                }
                Command::Nothing
            },
        }
    }

    /// Applies one message and answers with the effect to run.
    pub fn update(&mut self, message: Message) -> (command: Command)
        ensures
            (final(self)@, command@) == step(old(self)@, message@),
    {
        proof {
            use_type_invariant(&*self);
        }
        match message {
            Message::Tick => Command::FetchSystemData,
            Message::SystemData(snapshot) => {
                self.metrics = snapshot.metrics;
                if self.current_screen == Screen::Processes {
                    self.processes = snapshot.processes;
                }
                Command::Nothing
            },
            Message::GoToOverview => {
                self.current_screen = Screen::Overview;
                Command::Nothing
            },
            Message::GoToProcesses => {
                self.current_screen = Screen::Processes;
                Command::RefreshProcesses
            },
            Message::GoToSettings => {
                self.current_screen = Screen::Settings;
                Command::Nothing
            },
            Message::ProcessesRefreshed(processes) => {
                self.processes = processes;
                Command::Nothing
            },
            Message::ToggleTheme => {
                self.dark_mode = !self.dark_mode;
                let config = AppConfig {
                    refresh_interval: self.refresh_interval,
                    dark_mode: self.dark_mode,
                };
                let outcome = save_config(&config);
                self.finish_save(outcome, true)
            },
            Message::SortByCpu => {
                self.sort_by = SortBy::Cpu;
                Command::Nothing
            },
            Message::SortByMemory => {
                self.sort_by = SortBy::Memory;
                Command::Nothing
            },
            Message::FilterChanged(text) => {
                self.filter_text = text;
                Command::Nothing
            },
            Message::SelectProcess(pid) => {
                self.selected = Some(pid);
                Command::Nothing
            },
            Message::ClearError => {
                self.toast = None;
                Command::Nothing
            },
            Message::SetRefreshInterval(text) => {
                let typed = parse_u64(text.as_str());
                self.refresh_interval_input = text;
                match typed {
                    Some(seconds) => {
                        self.refresh_interval = if seconds < 1 {
                            1
                        } else {
                            seconds
                        };
                        let config = AppConfig {
                            refresh_interval: self.refresh_interval,
                            dark_mode: self.dark_mode,
                        };
                        let outcome = save_config(&config);
                        self.finish_save(outcome, false)
                    },
                    None => Command::Nothing,
                }
            },
            Message::SaveFailed(reason) => {
                self.toast = Some(save_failure(reason.as_str()));
                Command::Nothing
            },
            Message::ExportProcesses => {
                if self.is_exporting {
                    Command::Nothing
                } else {
                    self.is_exporting = true;
                    Command::Export(self.get_processes_data())
                }
            },
            Message::ExportComplete(outcome) => {
                self.is_exporting = false;
                self.toast = Some(export_result_notice(&outcome));
                Command::ClearToastAfter { seconds: NOTICE_SECONDS }
            },
            Message::ClearToast => {
                self.toast = None;
                Command::Nothing
            },
        }
    }

    /// The title of the window.
    pub fn title(&self) -> (title: String)
        ensures
            title@ == "System Monitor"@,
    {
        "System Monitor".to_owned()
    }

    /// The colours to draw with: dark where the dark mode is on.
    pub fn theme(&self) -> (theme: ThemeChoice)
        ensures
            theme == if self@.dark_mode {
                ThemeChoice::Dark
            } else {
                ThemeChoice::Light
            },
    {
        if self.dark_mode {
            ThemeChoice::Dark
        } else {
            ThemeChoice::Light
        }
    }

    /// The period of the timer in seconds: the refresh interval as it is
    /// now, never 0. The timer is armed anew with this period after each
    /// tick, so a new interval holds from the next tick on.
    pub fn subscription(&self) -> (seconds: u64)
        ensures
            seconds == self@.refresh_interval,
            seconds >= 1,
    {
        proof {
            use_type_invariant(self);
        }
        self.refresh_interval
    }

    pub fn current_screen(&self) -> (screen: Screen)
        ensures
            screen == self@.screen,
    {
        self.current_screen
    }

    pub fn metrics(&self) -> (metrics: Metrics)
        ensures
            metrics == self@.metrics,
    {
        self.metrics
    }

    pub fn dark_mode(&self) -> (on: bool)
        ensures
            on == self@.dark_mode,
    {
        self.dark_mode
    }

    pub fn sort_by(&self) -> (order: SortBy)
        ensures
            order == self@.sort_by,
    {
        self.sort_by
    }

    pub fn filter_text(&self) -> (text: &str)
        ensures
            text@ == self@.filter_text,
    {
        self.filter_text.as_str()
    }

    pub fn selected(&self) -> (pid: Option<u32>)
        ensures
            pid == self@.selected,
    {
        self.selected
    }

    /// The refresh interval in seconds, at least 1.
    pub fn refresh_interval(&self) -> (seconds: u64)
        ensures
            seconds == self@.refresh_interval,
            seconds >= 1,
    {
        proof {
            use_type_invariant(self);
        }
        self.refresh_interval
    }

    /// What stands in the interval's input field.
    pub fn refresh_interval_input(&self) -> (text: &str)
        ensures
            text@ == self@.refresh_interval_input,
    {
        self.refresh_interval_input.as_str()
    }

    /// The notice on screen, if there is one.
    pub fn toast_message(&self) -> (notice: Option<Notice>)
        ensures
            notice.deep_view() == self@.notice,
    {
        match &self.toast {
            Some(notice) => Some(notice.clone()),
            None => None,
        }
    }

    pub fn is_exporting(&self) -> (busy: bool)
        ensures
            busy == self@.is_exporting,
    {
        self.is_exporting
    }

    /// The rows of the process table as they are to be shown now. Nothing is
    /// kept between two calls.
    pub fn visible_processes(&self) -> (rows: Vec<ProcessEntry>)
        ensures
            rows.deep_view() == shown_processes(
                self@.processes,
                self@.sort_by,
                self@.filter_text,
            ),
    {
        visible_processes(&self.processes, self.sort_by, self.filter_text.as_str())
    }

    /// The selected process as the latest snapshot has it, or `None` where
    /// nothing is selected or the process is no longer there.
    pub fn selected_process(&self) -> (found: Option<ProcessEntry>)
        ensures
            found.deep_view() == match self@.selected {
                Some(pid) => find_process(self@.processes, pid),
                None => None,
            },
    {
        match self.selected {
            Some(pid) => lookup_process(&self.processes, pid),
            None => None,
        }
    }

    /// A copy of the latest process snapshot, as an export takes it.
    pub fn get_processes_data(&self) -> (processes: Vec<ProcessEntry>)
        ensures
            processes.deep_view() == self@.processes,
    {
        copy_processes(&self.processes)
    }
}

} // verus!
