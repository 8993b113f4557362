use lightmon::config::{load_config, AppConfig, ConfigFile};
use lightmon::metrics::{system_data, Metrics};
use lightmon::message::{Command, Message, Notice, Screen, Severity, Snapshot, ThemeChoice};
use lightmon::monitor::{export_result_notice, lookup_process, save_failure, LightMon};
use lightmon::process::{ProcessEntry, SortBy};
use lightmon::transition::NOTICE_SECONDS;

fn entry(pid: u32, name: &str, cpu_tenths: u32, memory: u64) -> ProcessEntry {
    ProcessEntry {
        pid,
        name: name.to_string(),
        cpu_tenths,
        memory,
        status: "Run".to_string(),
    }
}

fn sample() -> Vec<ProcessEntry> {
    vec![entry(1, "init", 1, 100), entry(42, "Editor", 300, 9_000), entry(7, "shell", 20, 500)]
}

fn fresh() -> LightMon {
    LightMon::new(load_config(None), sample())
}

fn written_file(command: Command) -> (ConfigFile, bool) {
    match command {
        Command::WriteConfig { file, report_failure } => (file, report_failure),
        other => panic!("expected a file to write, got {:?}", other),
    }
}

#[test]
fn test_fetch_system_data_works() {
    let result = system_data(Some(125), 4_096, 8_192);
    assert_eq!(result.cpu_tenths, 125);
}

#[test]
fn test_screen_enum_debug() {
    let screen = Screen::Overview;
    format!("{:?}", screen);
}

#[test]
fn test_message_enum_clone() {
    let msg = Message::Tick;
    let _cloned = msg.clone();
}

#[test]
fn test_lightmon_get_processes_data() {
    let mon = fresh();
    let data = mon.get_processes_data();
    assert!(!data.is_empty());
}

#[test]
fn test_set_refresh_interval_parsing() {
    let mut mon = fresh();

    mon.update(Message::SetRefreshInterval("5".to_string()));
    assert_eq!(mon.refresh_interval(), 5);

    mon.update(Message::SetRefreshInterval("abc".to_string()));
    assert_eq!(mon.refresh_interval(), 5);
}

#[test]
fn test_toggle_theme() {
    let mut mon = fresh();
    let initial = mon.dark_mode();

    mon.update(Message::ToggleTheme);
    assert_ne!(mon.dark_mode(), initial);
}

#[test]
fn test_filter_changed() {
    let mut mon = fresh();
    mon.update(Message::FilterChanged("test".to_string()));
    assert_eq!(mon.filter_text(), "test");
}

#[test]
fn starts_on_the_overview_with_loaded_preferences() {
    let mon = LightMon::new(AppConfig { refresh_interval: 30, dark_mode: true }, sample());
    assert_eq!(mon.current_screen(), Screen::Overview);
    assert_eq!(mon.refresh_interval(), 30);
    assert_eq!(mon.refresh_interval_input(), "30");
    assert!(mon.dark_mode());
    assert_eq!(mon.sort_by(), SortBy::Cpu);
    assert_eq!(mon.filter_text(), "");
    assert_eq!(mon.selected(), None);
    assert_eq!(mon.toast_message(), None);
    assert!(!mon.is_exporting());
    assert_eq!(
        mon.metrics(),
        Metrics { cpu_tenths: 0, memory_used: 0, memory_total: 0, disk_used: 0, disk_total: 0 }
    );
    assert_eq!(mon.get_processes_data(), sample());
    assert_eq!(mon.title(), "System Monitor");
}

#[test]
fn an_interval_of_zero_counts_as_one() {
    let mon = LightMon::new(AppConfig { refresh_interval: 0, dark_mode: false }, Vec::new());
    assert_eq!(mon.refresh_interval(), 1);
    assert_eq!(mon.refresh_interval_input(), "1");
    assert_eq!(mon.subscription(), 1);
}

#[test]
fn theme_follows_dark_mode() {
    let mut mon = fresh();
    assert_eq!(mon.theme(), ThemeChoice::Light);
    mon.update(Message::ToggleTheme);
    assert_eq!(mon.theme(), ThemeChoice::Dark);
}

#[test]
fn tick_asks_for_a_sample_and_changes_nothing() {
    let mut mon = fresh();
    assert_eq!(mon.update(Message::Tick), Command::FetchSystemData);
    assert_eq!(mon.metrics().memory_total, 0);
    assert_eq!(mon.get_processes_data(), sample());
}

#[test]
fn sample_overwrites_metrics_but_not_the_list_off_the_process_view() {
    let mut mon = fresh();
    let metrics = system_data(Some(431), 2_048_000, 8_192_000);
    let command = mon.update(Message::SystemData(Snapshot {
        metrics,
        processes: vec![entry(99, "new", 1, 1)],
    }));
    assert_eq!(command, Command::Nothing);
    assert_eq!(mon.metrics(), metrics);
    assert_eq!(mon.get_processes_data(), sample());
}

#[test]
fn sample_refreshes_the_list_on_the_process_view() {
    let mut mon = fresh();
    mon.update(Message::GoToProcesses);
    let metrics = system_data(None, 1, 2);
    mon.update(Message::SystemData(Snapshot { metrics, processes: vec![entry(99, "new", 1, 1)] }));
    assert_eq!(mon.metrics(), metrics);
    assert_eq!(mon.get_processes_data(), vec![entry(99, "new", 1, 1)]);
}

#[test]
fn late_sample_is_still_applied_after_leaving_the_process_view() {
    let mut mon = fresh();
    mon.update(Message::GoToProcesses);
    mon.update(Message::Tick);
    mon.update(Message::GoToSettings);
    let metrics = system_data(Some(10), 5, 10);
    mon.update(Message::SystemData(Snapshot { metrics, processes: Vec::new() }));
    assert_eq!(mon.metrics(), metrics);
    assert_eq!(mon.get_processes_data(), sample());
}

#[test]
fn sample_figures_derive_disk_from_memory() {
    let metrics = system_data(Some(125), 4_096, 8_192);
    assert_eq!(
        metrics,
        Metrics { cpu_tenths: 125, memory_used: 4_096, memory_total: 8_192, disk_used: 4, disk_total: 8 }
    );
    let metrics = system_data(None, 1_023, 1_025);
    assert_eq!(
        metrics,
        Metrics { cpu_tenths: 0, memory_used: 1_023, memory_total: 1_025, disk_used: 0, disk_total: 1 }
    );
    let metrics = system_data(Some(0), u64::MAX, u64::MAX);
    assert_eq!(metrics.disk_used, u64::MAX / 1024);
}

#[test]
fn navigation_sets_the_screen() {
    let mut mon = fresh();
    assert_eq!(mon.update(Message::GoToSettings), Command::Nothing);
    assert_eq!(mon.current_screen(), Screen::Settings);
    assert_eq!(mon.update(Message::GoToOverview), Command::Nothing);
    assert_eq!(mon.current_screen(), Screen::Overview);
}

#[test]
fn entering_the_process_view_asks_for_the_list_at_once() {
    let mut mon = fresh();
    assert_eq!(mon.update(Message::GoToProcesses), Command::RefreshProcesses);
    assert_eq!(mon.current_screen(), Screen::Processes);
    assert_eq!(
        mon.update(Message::ProcessesRefreshed(vec![entry(5, "five", 5, 5)])),
        Command::Nothing
    );
    assert_eq!(mon.get_processes_data(), vec![entry(5, "five", 5, 5)]);
}

#[test]
fn sort_filter_and_selection_are_local() {
    let mut mon = fresh();
    assert_eq!(mon.update(Message::SortByMemory), Command::Nothing);
    assert_eq!(mon.sort_by(), SortBy::Memory);
    assert_eq!(mon.update(Message::SortByCpu), Command::Nothing);
    assert_eq!(mon.sort_by(), SortBy::Cpu);
    assert_eq!(mon.update(Message::FilterChanged("ed".to_string())), Command::Nothing);
    assert_eq!(mon.filter_text(), "ed");
    assert_eq!(mon.update(Message::SelectProcess(42)), Command::Nothing);
    assert_eq!(mon.selected(), Some(42));
    assert_eq!(mon.get_processes_data(), sample());
}

#[test]
fn visible_rows_follow_state() {
    let mut mon = fresh();
    let pids = |mon: &LightMon| -> Vec<u32> {
        mon.visible_processes().iter().map(|row| row.pid).collect()
    };
    assert_eq!(pids(&mon), vec![42, 7, 1]);
    mon.update(Message::SortByMemory);
    assert_eq!(pids(&mon), vec![42, 7, 1]);
    mon.update(Message::FilterChanged("I".to_string()));
    assert_eq!(pids(&mon), vec![42, 1]);
    mon.update(Message::FilterChanged("7".to_string()));
    assert_eq!(pids(&mon), vec![7]);
}

#[test]
fn selection_tolerates_a_process_that_is_gone() {
    let mut mon = fresh();
    assert_eq!(mon.selected_process(), None);
    mon.update(Message::SelectProcess(42));
    assert_eq!(mon.selected_process(), Some(entry(42, "Editor", 300, 9_000)));
    mon.update(Message::ProcessesRefreshed(vec![entry(1, "init", 1, 100)]));
    assert_eq!(mon.selected(), Some(42));
    assert_eq!(mon.selected_process(), None);
}

#[test]
fn lookup_finds_the_first_entry_with_the_id() {
    let list = vec![entry(3, "a", 0, 0), entry(4, "b", 0, 0), entry(3, "c", 0, 0)];
    assert_eq!(lookup_process(&list, 3), Some(entry(3, "a", 0, 0)));
    assert_eq!(lookup_process(&list, 4), Some(entry(4, "b", 0, 0)));
    assert_eq!(lookup_process(&list, 5), None);
    assert_eq!(lookup_process(&Vec::new(), 3), None);
}

#[test]
fn toggle_flips_once_per_message() {
    let mut mon = fresh();
    assert!(!mon.dark_mode());
    mon.update(Message::ToggleTheme);
    assert!(mon.dark_mode());
    mon.update(Message::ToggleTheme);
    assert!(!mon.dark_mode());
    mon.update(Message::ToggleTheme);
    assert!(mon.dark_mode());
}

#[test]
fn toggle_saves_the_new_preferences() {
    let mut mon = LightMon::new(AppConfig { refresh_interval: 9, dark_mode: false }, Vec::new());
    let (file, report_failure) = written_file(mon.update(Message::ToggleTheme));
    assert!(report_failure);
    assert_eq!(file.path, "lightmon_config.toml");
    assert_eq!(load_config(Some(&file.contents)), AppConfig { refresh_interval: 9, dark_mode: true });
    assert_eq!(mon.toast_message(), None);
}

#[test]
fn failed_write_is_shown_and_the_toggle_stands() {
    let mut mon = fresh();
    mon.update(Message::ToggleTheme);
    let command = mon.update(Message::SaveFailed("Permission denied (os error 13)".to_string()));
    assert_eq!(command, Command::Nothing);
    assert!(mon.dark_mode());
    assert_eq!(
        mon.toast_message(),
        Some(Notice {
            text: "Could not save settings: Permission denied (os error 13) - check file permissions"
                .to_string(),
            severity: Severity::Error,
        })
    );
}

#[test]
fn toggle_that_cannot_be_saved_is_shown_at_once() {
    let mut mon = fresh();
    mon.update(Message::SetRefreshInterval("18446744073709551615".to_string()));
    assert_eq!(mon.refresh_interval(), u64::MAX);
    assert_eq!(mon.toast_message(), None);
    let command = mon.update(Message::ToggleTheme);
    assert_eq!(command, Command::Nothing);
    assert!(mon.dark_mode());
    assert_eq!(
        mon.toast_message(),
        Some(Notice {
            text: "Could not save settings: out-of-range value for u64 type - check file permissions"
                .to_string(),
            severity: Severity::Error,
        })
    );
}

#[test]
fn typed_interval_is_set_saved_and_loaded_back() {
    let mut mon = fresh();
    let (file, report_failure) =
        written_file(mon.update(Message::SetRefreshInterval("5".to_string())));
    assert!(!report_failure);
    assert_eq!(mon.refresh_interval(), 5);
    assert_eq!(mon.refresh_interval_input(), "5");
    assert_eq!(mon.subscription(), 5);
    assert_eq!(load_config(Some(&file.contents)).refresh_interval, 5);
    let restarted = LightMon::new(load_config(Some(&file.contents)), Vec::new());
    assert_eq!(restarted.refresh_interval(), 5);
}

#[test]
fn text_that_is_no_number_only_changes_the_text() {
    let mut mon = fresh();
    mon.update(Message::SetRefreshInterval("5".to_string()));
    for text in ["abc", "", "5s", "-1", " 7"] {
        let command = mon.update(Message::SetRefreshInterval(text.to_string()));
        assert_eq!(command, Command::Nothing);
        assert_eq!(mon.refresh_interval(), 5);
        assert_eq!(mon.subscription(), 5);
        assert_eq!(mon.refresh_interval_input(), text);
    }
}

#[test]
fn typed_zero_is_raised_to_one() {
    let mut mon = LightMon::new(AppConfig { refresh_interval: 8, dark_mode: true }, Vec::new());
    let (file, _) = written_file(mon.update(Message::SetRefreshInterval("0".to_string())));
    assert_eq!(mon.refresh_interval(), 1);
    assert_eq!(mon.refresh_interval_input(), "0");
    assert_eq!(load_config(Some(&file.contents)), AppConfig { refresh_interval: 1, dark_mode: true });
}

#[test]
fn export_is_started_once() {
    let mut mon = fresh();
    assert_eq!(mon.update(Message::ExportProcesses), Command::Export(sample()));
    assert!(mon.is_exporting());
    assert_eq!(mon.update(Message::ExportProcesses), Command::Nothing);
    assert!(mon.is_exporting());
    mon.update(Message::Tick);
    mon.update(Message::GoToProcesses);
    mon.update(Message::ClearToast);
    assert!(mon.is_exporting());
    assert_eq!(mon.update(Message::ExportProcesses), Command::Nothing);
    mon.update(Message::ExportComplete(Ok(())));
    assert!(!mon.is_exporting());
    assert_eq!(mon.update(Message::ExportProcesses), Command::Export(sample()));
}

#[test]
fn export_takes_the_list_as_it_is_when_asked() {
    let mut mon = fresh();
    mon.update(Message::ProcessesRefreshed(vec![entry(8, "eight", 8, 8)]));
    let command = mon.update(Message::ExportProcesses);
    mon.update(Message::ProcessesRefreshed(Vec::new()));
    assert_eq!(command, Command::Export(vec![entry(8, "eight", 8, 8)]));
}

#[test]
fn finished_export_is_noticed_and_the_notice_expires() {
    let mut mon = fresh();
    mon.update(Message::ExportProcesses);
    let command = mon.update(Message::ExportComplete(Ok(())));
    assert_eq!(command, Command::ClearToastAfter { seconds: 3 });
    assert_eq!(NOTICE_SECONDS, 3);
    assert_eq!(
        mon.toast_message(),
        Some(Notice {
            text: "Processes exported to processes.csv".to_string(),
            severity: Severity::Normal,
        })
    );
    assert_eq!(mon.update(Message::ClearToast), Command::Nothing);
    assert_eq!(mon.toast_message(), None);
}

#[test]
fn failed_export_is_noticed_as_an_error_with_its_reason() {
    let mut mon = fresh();
    mon.update(Message::ExportProcesses);
    let reason = "Cannot create CSV file: denied - check permissions";
    let command = mon.update(Message::ExportComplete(Err(reason.to_string())));
    assert_eq!(command, Command::ClearToastAfter { seconds: 3 });
    assert!(!mon.is_exporting());
    let notice = mon.toast_message().unwrap();
    assert_eq!(notice.severity, Severity::Error);
    assert!(notice.text.contains(reason));
    assert_eq!(
        notice.text,
        "Export failed: Cannot create CSV file: denied - check permissions - check if file is open elsewhere"
    );
}

#[test]
fn notice_can_be_dismissed() {
    let mut mon = fresh();
    mon.update(Message::ExportComplete(Err("x".to_string())));
    assert!(mon.toast_message().is_some());
    assert_eq!(mon.update(Message::ClearError), Command::Nothing);
    assert_eq!(mon.toast_message(), None);
    assert_eq!(mon.update(Message::ClearError), Command::Nothing);
    assert_eq!(mon.toast_message(), None);
}

#[test]
fn notices_are_worded_by_their_cause() {
    assert_eq!(
        save_failure("disk full"),
        Notice {
            text: "Could not save settings: disk full - check file permissions".to_string(),
            severity: Severity::Error,
        }
    );
    assert_eq!(export_result_notice(&Ok(())).severity, Severity::Normal);
    assert_eq!(export_result_notice(&Err("e".to_string())).severity, Severity::Error);
    assert_eq!(
        export_result_notice(&Err("e".to_string())).text,
        "Export failed: e - check if file is open elsewhere"
    );
}

#[test]
fn prepared_file_is_handed_on_and_failure_shown_only_on_request() {
    let mut mon = fresh();
    let file = ConfigFile { path: "p".to_string(), contents: "c".to_string() };
    assert_eq!(
        mon.finish_save(Ok(file.clone()), false),
        Command::WriteConfig { file: file.clone(), report_failure: false }
    );
    assert_eq!(mon.toast_message(), None);
    assert_eq!(mon.finish_save(Err("why".to_string()), false), Command::Nothing);
    assert_eq!(mon.toast_message(), None);
    assert_eq!(mon.finish_save(Err("why".to_string()), true), Command::Nothing);
    assert_eq!(mon.toast_message(), Some(save_failure("why")));
}

#[test]
fn messages_can_be_copied() {
    let message = Message::SystemData(Snapshot {
        metrics: system_data(Some(1), 2, 3),
        processes: sample(),
    });
    assert_eq!(message.clone(), message);
    let message = Message::ExportComplete(Err("reason".to_string()));
    assert_eq!(message.clone(), message);
}
