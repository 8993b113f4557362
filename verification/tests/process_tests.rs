use lightmon::process::{
    entry_matches, matches_lowered, visible_processes, ProcessEntry, SortBy, DISPLAY_LIMIT,
};

fn entry(pid: u32, name: &str, cpu_tenths: u32, memory: u64) -> ProcessEntry {
    ProcessEntry {
        pid,
        name: name.to_string(),
        cpu_tenths,
        memory,
        status: "Run".to_string(),
    }
}

fn pids(rows: &[ProcessEntry]) -> Vec<u32> {
    rows.iter().map(|row| row.pid).collect()
}

fn chars(text: &str) -> Vec<char> {
    text.chars().collect()
}

fn sample() -> Vec<ProcessEntry> {
    vec![
        entry(1, "systemd", 3, 12_000),
        entry(214, "Firefox", 250, 900_000),
        entry(33, "bash", 0, 5_000),
        entry(1214, "firewalld", 12, 30_000),
        entry(77, "cargo", 981, 450_000),
    ]
}

#[test]
fn test_sortby_enum_debug() {
    let sort = SortBy::Cpu;
    format!("{:?}", sort);
}

#[test]
fn display_limit_is_twelve() {
    assert_eq!(DISPLAY_LIMIT, 12);
}

#[test]
fn empty_filter_shows_everything_sorted_by_cpu() {
    let rows = visible_processes(&sample(), SortBy::Cpu, "");
    assert_eq!(pids(&rows), vec![77, 214, 1214, 1, 33]);
}

#[test]
fn sorting_by_memory_uses_memory() {
    let rows = visible_processes(&sample(), SortBy::Memory, "");
    assert_eq!(pids(&rows), vec![214, 77, 1214, 1, 33]);
}

#[test]
fn rows_are_copies_of_the_entries() {
    let rows = visible_processes(&sample(), SortBy::Cpu, "cargo");
    assert_eq!(rows, vec![entry(77, "cargo", 981, 450_000)]);
}

#[test]
fn filter_matches_names_without_regard_to_case() {
    let rows = visible_processes(&sample(), SortBy::Cpu, "fire");
    assert_eq!(pids(&rows), vec![214, 1214]);
    let rows = visible_processes(&sample(), SortBy::Cpu, "FIRE");
    assert_eq!(pids(&rows), vec![214, 1214]);
    let rows = visible_processes(&sample(), SortBy::Cpu, "fOx");
    assert_eq!(pids(&rows), vec![214]);
}

#[test]
fn filter_matches_part_of_the_id() {
    let rows = visible_processes(&sample(), SortBy::Cpu, "214");
    assert_eq!(pids(&rows), vec![214, 1214]);
    let rows = visible_processes(&sample(), SortBy::Cpu, "7");
    assert_eq!(pids(&rows), vec![77]);
    let rows = visible_processes(&sample(), SortBy::Memory, "3");
    assert_eq!(pids(&rows), vec![33]);
}

#[test]
fn filter_that_matches_nothing_shows_nothing() {
    assert!(visible_processes(&sample(), SortBy::Cpu, "zzz").is_empty());
    assert!(visible_processes(&Vec::new(), SortBy::Cpu, "").is_empty());
}

#[test]
fn every_row_contains_the_filter() {
    for filter in ["", "s", "A", "1", "21", "fire", "D"] {
        let needle = filter.to_lowercase();
        for row in visible_processes(&sample(), SortBy::Cpu, filter) {
            assert!(
                row.name.to_lowercase().contains(&needle) || row.pid.to_string().contains(&needle),
                "{:?} shown for {:?}",
                row,
                filter
            );
        }
    }
}

#[test]
fn every_match_is_shown_below_the_limit() {
    for filter in ["", "s", "A", "1", "21", "fire", "D"] {
        let needle = filter.to_lowercase();
        let expected = sample()
            .iter()
            .filter(|e| e.name.to_lowercase().contains(&needle) || e.pid.to_string().contains(&needle))
            .count();
        assert_eq!(visible_processes(&sample(), SortBy::Memory, filter).len(), expected);
    }
}

#[test]
fn rows_never_increase() {
    let cache = sample();
    let by_cpu = visible_processes(&cache, SortBy::Cpu, "");
    assert!(by_cpu.windows(2).all(|pair| pair[0].cpu_tenths >= pair[1].cpu_tenths));
    let by_memory = visible_processes(&cache, SortBy::Memory, "");
    assert!(by_memory.windows(2).all(|pair| pair[0].memory >= pair[1].memory));
}

#[test]
fn equal_keys_keep_the_order_of_the_snapshot() {
    let cache = vec![
        entry(5, "a", 10, 1),
        entry(3, "b", 20, 1),
        entry(9, "c", 10, 1),
        entry(1, "d", 20, 1),
        entry(7, "e", 10, 1),
    ];
    assert_eq!(pids(&visible_processes(&cache, SortBy::Cpu, "")), vec![3, 1, 5, 9, 7]);
    assert_eq!(pids(&visible_processes(&cache, SortBy::Memory, "")), vec![5, 3, 9, 1, 7]);
}

#[test]
fn table_is_cut_to_the_limit() {
    let cache: Vec<ProcessEntry> = (1..=30).map(|i| entry(i, "worker", i * 10, 1)).collect();
    let rows = visible_processes(&cache, SortBy::Cpu, "");
    assert_eq!(rows.len(), 12);
    assert_eq!(pids(&rows), (19..=30).rev().collect::<Vec<u32>>());
}

#[test]
fn exactly_twelve_matches_are_all_shown() {
    let cache: Vec<ProcessEntry> = (1..=12).map(|i| entry(i, "worker", i, 1)).collect();
    assert_eq!(visible_processes(&cache, SortBy::Cpu, "work").len(), 12);
    let cache: Vec<ProcessEntry> = (1..=13).map(|i| entry(i, "worker", i, 1)).collect();
    assert_eq!(pids(&visible_processes(&cache, SortBy::Cpu, "work")), (2..=13).rev().collect::<Vec<u32>>());
}

#[test]
fn limit_applies_after_the_filter() {
    // Twenty busy processes that do not match, then three idle ones that do.
    let mut cache: Vec<ProcessEntry> =
        (1..=20).map(|i| entry(1000 + i, "busy", 900 + i, 1)).collect();
    cache.push(entry(1, "quiet-a", 1, 1));
    cache.push(entry(2, "quiet-b", 3, 1));
    cache.push(entry(3, "quiet-c", 2, 1));
    let rows = visible_processes(&cache, SortBy::Cpu, "quiet");
    assert_eq!(pids(&rows), vec![2, 3, 1]);
}

#[test]
fn a_late_large_entry_pushes_the_smallest_out() {
    let mut cache: Vec<ProcessEntry> = (1..=12).map(|i| entry(i, "p", 100 + i, 1)).collect();
    cache.push(entry(50, "p", 5, 1));
    cache.push(entry(51, "p", 500, 1));
    cache.push(entry(52, "p", 106, 1));
    let rows = visible_processes(&cache, SortBy::Cpu, "");
    assert_eq!(pids(&rows), vec![51, 12, 11, 10, 9, 8, 7, 6, 52, 5, 4, 3]);
}

#[test]
fn matching_is_done_on_lowered_texts() {
    assert!(matches_lowered("firefox", 214, &chars("fire")));
    assert!(matches_lowered("firefox", 214, &chars("21")));
    assert!(matches_lowered("firefox", 214, &chars("")));
    assert!(!matches_lowered("firefox", 214, &chars("Fire")));
    assert!(!matches_lowered("firefox", 214, &chars("215")));
    assert!(!matches_lowered("", 0, &chars("1")));
    assert!(matches_lowered("", 0, &chars("0")));
}

#[test]
fn entry_matches_lowers_both_sides() {
    let firefox = entry(214, "Firefox", 0, 0);
    assert!(entry_matches(&firefox, "fire"));
    assert!(entry_matches(&firefox, "FIREFOX"));
    assert!(entry_matches(&firefox, "14"));
    assert!(entry_matches(&firefox, ""));
    assert!(!entry_matches(&firefox, "chrome"));
    assert!(!entry_matches(&firefox, "2140"));
    let umlaut = entry(9, "ÄRGER", 0, 0);
    assert!(entry_matches(&umlaut, "ärg"));
}
