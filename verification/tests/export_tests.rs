use lightmon::export::{
    csv_document, csv_row, export_failure, export_path, format_tenths, ExportStage,
};
use lightmon::process::ProcessEntry;

fn entry(pid: u32, name: &str, cpu_tenths: u32, memory: u64, status: &str) -> ProcessEntry {
    ProcessEntry {
        pid,
        name: name.to_string(),
        cpu_tenths,
        memory,
        status: status.to_string(),
    }
}

#[test]
fn test_export_processes_to_csv_success() {
    let processes = vec![entry(1, "test", 0, 0, "Running")];
    let document = csv_document(&processes);
    assert_eq!(document.header, "id,name,cpu_percent,memory,status");
    assert_eq!(document.rows, vec!["1,test,0.0,0,Running".to_string()]);
}

#[test]
fn test_export_processes_to_csv_fail() {
    let reason = export_failure(ExportStage::Create, "Permission denied (os error 13)");
    assert_eq!(
        reason,
        "Cannot create CSV file: Permission denied (os error 13) - check permissions"
    );
}

#[test]
fn export_goes_to_a_fixed_file() {
    assert_eq!(export_path(), "processes.csv");
}

#[test]
fn tenths_are_written_with_one_decimal() {
    assert_eq!(format_tenths(0), "0.0");
    assert_eq!(format_tenths(5), "0.5");
    assert_eq!(format_tenths(10), "1.0");
    assert_eq!(format_tenths(123), "12.3");
    assert_eq!(format_tenths(1000), "100.0");
    assert_eq!(format_tenths(4_294_967_295), "429496729.5");
    assert_eq!(format_tenths(u64::MAX), "1844674407370955161.5");
}

#[test]
fn row_lists_the_five_fields() {
    let row = csv_row(&entry(4321, "cargo", 987, 1_048_576, "Sleep"));
    assert_eq!(row, "4321,cargo,98.7,1048576,Sleep");
}

#[test]
fn row_keeps_texts_as_they_are() {
    let row = csv_row(&entry(2, "my app, v2", 15, 7, ""));
    assert_eq!(row, "2,my app, v2,1.5,7,");
}

#[test]
fn document_has_one_row_per_process_in_order() {
    let processes = vec![
        entry(3, "c", 30, 300, "Run"),
        entry(1, "a", 10, 100, "Sleep"),
        entry(2, "b", 25, 200, "Zombie"),
    ];
    let document = csv_document(&processes);
    assert_eq!(document.header, "id,name,cpu_percent,memory,status");
    assert_eq!(
        document.rows,
        vec![
            "3,c,3.0,300,Run".to_string(),
            "1,a,1.0,100,Sleep".to_string(),
            "2,b,2.5,200,Zombie".to_string(),
        ]
    );
}

#[test]
fn empty_snapshot_exports_the_header_alone() {
    let document = csv_document(&Vec::new());
    assert_eq!(document.header, "id,name,cpu_percent,memory,status");
    assert!(document.rows.is_empty());
}

#[test]
fn each_stage_has_its_own_reason() {
    assert_eq!(
        export_failure(ExportStage::Create, "denied"),
        "Cannot create CSV file: denied - check permissions"
    );
    assert_eq!(
        export_failure(ExportStage::Header, "denied"),
        "Cannot write to CSV: denied - disk may be full"
    );
    assert_eq!(
        export_failure(ExportStage::Row, "denied"),
        "Cannot write process data: denied - disk error"
    );
    assert_eq!(
        export_failure(ExportStage::Flush, "denied"),
        "Cannot save CSV file: denied - write failed"
    );
    assert_eq!(export_failure(ExportStage::Flush, ""), "Cannot save CSV file:  - write failed");
}
