use dirtidy::file_organizer::Operation;
use dirtidy::undo::RestorePlan;
use dirtidy::undo::UndoManager;
use dirtidy::undo::UndoReport;
use dirtidy::undo::backup_path_for;

fn sample_operation() -> Operation {
    Operation {
        original_path: "/base/test.txt".to_string(),
        new_path: "/base/documents/test.txt".to_string(),
        category: "documents".to_string(),
    }
}

#[test]
fn test_restore_plan_missing_file() {
    let op = sample_operation();
    let plan = UndoManager::restore_plan(&op, false, false);
    match plan {
        RestorePlan::Skip { path, reason } => {
            assert_eq!(path, "/base/documents/test.txt");
            assert!(reason.contains("not found"));
        }
        _ => panic!("expected a skip"),
    }
}

#[test]
fn test_restore_plan_without_conflict() {
    let op = sample_operation();
    let plan = UndoManager::restore_plan(&op, true, false);
    match plan {
        RestorePlan::Restore { backup, from, to } => {
            assert!(backup.is_none());
            assert_eq!(from, "/base/documents/test.txt");
            assert_eq!(to, "/base/test.txt");
        }
        _ => panic!("expected a restore"),
    }
}

#[test]
fn test_restore_plan_with_conflict_backs_up() {
    let op = sample_operation();
    let plan = UndoManager::restore_plan(&op, true, true);
    match plan {
        RestorePlan::Restore { backup, from, to } => {
            let (occupant, backup_path) = backup.expect("a conflicting occupant must be backed up");
            assert_eq!(occupant, "/base/test.txt");
            assert!(backup_path.starts_with("/base/test.txt.bak."));
            assert_eq!(from, "/base/documents/test.txt");
            assert_eq!(to, "/base/test.txt");
        }
        _ => panic!("expected a restore"),
    }
}

#[test]
fn test_backup_path_for() {
    assert_eq!(
        backup_path_for("/base/test.txt", "20250101-120000"),
        "/base/test.txt.bak.20250101-120000"
    );
    assert_eq!(backup_path_for("test.txt", "20250101-120000"), "test.txt.bak.20250101-120000");
    assert_eq!(backup_path_for("/test.txt", "20250101-120000"), "/test.txt.bak.20250101-120000");
}

#[test]
fn test_undo_report_counts() {
    let mut report = UndoReport::new();
    assert_eq!(report.restored_files, 0);
    assert!(report.is_complete_success());
    assert_eq!(report.total_processed(), 0);

    report.record_restored();
    report.record_restored();
    assert_eq!(report.restored_files, 2);
    assert!(report.is_complete_success());

    report.record_skipped("/base/gone.txt".to_string(), "File not found".to_string());
    assert!(!report.is_complete_success());

    report.record_failed("/base/locked.txt".to_string(), "permission denied".to_string());
    assert!(!report.is_complete_success());
    assert_eq!(report.total_processed(), 4);
    assert_eq!(report.skipped_files.len(), 1);
    assert_eq!(report.failed_restores.len(), 1);
}

#[test]
fn test_skip_keeps_history() {
    let op = sample_operation();
    let mut report = UndoReport::new();
    match UndoManager::restore_plan(&op, false, false) {
        RestorePlan::Skip { path, reason } => report.record_skipped(path, reason),
        RestorePlan::Restore { .. } => panic!("expected a skip"),
    }
    assert_eq!(report.restored_files, 0);
    assert_eq!(report.skipped_files.len(), 1);
    assert!(report.skipped_files[0].1.contains("not found"));
    assert!(!report.is_complete_success());
}
