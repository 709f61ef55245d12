use dirtidy::file_organizer::FileOrganizer;
use dirtidy::file_organizer::Operation;
use dirtidy::file_organizer::OperationLog;
use dirtidy::file_organizer::OrganizeError;

#[test]
fn test_move_to_category_invalid_base_path() {
    let result = FileOrganizer::move_to_category(
        "/non/existent/path",
        "/some/file.txt",
        "documents",
        false,
    );
    assert!(result.is_err());
    match result {
        Err(OrganizeError::InvalidBasePath { path, .. }) => {
            assert_eq!(path, "/non/existent/path");
        }
        _ => panic!("expected an invalid base path error"),
    }
}

#[test]
fn test_move_to_category_plans_destination() {
    let plan =
        FileOrganizer::move_to_category("/base", "/base/photo.png", "images", true).unwrap();
    assert_eq!(plan.category_path, "/base/images");
    assert_eq!(plan.operation.original_path, "/base/photo.png");
    assert_eq!(plan.operation.new_path, "/base/images/photo.png");
    assert_eq!(plan.operation.category, "images");
}

#[test]
fn test_move_to_category_without_file_name() {
    let result = FileOrganizer::move_to_category("/base", "/base/..", "documents", true);
    match result {
        Err(OrganizeError::FileMoveFailure { source, destination, .. }) => {
            assert_eq!(source, "/base/..");
            assert_eq!(destination, "/base/documents");
        }
        _ => panic!("expected a file move failure"),
    }
}

#[test]
fn test_operation_log_records_in_order() {
    let mut log = OperationLog::new("/base".to_string());
    assert_eq!(log.base_path, "/base");
    assert!(log.operations.is_empty());

    log.add_operation(Operation {
        original_path: "/base/a.png".to_string(),
        new_path: "/base/images/a.png".to_string(),
        category: "images".to_string(),
    });
    log.add_operation(Operation {
        original_path: "/base/b.pdf".to_string(),
        new_path: "/base/documents/b.pdf".to_string(),
        category: "documents".to_string(),
    });

    assert_eq!(log.operations.len(), 2);
    assert_eq!(log.operations[0].original_path, "/base/a.png");
    assert_eq!(log.operations[1].original_path, "/base/b.pdf");
}

#[test]
fn test_history_file_path() {
    assert_eq!(OperationLog::history_file_path("/base"), "/base/.dirtidy_history.json");
    assert_eq!(OperationLog::history_file_path("/base/"), "/base/.dirtidy_history.json");
}

#[test]
fn test_history_round_trip() {
    let mut log = OperationLog::new("/base".to_string());
    log.add_operation(Operation {
        original_path: "/base/a.png".to_string(),
        new_path: "/base/images/a.png".to_string(),
        category: "images".to_string(),
    });
    log.add_operation(Operation {
        original_path: "/base/odd \"name\" \\ here.pdf".to_string(),
        new_path: "/base/documents/odd \"name\" \\ here.pdf".to_string(),
        category: "documents".to_string(),
    });

    let text = log.to_history_string();
    let parsed = OperationLog::from_history_string(&text).unwrap();

    assert_eq!(parsed.timestamp, log.timestamp);
    assert_eq!(parsed.base_path, "/base");
    assert_eq!(parsed.operations.len(), 2);
    assert_eq!(parsed.operations[0].original_path, "/base/a.png");
    assert_eq!(parsed.operations[0].new_path, "/base/images/a.png");
    assert_eq!(parsed.operations[0].category, "images");
    assert_eq!(parsed.operations[1].original_path, "/base/odd \"name\" \\ here.pdf");
    assert_eq!(parsed.operations[1].category, "documents");
}

#[test]
fn test_history_empty_round_trip() {
    let log = OperationLog::new("/base".to_string());
    let text = log.to_history_string();
    assert!(text.contains("\"operations\":[]"));

    let parsed = OperationLog::from_history_string(&text).unwrap();
    assert_eq!(parsed.base_path, "/base");
    assert_eq!(parsed.operations.len(), 0);
}

#[test]
fn test_history_exact_rendering() {
    let log = OperationLog {
        timestamp: "2025-01-01T00:00:00+00:00".to_string(),
        base_path: "/base".to_string(),
        operations: vec![Operation {
            original_path: "/base/a.png".to_string(),
            new_path: "/base/images/a.png".to_string(),
            category: "images".to_string(),
        }],
    };
    let expected = "{\"timestamp\":\"2025-01-01T00:00:00+00:00\",\"base_path\":\"/base\",\"operations\":[{\"original_path\":\"/base/a.png\",\"new_path\":\"/base/images/a.png\",\"category\":\"images\"}]}";
    assert_eq!(log.to_history_string(), expected);
}

#[test]
fn test_history_rejects_garbage() {
    for bad in [
        "",
        "not json at all",
        "{\"timestamp\":\"t\"}",
        "{\"timestamp\":\"t\",\"base_path\":\"b\",\"operations\":[}",
        "{\"timestamp\":\"t\",\"base_path\":\"b\",\"operations\":[]} trailing",
    ] {
        let result = OperationLog::from_history_string(bad);
        assert!(matches!(result, Err(OrganizeError::InvalidHistoryFormat { .. })));
    }
}

#[test]
fn test_history_error_names_failing_field() {
    let cases = [
        ("", "Missing or invalid 'timestamp' field"),
        ("{\"timestamp\":\"t\"}", "Missing or invalid 'base_path' field"),
        ("{\"timestamp\":\"t\",\"base_path\":\"b\"}", "Missing or invalid 'operations' field"),
        ("{\"timestamp\":\"t\",\"base_path\":\"b\",\"operations\":[}", "Missing or invalid 'operations' field"),
        ("{\"timestamp\":\"t\",\"base_path\":\"b\",\"operations\":[]} x", "malformed history document"),
    ];
    for (text, expected_reason) in cases {
        match OperationLog::from_history_string(text) {
            Err(OrganizeError::InvalidHistoryFormat { reason }) => {
                assert_eq!(reason, expected_reason);
            }
            _ => panic!("expected an invalid history format error"),
        }
    }
}

#[test]
fn test_organize_error_messages() {
    let e = OrganizeError::InvalidBasePath {
        path: "/missing".to_string(),
        source: "base path does not exist".to_string(),
    };
    assert_eq!(e.message(), "Invalid base path /missing: base path does not exist");

    let e = OrganizeError::InvalidHistoryFormat { reason: "bad".to_string() };
    assert_eq!(e.message(), "Invalid history file format: bad");
}
