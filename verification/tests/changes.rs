use workspace_reconcile::change::{Change, Status};
use workspace_reconcile::document::{read_status, ChangeRecord, Changes, StatusOutput};
use workspace_reconcile::failure::Failure;
use workspace_reconcile::invocation::Operation;

fn change(path: &str, size: &str) -> Change {
    Change { path: path.to_string(), size: size.to_string() }
}

fn record(path: &str, size: &str) -> ChangeRecord {
    ChangeRecord { path: Some(path.to_string()), size: Some(size.to_string()) }
}

fn document(records: Vec<ChangeRecord>) -> StatusOutput {
    StatusOutput { changes: Some(Changes { changes: Some(records) }) }
}

#[test]
fn change_is_described_by_path_and_size() {
    let text = change("/ws/a.txt", "1.21 KB").to_string();
    assert_eq!(text, "File `/ws/a.txt` of size: 1.21 KB");
}

#[test]
fn change_without_texts_is_described_with_empty_texts() {
    assert_eq!(change("", "").to_string(), "File `` of size: ");
}

#[test]
fn change_description_keeps_text_beyond_ascii() {
    let text = change("/ws/données/été.txt", "3 Ko").to_string();
    assert_eq!(text, "File `/ws/données/été.txt` of size: 3 Ko");
}

#[test]
fn cloned_change_equals_its_source() {
    let source = change("/ws/a.txt", "12 bytes");
    let copy = source.clone();
    assert_eq!(copy, source);
    assert_eq!(copy.path, "/ws/a.txt");
    assert_eq!(copy.size, "12 bytes");
}

#[test]
fn status_without_changes_is_clean() {
    assert!(Status { changes: Vec::new() }.is_clean());
}

#[test]
fn status_with_a_change_is_not_clean() {
    assert!(!Status { changes: vec![change("a", "1")] }.is_clean());
}

#[test]
fn document_without_collection_reports_nothing() {
    let status = Status::from_document(&StatusOutput { changes: None });
    assert_eq!(status, Status { changes: Vec::new() });
    assert!(status.is_clean());
}

#[test]
fn document_with_collection_without_entries_reports_nothing() {
    let status = Status::from_document(&StatusOutput { changes: Some(Changes { changes: None }) });
    assert_eq!(status, Status { changes: Vec::new() });
}

#[test]
fn document_with_empty_entry_list_reports_nothing() {
    let status = Status::from_document(&document(Vec::new()));
    assert_eq!(status, Status { changes: Vec::new() });
}

#[test]
fn document_entries_become_changes_in_document_order() {
    let status = Status::from_document(&document(vec![
        record("/ws/b.txt", "2 KB"),
        record("/ws/a.txt", "1 KB"),
        record("/ws/c.txt", "3 KB"),
    ]));
    assert_eq!(
        status.changes,
        vec![change("/ws/b.txt", "2 KB"), change("/ws/a.txt", "1 KB"), change("/ws/c.txt", "3 KB")]
    );
}

#[test]
fn document_entries_that_repeat_are_all_kept() {
    let status = Status::from_document(&document(vec![
        record("/ws/a.txt", "1 KB"),
        record("/ws/a.txt", "1 KB"),
    ]));
    assert_eq!(status.changes, vec![change("/ws/a.txt", "1 KB"), change("/ws/a.txt", "1 KB")]);
}

#[test]
fn document_entry_without_texts_gets_empty_texts() {
    let status = Status::from_document(&document(vec![
        ChangeRecord { path: None, size: Some("9 bytes".to_string()) },
        ChangeRecord { path: Some("/ws/a.txt".to_string()), size: None },
        ChangeRecord { path: None, size: None },
    ]));
    assert_eq!(
        status.changes,
        vec![change("", "9 bytes"), change("/ws/a.txt", ""), change("", "")]
    );
}

#[test]
fn document_is_left_as_it_was_by_reading() {
    let source = document(vec![record("/ws/a.txt", "1 KB")]);
    let _ = Status::from_document(&source);
    assert_eq!(source, document(vec![record("/ws/a.txt", "1 KB")]));
}

#[test]
fn reading_a_document_gives_its_status() {
    let result = read_status(
        "<StatusOutput/>".to_string(),
        Some(document(vec![record("/ws/a.txt", "1 KB")])),
    );
    assert_eq!(result, Ok(Status { changes: vec![change("/ws/a.txt", "1 KB")] }));
}

#[test]
fn reading_a_document_without_collection_gives_a_clean_status() {
    let result = read_status("<StatusOutput/>".to_string(), Some(StatusOutput { changes: None }));
    assert_eq!(result, Ok(Status { changes: Vec::new() }));
}

#[test]
fn reading_a_document_with_empty_collection_gives_a_clean_status() {
    let result = read_status(
        "<StatusOutput><Changes/></StatusOutput>".to_string(),
        Some(StatusOutput { changes: Some(Changes { changes: None }) }),
    );
    assert_eq!(result, Ok(Status { changes: Vec::new() }));
}

#[test]
fn reading_what_is_no_document_fails_with_the_text() {
    let result = read_status("cm: command not found <<".to_string(), None);
    assert_eq!(result, Err(Failure::Decode { raw: "cm: command not found <<".to_string() }));
}

#[test]
fn reading_empty_output_that_is_no_document_fails_with_empty_text() {
    assert_eq!(read_status(String::new(), None), Err(Failure::Decode { raw: String::new() }));
}

#[test]
fn operations_are_named_as_the_client_names_them() {
    assert_eq!(Operation::Status.name(), "status");
    assert_eq!(Operation::Undo.name(), "undo");
    assert_eq!(Operation::Update.name(), "update");
}

#[test]
fn failed_status_query_is_told_with_its_detail() {
    let failure = Failure::ToolInvocation {
        operation: Operation::Status,
        detail: "Os { code: 2, kind: NotFound }".to_string(),
    };
    assert_eq!(failure.message(), "Error during `cm status`: Os { code: 2, kind: NotFound }");
}

#[test]
fn failed_undo_is_told_with_its_detail() {
    let failure =
        Failure::ToolInvocation { operation: Operation::Undo, detail: "killed".to_string() };
    assert_eq!(failure.message(), "Error during `cm undo`: killed");
}

#[test]
fn failed_update_is_told_with_its_detail() {
    let failure =
        Failure::ToolInvocation { operation: Operation::Update, detail: String::new() };
    assert_eq!(failure.message(), "Error during `cm update`: ");
}

#[test]
fn decoding_failure_is_told_with_the_whole_output() {
    let failure = Failure::Decode { raw: "<Status\nOutput".to_string() };
    assert_eq!(failure.message(), "Cannot deserialize `<Status\nOutput`");
}

#[test]
fn cloned_failure_equals_its_source() {
    let tool = Failure::ToolInvocation { operation: Operation::Undo, detail: "x".to_string() };
    let decode = Failure::Decode { raw: "y".to_string() };
    assert_eq!(tool.clone(), tool);
    assert_eq!(decode.clone(), decode);
    assert_ne!(tool, decode);
}
