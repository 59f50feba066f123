use workspace_reconcile::change::Change;
use workspace_reconcile::document::{ChangeRecord, Changes, StatusOutput};
use workspace_reconcile::failure::Failure;
use workspace_reconcile::invocation::{get_status, undo, update_latest, Operation};
use workspace_reconcile::reconcile::{ensure_clean, update, Action, Event};

fn change(path: &str) -> Change {
    Change { path: path.to_string(), size: "1 KB".to_string() }
}

fn found(paths: &[&str]) -> Event {
    let records = paths
        .iter()
        .map(|path| ChangeRecord { path: Some(path.to_string()), size: Some("1 KB".to_string()) })
        .collect();
    Event::StatusCaptured {
        raw: "<StatusOutput/>".to_string(),
        document: Some(StatusOutput { changes: Some(Changes { changes: Some(records) }) }),
    }
}

fn undo_of(path: &str) -> Action {
    Action::Undo { change: change(path) }
}

fn tool_failed(detail: &str) -> Event {
    Event::ToolFailed { detail: detail.to_string() }
}

fn tool_failure(operation: Operation, detail: &str) -> Action {
    Action::Abort { failure: Failure::ToolInvocation { operation, detail: detail.to_string() } }
}

#[test]
fn cleaning_begins_with_a_status_query() {
    let run = ensure_clean("/ws");
    assert_eq!(run.action(), Action::QueryStatus);
    assert_eq!(run.invocation(), Some(get_status("/ws")));
    assert!(!run.has_ended());
    assert!(run.pending().is_empty());
}

#[test]
fn update_begins_with_a_status_query() {
    let run = update("/ws");
    assert_eq!(run.action(), Action::QueryStatus);
    assert_eq!(run.invocation(), Some(get_status("/ws")));
    assert!(!run.has_ended());
}

#[test]
fn clean_workspace_ends_cleaning_after_one_query() {
    let run = ensure_clean("/ws").step(found(&[]));
    assert_eq!(run.action(), Action::Finish);
    assert_eq!(run.invocation(), None);
    assert!(run.has_ended());
}

#[test]
fn document_without_collection_ends_cleaning() {
    let run = ensure_clean("/ws").step(Event::StatusCaptured {
        raw: "<StatusOutput/>".to_string(),
        document: Some(StatusOutput { changes: None }),
    });
    assert_eq!(run.action(), Action::Finish);
}

#[test]
fn one_dirty_file_is_undone_and_the_status_asked_again() {
    let run = ensure_clean("/ws");
    assert_eq!(run.action(), Action::QueryStatus);
    let run = run.step(found(&["/ws/a.txt"]));
    assert_eq!(run.action(), undo_of("/ws/a.txt"));
    assert_eq!(run.invocation(), Some(undo(&change("/ws/a.txt"), "/ws")));
    let run = run.step(Event::Completed);
    assert_eq!(run.action(), Action::QueryStatus);
    let run = run.step(found(&[]));
    assert_eq!(run.action(), Action::Finish);
    assert!(run.has_ended());
}

#[test]
fn changes_are_undone_in_the_order_of_the_status() {
    let mut run = ensure_clean("/ws").step(found(&["/ws/c", "/ws/a", "/ws/b", "/ws/a"]));
    let mut undone = Vec::new();
    while let Action::Undo { change } = run.action() {
        undone.push(change.path);
        run = run.step(Event::Completed);
    }
    assert_eq!(undone, vec!["/ws/c", "/ws/a", "/ws/b", "/ws/a"]);
    assert_eq!(run.action(), Action::QueryStatus);
}

#[test]
fn pending_lists_what_is_still_to_undo() {
    let run = ensure_clean("/ws").step(found(&["/ws/a", "/ws/b", "/ws/c"]));
    assert_eq!(run.pending(), vec![change("/ws/a"), change("/ws/b"), change("/ws/c")]);
    let run = run.step(Event::Completed);
    assert_eq!(run.pending(), vec![change("/ws/b"), change("/ws/c")]);
    let run = run.step(Event::Completed);
    assert_eq!(run.pending(), vec![change("/ws/c")]);
    let run = run.step(Event::Completed);
    assert!(run.pending().is_empty());
    assert_eq!(run.action(), Action::QueryStatus);
}

#[test]
fn update_of_clean_workspace_updates_then_checks_again() {
    let run = update("/ws").step(found(&[]));
    assert_eq!(run.action(), Action::UpdateToLatest);
    assert_eq!(run.invocation(), Some(update_latest("/ws")));
    let run = run.step(Event::Completed);
    assert_eq!(run.action(), Action::QueryStatus);
    let run = run.step(found(&[]));
    assert_eq!(run.action(), Action::Finish);
}

#[test]
fn update_is_asked_only_once() {
    let run = update("/ws").step(found(&[])).step(Event::Completed);
    let run = run.step(found(&["/ws/a"])).step(Event::Completed);
    assert_eq!(run.action(), Action::QueryStatus);
    let run = run.step(found(&[]));
    assert_eq!(run.action(), Action::Finish);
}

#[test]
fn update_cleans_a_dirty_workspace_first() {
    let run = update("/ws").step(found(&["/ws/a"]));
    assert_eq!(run.action(), undo_of("/ws/a"));
    let run = run.step(Event::Completed).step(found(&[]));
    assert_eq!(run.action(), Action::UpdateToLatest);
}

#[test]
fn failed_status_query_aborts() {
    let run = ensure_clean("/ws").step(tool_failed("no such file"));
    assert_eq!(run.action(), tool_failure(Operation::Status, "no such file"));
    assert_eq!(run.invocation(), None);
    assert!(run.has_ended());
}

#[test]
fn status_output_that_is_no_document_aborts_with_the_output() {
    let run = ensure_clean("/ws")
        .step(Event::StatusCaptured { raw: "not a document".to_string(), document: None });
    assert_eq!(
        run.action(),
        Action::Abort { failure: Failure::Decode { raw: "not a document".to_string() } }
    );
    assert!(run.has_ended());
}

#[test]
fn failed_undo_aborts_and_leaves_the_rest() {
    let run = ensure_clean("/ws").step(found(&["/ws/a", "/ws/b", "/ws/c"]));
    let run = run.step(Event::Completed).step(tool_failed("killed"));
    assert_eq!(run.action(), tool_failure(Operation::Undo, "killed"));
    assert!(run.pending().is_empty());
    let run = run.step(Event::Completed);
    assert_eq!(run.action(), tool_failure(Operation::Undo, "killed"));
}

#[test]
fn failed_update_aborts() {
    let run = update("/ws").step(found(&[])).step(tool_failed("denied"));
    assert_eq!(run.action(), tool_failure(Operation::Update, "denied"));
    assert!(run.has_ended());
}

#[test]
fn failed_second_status_query_stops_the_loop() {
    let run = ensure_clean("/ws").step(found(&["/ws/a", "/ws/b"]));
    let run = run.step(Event::Completed).step(Event::Completed);
    assert_eq!(run.action(), Action::QueryStatus);
    let run = run.step(tool_failed("gone"));
    assert_eq!(run.action(), tool_failure(Operation::Status, "gone"));
    let run = run.step(found(&["/ws/c"]));
    assert_eq!(run.action(), tool_failure(Operation::Status, "gone"));
    let run = run.step(Event::Completed);
    assert_eq!(run.action(), tool_failure(Operation::Status, "gone"));
    assert_eq!(run.invocation(), None);
}

#[test]
fn nothing_moves_a_run_that_has_ended_well() {
    let run = ensure_clean("/ws").step(found(&[]));
    let run = run.step(found(&["/ws/a"])).step(Event::Completed).step(tool_failed("late"));
    assert_eq!(run.action(), Action::Finish);
}

#[test]
fn event_that_answers_another_action_changes_nothing() {
    let run = ensure_clean("/ws").step(Event::Completed);
    assert_eq!(run.action(), Action::QueryStatus);
    let run = run.step(found(&["/ws/a", "/ws/b"])).step(found(&["/ws/z"]));
    assert_eq!(run.action(), undo_of("/ws/a"));
    assert_eq!(run.pending(), vec![change("/ws/a"), change("/ws/b")]);
    let run = update("/ws").step(found(&[])).step(found(&[]));
    assert_eq!(run.action(), Action::UpdateToLatest);
}

#[test]
fn every_command_runs_in_the_workspace_of_the_run() {
    let mut run = update("/my/ws");
    let events =
        vec![found(&["/my/ws/a"]), Event::Completed, found(&[]), Event::Completed, found(&[])];
    let mut commands = 0;
    for event in events {
        let command = run.invocation().unwrap();
        assert_eq!(command.program, "cm");
        assert_eq!(command.working_dir, "/my/ws");
        commands += 1;
        run = run.step(event);
    }
    assert_eq!(commands, 5);
    assert_eq!(run.action(), Action::Finish);
}

#[test]
fn cleaning_a_clean_workspace_twice_takes_one_query_each_time() {
    for _ in 0..2 {
        let run = ensure_clean("/ws");
        assert_eq!(run.action(), Action::QueryStatus);
        assert_eq!(run.step(found(&[])).action(), Action::Finish);
    }
}

#[test]
fn change_without_path_is_undone_all_the_same() {
    let run = ensure_clean("/ws").step(Event::StatusCaptured {
        raw: String::new(),
        document: Some(StatusOutput {
            changes: Some(Changes {
                changes: Some(vec![ChangeRecord { path: None, size: None }]),
            }),
        }),
    });
    assert_eq!(
        run.action(),
        Action::Undo { change: Change { path: String::new(), size: String::new() } }
    );
    assert_eq!(run.invocation().unwrap().arguments, vec!["undo", ""]);
}
