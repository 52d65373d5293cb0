use paperless_ngx::client::PaperlessNgxClientBuilder;
use paperless_ngx::errors::PaperlessError;
use paperless_ngx::task::{Task, TaskStatus};

fn record(file: &str, status: &str) -> TaskStatus {
    TaskStatus {
        task_file_name: file.to_string(),
        status: status.to_string(),
        related_document: None,
        result: None,
    }
}

#[test]
fn status_single_record_is_returned() {
    let r = Task::status_select(vec![record("a.pdf", "SUCCESS")]).unwrap();
    assert_eq!(r.task_file_name, "a.pdf");
    assert_eq!(r.status, "SUCCESS");
}

#[test]
fn status_zero_records_fails() {
    let r = Task::status_select(Vec::new());
    assert!(matches!(r, Err(PaperlessError::TooManyTasks)));
}

#[test]
fn status_multiple_records_returns_first() {
    // The stated policy for the ambiguous case: best effort, first record.
    let r = Task::status_select(vec![record("first.pdf", "SUCCESS"), record("second.pdf", "FAILURE")])
        .unwrap();
    assert_eq!(r.task_file_name, "first.pdf");
    assert_eq!(r.status, "SUCCESS");
}

#[test]
fn upload_body_yields_task_with_quotes_stripped() {
    // A ten-byte document answered with "abc-123" (quoted on the wire).
    let t = Task::from_upload_body("\"abc-123\"");
    assert_eq!(t.uuid, "abc-123");
    // Polling that task against one SUCCESS record returns it unchanged.
    let r = Task::status_select(vec![record("doc.pdf", "SUCCESS")]).unwrap();
    assert_eq!(r.status, "SUCCESS");
    assert_eq!(r.task_file_name, "doc.pdf");
    assert!(r.related_document.is_none());
    assert!(r.result.is_none());
}

#[test]
fn upload_body_without_quotes_is_kept() {
    let t = Task::from_upload_body("abc-123");
    assert_eq!(t.uuid, "abc-123");
}

#[test]
fn dry_run_task_has_sentinel_id() {
    let t = Task::dry_run();
    assert_eq!(t.uuid, "noop uuid");
}

#[test]
fn status_request_targets_task_id() {
    let client = PaperlessNgxClientBuilder::default()
        .set_url("https://localhost")
        .set_auth_token("melon")
        .build()
        .unwrap();
    let t = Task::from_uuid("abc-123".to_string());
    let req = t.status_request(&client);
    assert_eq!(req.url, "https://localhost/api/tasks/?task_id=abc-123");
    assert_eq!(req.auth_header, "Token melon");
}
