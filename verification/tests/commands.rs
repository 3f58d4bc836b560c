use medit::commands::{
    exit_app, greet, new_file, read_file, write_file, FileContent, FileResult, NewFileResult,
};

#[test]
fn successful_read_reports_the_text() {
    let result = read_file(Ok("# Title\n\nbody\n".to_string()));
    assert_eq!(
        result,
        FileResult { success: true, content: Some("# Title\n\nbody\n".to_string()), error: None }
    );
}

#[test]
fn successful_read_of_an_empty_file_reports_empty_text() {
    let result = read_file(Ok(String::new()));
    assert!(result.success);
    assert_eq!(result.content, Some(String::new()));
    assert_eq!(result.error, None);
}

#[test]
fn read_keeps_non_ascii_text_exactly() {
    let text = "标题 — naïve ✓\r\n";
    let result = read_file(Ok(text.to_string()));
    assert_eq!(result.content.as_deref(), Some(text));
}

#[test]
fn failed_read_reports_the_message() {
    let result = read_file(Err("No such file or directory (os error 2)".to_string()));
    assert!(!result.success);
    assert_eq!(result.content, None);
    assert_eq!(result.error, Some("No such file or directory (os error 2)".to_string()));
    assert!(!result.error.unwrap().is_empty());
}

#[test]
fn failed_read_hands_on_whatever_message_it_was_given() {
    let result = read_file(Err(String::new()));
    assert_eq!(result, FileResult { success: false, content: None, error: Some(String::new()) });
}

#[test]
fn successful_write_reports_bare_success() {
    let result = write_file(Ok(()));
    assert_eq!(result, FileResult { success: true, content: None, error: None });
}

#[test]
fn failed_write_reports_the_message() {
    let result = write_file(Err("Permission denied (os error 13)".to_string()));
    assert_eq!(
        result,
        FileResult {
            success: false,
            content: None,
            error: Some("Permission denied (os error 13)".to_string()),
        }
    );
}

#[test]
fn new_file_always_succeeds() {
    assert_eq!(new_file(), NewFileResult { success: true });
    let _ = read_file(Err("failure before".to_string()));
    let _ = write_file(Err("failure before".to_string()));
    assert!(new_file().success);
    assert!(new_file().success);
}

#[test]
fn exit_status_is_success() {
    assert_eq!(exit_app(), 0);
}

#[test]
fn greeting_wraps_the_name() {
    assert_eq!(greet("World"), "Hello, World! You've been greeted from Rust!");
    assert_eq!(greet(""), "Hello, ! You've been greeted from Rust!");
    assert_eq!(greet("世界"), "Hello, 世界! You've been greeted from Rust!");
}

#[test]
fn file_content_holds_path_and_text() {
    let file = FileContent { path: "/tmp/a.md".to_string(), content: "text".to_string() };
    assert_eq!(file.path, "/tmp/a.md");
    assert_eq!(file.content, "text");
}
