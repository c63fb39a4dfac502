use projection_shell::host::{report, HostOperationError};
use projection_shell::notification::{send_notification, Notification};

#[test]
fn notification_keeps_title_and_body() {
    let notification = send_notification("Time is up".to_string(), "The talk is over.".to_string());
    assert_eq!(
        notification,
        Notification { title: "Time is up".to_string(), body: "The talk is over.".to_string() }
    );
}

#[test]
fn notification_does_not_swap_title_and_body() {
    let notification = send_notification("title".to_string(), "body".to_string());
    assert_eq!(notification.title, "title");
    assert_eq!(notification.body, "body");
}

#[test]
fn empty_notification_is_dispatched() {
    let notification = send_notification(String::new(), String::new());
    assert_eq!(notification.title, "");
    assert_eq!(notification.body, "");
    // The host accepted it: the command succeeds.
    assert_eq!(report(Ok(())), Ok(()));
}

#[test]
fn empty_notification_fails_only_where_the_host_does() {
    let _notification = send_notification(String::new(), String::new());
    let reply = Err(HostOperationError::new("notifications are disabled".to_string()));
    assert_eq!(report(reply), Err("notifications are disabled".to_string()));
}

#[test]
fn report_passes_success_on() {
    assert_eq!(report(Ok(())), Ok(()));
}

#[test]
fn report_passes_the_diagnostic_on_verbatim() {
    let diagnostic = "  a window with label `projection` already exists\n";
    let reply = Err(HostOperationError::new(diagnostic.to_string()));
    assert_eq!(report(reply), Err(diagnostic.to_string()));
}

#[test]
fn report_passes_an_empty_diagnostic_on() {
    let reply = Err(HostOperationError::new(String::new()));
    assert_eq!(report(reply), Err(String::new()));
}

#[test]
fn host_error_holds_the_diagnostic() {
    let error = HostOperationError::new("out of memory".to_string());
    assert_eq!(error.diagnostic, "out of memory");
    assert_eq!(error.into_diagnostic(), "out of memory");
}
