use command_bridge::outcome::{respond, CommandError, Reply};

#[test]
fn window_not_found_is_described_by_its_fixed_sentence() {
    assert_eq!(
        CommandError::WindowNotFound.message(),
        "Main window not found"
    );
}

#[test]
fn operation_failed_is_described_by_the_system_unchanged() {
    let detail = "failed to send message to the event loop";
    assert_eq!(
        CommandError::OperationFailed(detail.to_string()).message(),
        detail
    );
    assert_eq!(CommandError::OperationFailed(String::new()).message(), "");
    assert_eq!(
        CommandError::OperationFailed("Main window not found".to_string()).message(),
        "Main window not found"
    );
}

#[test]
fn respond_hands_a_reply_on_as_it_is() {
    assert_eq!(respond(Ok(Reply::Unit)), Ok(Reply::Unit));
    assert_eq!(
        respond(Ok(Reply::Text("Hello".to_string()))),
        Ok(Reply::Text("Hello".to_string()))
    );
}

#[test]
fn respond_turns_an_error_into_its_description() {
    assert_eq!(
        respond(Err(CommandError::WindowNotFound)),
        Err("Main window not found".to_string())
    );
    assert_eq!(
        respond(Err(CommandError::OperationFailed("access denied".to_string()))),
        Err("access denied".to_string())
    );
}
