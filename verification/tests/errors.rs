use conditional_s3_fetch::Error;

#[test]
fn messages_name_the_stage_and_the_reason() {
    assert_eq!(
        Error::SdkError("dispatch failure".to_string()).to_string(),
        "S3 Access Error: dispatch failure"
    );
    assert_eq!(
        Error::ReadError("streaming error".to_string()).to_string(),
        "Read Error: streaming error"
    );
    assert_eq!(
        Error::ParseError("invalid utf-8".to_string()).to_string(),
        "Parse Error: invalid utf-8"
    );
    assert_eq!(
        Error::UnabledToLoad.to_string(),
        "Unabled to convert an unloaded file to a loaded file"
    );
}

#[test]
fn message_with_an_empty_reason() {
    assert_eq!(Error::SdkError(String::new()).to_string(), "S3 Access Error: ");
}

#[test]
fn display_writes_the_message() {
    let error = Error::ParseError("expected value at line 1 column 1".to_string());
    assert_eq!(
        format!("{}", error),
        "Parse Error: expected value at line 1 column 1"
    );
    assert_eq!(format!("{}", Error::UnabledToLoad), Error::UnabledToLoad.to_string());
}

#[test]
fn errors_box_as_std_errors() {
    let boxed: Box<dyn std::error::Error + Send + Sync> = Box::new(Error::UnabledToLoad);
    assert_eq!(
        format!("{}", boxed),
        "Unabled to convert an unloaded file to a loaded file"
    );
}
