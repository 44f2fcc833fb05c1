use tencentcloud_sdk_sms::client::{Error, Response, SendSmsResponse, SendStatusSet};

fn status(phone_number: &str, code: &str) -> SendStatusSet {
    SendStatusSet {
        serial_no: "2019:538884*********3".to_owned(),
        phone_number: phone_number.to_owned(),
        fee: 1,
        session_context: String::new(),
        code: code.to_owned(),
        message: "send success".to_owned(),
        iso_code: "CN".to_owned(),
    }
}

fn response_with(statuses: Option<Vec<SendStatusSet>>) -> SendSmsResponse {
    SendSmsResponse {
        response: Response {
            send_status_set: statuses,
            request_id: "a0aabda6-cf91-4f3e-a81f-9198114a2279".to_owned(),
            error: None,
        },
    }
}

#[test]
fn no_success_without_statuses() {
    assert!(!response_with(None).check_is_success("+8613800000000".to_owned()));
    assert!(!SendSmsResponse::default().check_is_success("+8613800000000".to_owned()));
}

#[test]
fn no_success_in_an_empty_list() {
    assert!(!response_with(Some(vec![])).check_is_success("+8613800000000".to_owned()));
}

#[test]
fn no_success_with_another_code() {
    let response = response_with(Some(vec![status("+8613800000000", "FailedOperation.SignatureIncorrectOrUnapproved")]));
    assert!(!response.check_is_success("+8613800000000".to_owned()));
}

#[test]
fn success_with_the_number_and_the_code_ok() {
    let response = response_with(Some(vec![status("+8613800000000", "Ok")]));
    assert!(response.check_is_success("+8613800000000".to_owned()));
}

#[test]
fn no_success_for_a_number_without_status() {
    let response = response_with(Some(vec![status("+8613900000000", "Ok")]));
    assert!(!response.check_is_success("+8613800000000".to_owned()));
}

#[test]
fn the_code_is_compared_exactly() {
    for code in ["ok", "OK", "Ok ", " Ok", "", "Okay"] {
        let response = response_with(Some(vec![status("+8613800000000", code)]));
        assert!(!response.check_is_success("+8613800000000".to_owned()));
    }
}

#[test]
fn the_number_is_compared_exactly() {
    let response = response_with(Some(vec![status("+8613800000000", "Ok")]));
    assert!(!response.check_is_success("8613800000000".to_owned()));
    assert!(!response.check_is_success("+86138".to_owned()));
    assert!(!response.check_is_success("+8613800000000 ".to_owned()));
    assert!(!response.check_is_success(String::new()));
}

#[test]
fn each_number_of_a_batch_has_its_own_outcome() {
    let response = response_with(Some(vec![
        status("+8613800000000", "Ok"),
        status("+8613900000000", "LimitExceeded.PhoneNumberDailyLimit"),
        status("+8613700000000", "Ok"),
    ]));
    assert!(response.check_is_success("+8613800000000".to_owned()));
    assert!(!response.check_is_success("+8613900000000".to_owned()));
    assert!(response.check_is_success("+8613700000000".to_owned()));
    assert!(!response.check_is_success("+8613600000000".to_owned()));
}

#[test]
fn the_first_status_of_a_number_decides() {
    let failed_first = response_with(Some(vec![
        status("+8613800000000", "FailedOperation.FailResolvePacket"),
        status("+8613800000000", "Ok"),
    ]));
    assert!(!failed_first.check_is_success("+8613800000000".to_owned()));
    let ok_first = response_with(Some(vec![
        status("+8613900000000", "Ok"),
        status("+8613800000000", "Ok"),
        status("+8613800000000", "FailedOperation.FailResolvePacket"),
    ]));
    assert!(ok_first.check_is_success("+8613800000000".to_owned()));
}

#[test]
fn default_values_are_empty() {
    let status = SendStatusSet::default();
    assert_eq!(status.serial_no, "");
    assert_eq!(status.phone_number, "");
    assert_eq!(status.fee, 0);
    assert_eq!(status.session_context, "");
    assert_eq!(status.code, "");
    assert_eq!(status.message, "");
    assert_eq!(status.iso_code, "");
    let error = Error::default();
    assert_eq!(error.code, "");
    assert_eq!(error.message, "");
    let response = Response::default();
    assert_eq!(response.send_status_set, None);
    assert_eq!(response.request_id, "");
    assert_eq!(response.error, None);
    assert_eq!(SendSmsResponse::default().response, response);
}

#[test]
fn a_response_with_an_error_is_a_failure() {
    let error = Error {
        code: "AuthFailure.SignatureFailure".to_owned(),
        message: "The provided credentials could not be validated.".to_owned(),
    };
    let envelope = SendSmsResponse {
        response: Response {
            send_status_set: None,
            request_id: "ed93f3cb-f35e-473f-b9f3-0d451b8b79c6".to_owned(),
            error: Some(error.clone()),
        },
    };
    assert_eq!(envelope.into_result(), Err(error));
}

#[test]
fn a_response_without_an_error_is_kept() {
    let envelope = response_with(Some(vec![status("+8613800000000", "Ok")]));
    assert_eq!(envelope.clone().into_result(), Ok(envelope));
    assert_eq!(SendSmsResponse::default().into_result(), Ok(SendSmsResponse::default()));
}
