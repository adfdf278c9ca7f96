use leptos::{Serializable, SerializationError};
use leptos_reqwest::dispatch::{
    error_result, is_success, send, send_and_parse, success_result, Body, Next, Shape,
};
use leptos_reqwest::error::LeptosReqwestError;

#[derive(Debug, Clone, PartialEq)]
pub struct CustomErrors {
    pub errors: Vec<CustomError>,
}

#[derive(Debug, Clone, PartialEq)]
pub struct CustomError {
    pub message: String,
    pub code: String,
}

impl LeptosReqwestError for CustomErrors {
    fn deserialization_error(e: SerializationError) -> Self {
        CustomErrors {
            errors: vec![CustomError { message: e.to_string(), code: String::from("500") }],
        }
    }

    fn read_error(e: reqwest::Error) -> Self {
        CustomErrors {
            errors: vec![CustomError { message: e.to_string(), code: String::from("400") }],
        }
    }
}

impl Default for CustomErrors {
    fn default() -> Self {
        CustomErrors {
            errors: vec![CustomError {
                message: String::from("System Error"),
                code: String::from("500"),
            }],
        }
    }
}

fn system_error() -> CustomErrors {
    CustomErrors {
        errors: vec![CustomError { message: String::from("System Error"), code: String::from("500") }],
    }
}

/// An error of the transport, made without any traffic.
fn transport_error() -> reqwest::Error {
    reqwest::Client::new().get("not an address").build().unwrap_err()
}

/// The error shape on the wire: a list of pairs of message and code.
fn decode_errors(text: &str) -> Result<CustomErrors, SerializationError> {
    let pairs = <Vec<(String, String)>>::de(text)?;
    Ok(CustomErrors {
        errors: pairs.into_iter().map(|(message, code)| CustomError { message, code }).collect(),
    })
}

fn read_as_errors(text: &str) -> Body<CustomErrors> {
    Ok(decode_errors(text))
}

#[test]
fn success_class_is_200_to_299() {
    assert!(!is_success(0));
    assert!(!is_success(199));
    assert!(is_success(200));
    assert!(is_success(204));
    assert!(is_success(299));
    assert!(!is_success(300));
    assert!(!is_success(404));
    assert!(!is_success(u16::MAX));
}

#[test]
fn parsing_dispatch_without_response_ends_on_the_default_error() {
    let next = send_and_parse::<u64, CustomErrors>(Err(transport_error()));
    match next {
        Next::Done(Err(e)) => assert_eq!(e, system_error()),
        other => panic!("{:?}", other),
    }
}

#[test]
fn parsing_dispatch_reads_a_success_on_200_only() {
    assert!(matches!(send_and_parse::<u64, CustomErrors>(Ok(200)), Next::Read(Shape::Success)));
    for status in [0u16, 100, 199, 201, 204, 299, 300, 301, 400, 404, 500, 999, u16::MAX] {
        assert!(matches!(
            send_and_parse::<u64, CustomErrors>(Ok(status)),
            Next::Read(Shape::Error)
        ));
    }
}

#[test]
fn reporting_dispatch_without_response_ends_on_the_default_error() {
    match send::<CustomErrors>(Err(transport_error())) {
        Next::Done(Err(e)) => assert_eq!(e, system_error()),
        other => panic!("{:?}", other),
    }
}

#[test]
fn reporting_dispatch_is_over_with_true_on_every_success_status() {
    for status in 200u16..300 {
        assert!(matches!(send::<CustomErrors>(Ok(status)), Next::Done(Ok(true))));
    }
}

#[test]
fn reporting_dispatch_reads_an_error_on_every_other_status() {
    for status in [0u16, 100, 199, 300, 301, 400, 404, 500, 999, u16::MAX] {
        assert!(matches!(send::<CustomErrors>(Ok(status)), Next::Read(Shape::Error)));
    }
}

#[test]
fn both_dispatches_agree_on_statuses_outside_the_success_class() {
    for status in (0u16..200).chain(300..1000) {
        let reporting = send::<CustomErrors>(Ok(status));
        let parsing = send_and_parse::<u64, CustomErrors>(Ok(status));
        assert!(matches!(reporting, Next::Read(Shape::Error)));
        assert!(matches!(parsing, Next::Read(Shape::Error)));
    }
}

#[test]
fn success_body_of_the_success_shape_is_the_result() {
    let body: Body<Vec<String>> = Ok(<Vec<String>>::de("[\"a\",\"b\"]"));
    let result: Result<Vec<String>, CustomErrors> = success_result(body);
    assert_eq!(result, Ok(vec![String::from("a"), String::from("b")]));
}

#[test]
fn success_body_of_another_shape_is_a_deserialization_error() {
    let decoded = <u64>::de("{\"errors\":[]}");
    let message = match &decoded {
        Err(e) => e.to_string(),
        Ok(_) => panic!("decoded"),
    };
    let result: Result<u64, CustomErrors> = success_result(Ok(decoded));
    assert_eq!(
        result,
        Err(CustomErrors { errors: vec![CustomError { message, code: String::from("500") }] })
    );
}

#[test]
fn success_body_that_cannot_be_read_is_a_read_error() {
    let cause = transport_error();
    let message = cause.to_string();
    let result: Result<u64, CustomErrors> = success_result(Err(cause));
    assert_eq!(
        result,
        Err(CustomErrors { errors: vec![CustomError { message, code: String::from("400") }] })
    );
}

#[test]
fn error_body_of_the_error_shape_is_the_error() {
    let result: Result<u64, CustomErrors> =
        error_result(read_as_errors("[[\"Not Found\",\"404\"]]"));
    assert_eq!(
        result,
        Err(CustomErrors {
            errors: vec![CustomError {
                message: String::from("Not Found"),
                code: String::from("404"),
            }],
        })
    );
}

#[test]
fn error_body_of_another_shape_is_a_deserialization_error() {
    let decoded = decode_errors("not json");
    let message = match &decoded {
        Err(e) => e.to_string(),
        Ok(_) => panic!("decoded"),
    };
    assert!(message.starts_with("error deserializing"));
    let result: Result<bool, CustomErrors> = error_result(Ok(decoded));
    assert_eq!(
        result,
        Err(CustomErrors { errors: vec![CustomError { message, code: String::from("500") }] })
    );
}

#[test]
fn error_body_that_cannot_be_read_is_a_read_error() {
    let cause = transport_error();
    let message = cause.to_string();
    let result: Result<bool, CustomErrors> = error_result(Err(cause));
    assert_eq!(
        result,
        Err(CustomErrors { errors: vec![CustomError { message, code: String::from("400") }] })
    );
}
