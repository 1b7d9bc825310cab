use dockteur::configuration::InvalidConfiguration;
use dockteur::health_checker::Reason::{TimedOut, UnexpectedStatusCode};
use dockteur::health_checker::State::{Healthy, Unhealthy};
use dockteur::health_checker::{HeathcheckFailure, State};
use dockteur::system::ExitCode;

#[test]
fn healthy_state_should_be_converted_to_process_exit_status() {
    let result: Result<State, HeathcheckFailure> = Ok(Healthy);

    let status = result.to_exit_code();

    assert_eq!(0, status);
}

#[test]
fn unhealthy_state_should_be_converted_to_process_exit_status() {
    let timed_out: Result<State, HeathcheckFailure> = Ok(Unhealthy(TimedOut(0)));
    let status_code: Result<State, HeathcheckFailure> =
        Ok(Unhealthy(UnexpectedStatusCode(500, "Internal server error".to_string())));

    assert_eq!(1, timed_out.to_exit_code());
    assert_eq!(1, status_code.to_exit_code());
}

#[test]
fn failure_should_be_converted_to_process_exit_status() {
    let result: Result<State, HeathcheckFailure> =
        Err(HeathcheckFailure { message: "network error: connection refused".to_string() });

    let status = result.to_exit_code();

    assert_eq!(2, status);
}

#[test]
fn invalid_configuration_should_be_converted_to_process_exit_status() {
    let result: Result<State, InvalidConfiguration> =
        Err(InvalidConfiguration::Port("MALFORMED".to_string()));

    let status = result.to_exit_code();

    assert_eq!(2, status);
}

#[test]
fn invalid_port_message() {
    let err = InvalidConfiguration::Port(String::from("MALFORMED"));

    let result = err.message();

    assert_eq!("invalid port 'MALFORMED'", result)
}

#[test]
fn invalid_timeout_message() {
    let err = InvalidConfiguration::Timeout(String::from("MALFORMED"));

    let result = err.message();

    assert_eq!("invalid timeout 'MALFORMED'", result)
}

#[test]
fn invalid_status_code_message() {
    let err = InvalidConfiguration::StatusCode(String::from("MALFORMED"));

    let result = err.message();

    assert_eq!("invalid status code 'MALFORMED'", result)
}

#[test]
fn invalid_method_message() {
    let err = InvalidConfiguration::Method(String::from("MALFORMED"));

    let result = err.message();

    assert_eq!("invalid method 'MALFORMED'", result)
}

#[test]
fn invalid_protocol_message() {
    let err = InvalidConfiguration::Protocol(String::from("MALFORMED"));

    let result = err.message();

    assert_eq!("invalid protocol 'MALFORMED'", result)
}
