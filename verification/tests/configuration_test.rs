use dockteur::configuration::{
    load_configuration_from, parse_method, sanitize, InvalidConfiguration, Method,
};

fn map(pairs: &[(&str, &str)]) -> Vec<(String, String)> {
    pairs.iter().map(|(k, v)| (k.to_string(), v.to_string())).collect()
}

#[test]
fn configuration_test_non_empty_string_sanitization() {
    let result = sanitize("test");

    assert_eq!(Some("test".to_string()), result)
}

#[test]
fn configuration_test_empty_string_sanitization() {
    let result = sanitize("");

    assert_eq!(None, result)
}

#[test]
fn configuration_test_blank_string_sanitization() {
    let result = sanitize(" ");

    assert_eq!(None, result)
}

#[test]
fn test_method_conversion_from_http_method() {
    let result = parse_method("GET");

    assert_eq!(result, Some(Method::Get));
    assert_eq!(Method::Get.token(), "GET");
}

#[test]
fn configuration_test_service_method_should_be_read_from_environment_variable() {
    let result = load_configuration_from(map(&[("DOCKTEUR_METHOD", "HEAD")]));

    let configuration = result.unwrap();
    assert_eq!(configuration.method, Method::Head);
}

#[test]
fn configuration_test_service_method_should_fallback_on_default() {
    let result = load_configuration_from(map(&[]));

    let configuration = result.unwrap();
    assert_eq!(configuration.method, Method::Get);
}

#[test]
fn configuration_test_empty_service_method_should_fallback_on_default() {
    let result = load_configuration_from(map(&[("DOCKTEUR_METHOD", "")]));

    let configuration = result.unwrap();
    assert_eq!(configuration.method, Method::Get);
}

#[test]
fn configuration_test_blank_service_method_should_fallback_on_default() {
    let result = load_configuration_from(map(&[("DOCKTEUR_METHOD", " ")]));

    let configuration = result.unwrap();
    assert_eq!(configuration.method, Method::Get);
}

#[test]
fn configuration_test_service_method_should_be_trimmed() {
    let result = load_configuration_from(map(&[("DOCKTEUR_METHOD", " POST ")]));

    let configuration = result.unwrap();
    assert_eq!(configuration.method, Method::Post);
}

#[test]
fn malformed_service_method_should_be_reported() {
    let result = load_configuration_from(map(&[("DOCKTEUR_METHOD", "DO@SOMETHING")]));

    let error = result.unwrap_err();
    assert_eq!(error, InvalidConfiguration::Method("DO@SOMETHING".to_string()));
}

#[test]
fn configuration_test_expected_status_code_should_be_read_from_environment_variable() {
    let result = load_configuration_from(map(&[("DOCKTEUR_STATUS_CODE", "201")]));

    let configuration = result.unwrap();
    assert_eq!(configuration.status_code.get(), 201);
}

#[test]
fn configuration_test_expected_status_code_should_fallback_on_default() {
    let result = load_configuration_from(map(&[]));

    let configuration = result.unwrap();
    assert_eq!(configuration.status_code.get(), 200);
}

#[test]
fn configuration_test_malformed_status_code_should_not_be_accepted() {
    let result = load_configuration_from(map(&[("DOCKTEUR_STATUS_CODE", "MALFORMED")]));

    let error = result.unwrap_err();
    assert_eq!(error, InvalidConfiguration::StatusCode("MALFORMED".to_string()));
}

#[test]
fn configuration_test_empty_status_code_should_fallback_on_default() {
    let result = load_configuration_from(map(&[("DOCKTEUR_STATUS_CODE", "")]));

    let configuration = result.unwrap();
    assert_eq!(configuration.status_code.get(), 200);
}

#[test]
fn configuration_test_blank_status_code_should_fallback_on_default() {
    let result = load_configuration_from(map(&[("DOCKTEUR_STATUS_CODE", " ")]));

    let configuration = result.unwrap();
    assert_eq!(configuration.status_code.get(), 200);
}

#[test]
fn status_code_0_should_not_be_accepted() {
    let result = load_configuration_from(map(&[("DOCKTEUR_STATUS_CODE", "0")]));

    let error = result.unwrap_err();
    assert_eq!(error, InvalidConfiguration::StatusCode("0".to_string()));
}

#[test]
fn configuration_test_service_port_should_be_read_from_environment_variable() {
    let result = load_configuration_from(map(&[("DOCKTEUR_PORT", "8080")]));

    let configuration = result.unwrap();
    assert_eq!(configuration.port.get(), 8080);
}

#[test]
fn configuration_test_service_port_should_be_read_from_common_environment_variable() {
    let result = load_configuration_from(map(&[("PORT", "8080")]));

    let configuration = result.unwrap();
    assert_eq!(configuration.port.get(), 8080);
}

#[test]
fn configuration_test_port_specific_variable_should_have_precedence_on_common_variable() {
    let result = load_configuration_from(map(&[("DOCKTEUR_PORT", "8081"), ("PORT", "8080")]));

    let configuration = result.unwrap();
    assert_eq!(configuration.port.get(), 8081);
}

#[test]
fn configuration_test_service_port_should_fallback_on_default() {
    let result = load_configuration_from(map(&[]));

    let configuration = result.unwrap();
    assert_eq!(configuration.port.get(), 80);
}

#[test]
fn configuration_test_malformed_service_port_should_not_be_accepted() {
    let result = load_configuration_from(map(&[("PORT", "MALFORMED")]));

    let error = result.unwrap_err();
    assert_eq!(error, InvalidConfiguration::Port("MALFORMED".to_string()));
}

#[test]
fn configuration_test_port_non_representable_in_16_bits_should_not_be_accepted() {
    let result = load_configuration_from(map(&[("PORT", "65536")]));

    let error = result.unwrap_err();
    assert_eq!(error, InvalidConfiguration::Port("65536".to_string()));
}

#[test]
fn configuration_test_port_0_should_not_be_accepted() {
    let result = load_configuration_from(map(&[("PORT", "0")]));

    let error = result.unwrap_err();
    assert_eq!(error, InvalidConfiguration::Port("0".to_string()));
}

#[test]
fn configuration_test_empty_service_port_should_fallback_on_default() {
    let result = load_configuration_from(map(&[("DOCKTEUR_PORT", "")]));

    let configuration = result.unwrap();
    assert_eq!(configuration.port.get(), 80);
}

#[test]
fn configuration_test_blank_service_port_should_fallback_on_default() {
    let result = load_configuration_from(map(&[("DOCKTEUR_PORT", " ")]));

    let configuration = result.unwrap();
    assert_eq!(configuration.port.get(), 80);
}

#[test]
fn configuration_test_service_path_should_be_read_from_environment_variable() {
    let result = load_configuration_from(map(&[("DOCKTEUR_PATH", "/this/is/the/path")]));

    let configuration = result.unwrap();
    assert_eq!(configuration.path.as_str(), "/this/is/the/path");
}

#[test]
fn configuration_test_service_path_should_fallback_on_default() {
    let result = load_configuration_from(map(&[]));

    let configuration = result.unwrap();
    assert_eq!(configuration.path.as_str(), "/");
}

#[test]
fn configuration_test_empty_service_path_should_fallback_on_default() {
    let result = load_configuration_from(map(&[("DOCKTEUR_PATH", "")]));

    let configuration = result.unwrap();
    assert_eq!(configuration.path.as_str(), "/");
}

#[test]
fn configuration_test_blank_service_path_should_fallback_on_default() {
    let result = load_configuration_from(map(&[("DOCKTEUR_PATH", " ")]));

    let configuration = result.unwrap();
    assert_eq!(configuration.path.as_str(), "/");
}

#[test]
fn configuration_test_service_path_should_be_trimmed() {
    let result = load_configuration_from(map(&[("DOCKTEUR_PATH", " /this/is/the/path ")]));

    let configuration = result.unwrap();
    assert_eq!(configuration.path.as_str(), "/this/is/the/path");
}

#[test]
fn configuration_test_timeout_should_be_read_from_environment_variable() {
    let result = load_configuration_from(map(&[("DOCKTEUR_TIMEOUT_MILLIS", "100")]));

    let configuration = result.unwrap();
    assert_eq!(configuration.timeout.millis(), 100);
}

#[test]
fn configuration_test_timeout_should_fallback_on_default() {
    let result = load_configuration_from(map(&[]));

    let configuration = result.unwrap();
    assert_eq!(configuration.timeout.millis(), 500);
}

#[test]
fn configuration_test_malformed_timeout_port_should_not_be_accepted() {
    let result = load_configuration_from(map(&[("DOCKTEUR_TIMEOUT_MILLIS", "MALFORMED")]));

    let error = result.unwrap_err();
    assert_eq!(error, InvalidConfiguration::Timeout("MALFORMED".to_string()));
}

#[test]
fn configuration_test_empty_timeout_should_fallback_on_default() {
    let result = load_configuration_from(map(&[("DOCKTEUR_TIMEOUT_MILLIS", "")]));

    let configuration = result.unwrap();
    assert_eq!(configuration.timeout.millis(), 500);
}

#[test]
fn configuration_test_blank_timeout_should_fallback_on_default() {
    let result = load_configuration_from(map(&[("DOCKTEUR_TIMEOUT_MILLIS", " ")]));

    let configuration = result.unwrap();
    assert_eq!(configuration.timeout.millis(), 500);
}

#[test]
fn configuration_test_timeout_should_be_trimmed() {
    let result = load_configuration_from(map(&[("DOCKTEUR_TIMEOUT_MILLIS", " 100 ")]));

    let configuration = result.unwrap();
    assert_eq!(configuration.timeout.millis(), 100);
}
