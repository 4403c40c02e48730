use todo_tools::metered::data::{ApiKeyDto, RegistrationInputDto};
use todo_tools::metered2::data as data2;
use todo_tools::metered2::records::{Registration, ApiKeyRow};

#[test]
fn first_server_payloads() {
    let dto = ApiKeyDto::new(3, "a@b.c".to_string(), "k-123".to_string());
    assert_eq!(dto.id, 3);
    assert_eq!(dto.email, "a@b.c");
    assert_eq!(dto.api_key, "k-123");
    let reg = RegistrationInputDto { email: "user@example.com".to_string() };
    assert_eq!(reg.email(), "user@example.com");
}

#[test]
fn second_server_payloads() {
    let key = data2::ApiKeyDto::new("k-456".to_string());
    assert_eq!(key.api_key, "k-456");
    let input = data2::CodeRunInputDto {
        api_key: Some("k".to_string()),
        code: Some("print(1)".to_string()),
        language: Some("py".to_string()),
    };
    assert_eq!(input.api_key(), "k");
    assert_eq!(input.code(), "print(1)");
    assert_eq!(input.language(), "py");
    assert_eq!(data2::InternalServerErrorDto::new().error, "Internal server error");
    assert_eq!(data2::UnauthorizedDto::new().error, "Unauthorized");
    assert_eq!(data2::RegistrationResponseDto::new("k-7".to_string()).api_key, "k-7");
}

#[test]
fn second_server_records() {
    let reg = Registration { email: "user@example.com".to_string() };
    assert_eq!(reg.email(), "user@example.com");
    let row = ApiKeyRow { id: 9, email: "e".to_string(), api_key: "k".to_string() };
    assert_eq!(row.id(), 9);
    assert_eq!(row.email(), "e");
    assert_eq!(row.api_key(), "k");
}
