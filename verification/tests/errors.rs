use image_store::ApiError;

#[test]
fn status_codes_follow_the_taxonomy() {
    assert_eq!(ApiError::Unauthorized.status_code(), 401);
    assert_eq!(ApiError::UnreadableInput(String::from("x")).status_code(), 400);
    assert_eq!(ApiError::InvalidImage(String::from("x")).status_code(), 400);
    assert_eq!(ApiError::NotFound.status_code(), 404);
    assert_eq!(ApiError::StorageIo.status_code(), 500);
    assert_eq!(ApiError::EncodeInternal.status_code(), 500);
}

#[test]
fn client_errors_are_4xx_and_server_faults_5xx() {
    for e in [
        ApiError::Unauthorized,
        ApiError::UnreadableInput(String::from("r")),
        ApiError::InvalidImage(String::from("r")),
        ApiError::NotFound,
    ] {
        assert!(e.status_code() < 500);
    }
    for e in [ApiError::StorageIo, ApiError::EncodeInternal] {
        assert!(e.status_code() >= 500);
    }
}

#[test]
fn messages_carry_the_reason() {
    assert_eq!(
        ApiError::Unauthorized.message(),
        "Unauthorized: Invalid or missing API key"
    );
    assert_eq!(
        ApiError::UnreadableInput(String::from("no signature")).message(),
        "Cannot read image: no signature"
    );
    assert_eq!(
        ApiError::InvalidImage(String::from("cut short")).message(),
        "Invalid image: cut short"
    );
    assert_eq!(ApiError::NotFound.message(), "Not found");
    assert_eq!(ApiError::StorageIo.message(), "Storage failure");
    assert_eq!(ApiError::EncodeInternal.message(), "Encoding failure");
}
