use coop_door::{authorize, AccessError, Config, GatewayError};

fn config(key: &str) -> Config {
    Config {
        interval_seconds: 60,
        hour_offset: 0,
        access_key: key.to_string(),
        schedule_file: "schedule.json".to_string(),
        status_file: "status.json".to_string(),
    }
}

#[test]
fn matching_key_is_accepted() {
    assert_eq!(authorize(&config("s3cret"), Some(b"s3cret")), Ok(()));
    assert_eq!(authorize(&config(""), Some(b"")), Ok(()));
    assert_eq!(authorize(&config("clé"), Some("clé".as_bytes())), Ok(()));
}

#[test]
fn missing_key_is_refused() {
    assert_eq!(authorize(&config("s3cret"), None), Err(AccessError::MissingKey));
}

#[test]
fn wrong_key_is_refused() {
    let c = config("s3cret");
    assert_eq!(authorize(&c, Some(b"s3cre")), Err(AccessError::WrongKey));
    assert_eq!(authorize(&c, Some(b"s3cret!")), Err(AccessError::WrongKey));
    assert_eq!(authorize(&c, Some(b"S3cret")), Err(AccessError::WrongKey));
    assert_eq!(authorize(&c, Some(b"")), Err(AccessError::WrongKey));
}

#[test]
fn gateway_status_codes() {
    assert_eq!(GatewayError::Unauthorized(AccessError::MissingKey).status_code(), 401);
    assert_eq!(GatewayError::Unauthorized(AccessError::WrongKey).status_code(), 401);
    assert_eq!(GatewayError::NotFound.status_code(), 503);
    assert_eq!(GatewayError::WriteFailed.status_code(), 503);
    assert_eq!(GatewayError::Corrupt.status_code(), 422);
}
