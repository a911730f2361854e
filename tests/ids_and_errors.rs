use medman::error::{AppError, ErrorKind};
use medman::record_id::RecordId;

#[test]
fn parse_id_accepts_24_hex_digits() {
    let id = RecordId::parse("65d0b2b3d3b0b3d3b0b3d3b0").unwrap();
    assert_eq!(
        id.bytes,
        [0x65, 0xd0, 0xb2, 0xb3, 0xd3, 0xb0, 0xb3, 0xd3, 0xb0, 0xb3, 0xd3, 0xb0]
    );
}

#[test]
fn parse_id_accepts_upper_case_and_prints_lower_case() {
    let id = RecordId::parse("65D0B2B3D3B0B3D3B0B3D3B0").unwrap();
    assert_eq!(id.to_hex(), "65d0b2b3d3b0b3d3b0b3d3b0");
}

#[test]
fn parse_id_refuses_malformed_text() {
    assert!(RecordId::parse("not-an-id").is_err());
    assert!(RecordId::parse("").is_err());
    assert!(RecordId::parse("65d0b2b3d3b0b3d3b0b3d3b").is_err());
    assert!(RecordId::parse("65d0b2b3d3b0b3d3b0b3d3b0ff").is_err());
    assert!(RecordId::parse("zzd0b2b3d3b0b3d3b0b3d3b0").is_err());
}

#[test]
fn id_text_round_trip() {
    let id = RecordId { bytes: [0, 1, 2, 15, 16, 127, 128, 200, 254, 255, 10, 171] };
    let text = id.to_hex();
    assert_eq!(text, "0001020f107f80c8feff0aab");
    assert_eq!(RecordId::parse(&text).unwrap(), id);
}

#[test]
fn error_status_and_text() {
    let v = AppError::ValidationError("bad".to_string());
    assert_eq!(v.kind(), ErrorKind::Validation);
    assert_eq!(v.status_code(), 400);
    assert_eq!(v.to_display_string(), "Validation error: bad");
    let a = AppError::AuthError("Invalid credentials".to_string());
    assert_eq!(a.status_code(), 401);
    assert_eq!(a.message(), "Invalid credentials");
    assert_eq!(a.to_display_string(), "Authentication error: Invalid credentials");
    let s = AppError::StoreError("down".to_string());
    assert_eq!(s.kind(), ErrorKind::Store);
    assert_eq!(s.status_code(), 500);
    assert_eq!(s.to_display_string(), "Internal server error: database failure");
    let h = AppError::HashingError("x".to_string());
    assert_eq!(h.kind(), ErrorKind::Hashing);
    assert_eq!(h.status_code(), 500);
    assert_eq!(h.to_display_string(), "Internal server error: password hashing failure");
}

#[test]
fn hashing_error_hides_its_detail() {
    let stored = "$2b$04$notarealhashnotarealhashnotarealhashnotarealhas";
    let e = AppError::HashingError(format!("Invalid hash: {}", stored));
    let shown = e.to_display_string();
    assert!(!shown.contains(stored));
    assert_eq!(shown, AppError::HashingError("other".to_string()).to_display_string());
}
