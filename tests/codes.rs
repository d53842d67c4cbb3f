use stackerror::ErrorCode;
use std::io::ErrorKind;

/// A few well-chosen HTTP codes should round-trip.
#[test]
fn http_roundtrip() {
    let samples = [
        (404, ErrorCode::HttpNotFound),
        (418, ErrorCode::HttpImATeapot),
        (500, ErrorCode::HttpInternalServerError),
    ];

    for (code, variant) in samples {
        // forward
        assert_eq!(ErrorCode::from_http_value(code), Some(variant));
        // backward
        assert_eq!(ErrorCode::to_http_value(variant), Some(code));
    }
}

/// Unknown HTTP codes – or non-HTTP variants – must fail gracefully.
#[test]
fn http_unknown() {
    // a status that is not in the table
    assert_eq!(ErrorCode::from_http_value(299), None);

    // a non-HTTP variant cannot be rendered as an HTTP status
    assert_eq!(
        ErrorCode::to_http_value(ErrorCode::RuntimeInvalidValue),
        None
    );
}

/// Typical IO kinds should also round-trip.
#[test]
fn io_roundtrip() {
    let samples = [
        (ErrorKind::NotFound, ErrorCode::IoNotFound),
        (ErrorKind::PermissionDenied, ErrorCode::IoPermissionDenied),
        (ErrorKind::UnexpectedEof, ErrorCode::IoUnexpectedEof),
    ];

    for (kind, variant) in samples {
        // forward
        assert_eq!(ErrorCode::from_io_kind(kind), Some(variant));
        // backward
        assert_eq!(variant.to_io_kind(), Some(kind));
    }
}

#[test]
fn http_table_round_trips_every_mapped_value() {
    let mut mapped: u32 = 0;
    for value in 0u16..=1000 {
        if let Some(code) = ErrorCode::from_http_value(value) {
            assert_eq!(ErrorCode::to_http_value(code), Some(value));
            mapped += 1;
        }
    }
    assert_eq!(mapped, 40);
}

#[test]
fn http_edges_of_the_table() {
    assert_eq!(ErrorCode::from_http_value(400), Some(ErrorCode::HttpBadRequest));
    assert_eq!(
        ErrorCode::from_http_value(511),
        Some(ErrorCode::HttpNetworkAuthenticationRequired)
    );
    assert_eq!(ErrorCode::from_http_value(419), None);
    assert_eq!(ErrorCode::from_http_value(509), None);
    assert_eq!(ErrorCode::from_http_value(200), None);
    assert_eq!(ErrorCode::to_http_value(ErrorCode::HttpLoopDetected), Some(508));
    assert_eq!(ErrorCode::to_http_value(ErrorCode::IoNotFound), None);
}

#[test]
fn io_kinds_outside_the_table() {
    assert_eq!(ErrorCode::from_io_kind(ErrorKind::IsADirectory), None);
    assert_eq!(ErrorCode::IoOther.to_io_kind(), Some(ErrorKind::Other));
    assert_eq!(ErrorCode::HttpNotFound.to_io_kind(), None);
    assert_eq!(ErrorCode::RuntimeInvalidKey.to_io_kind(), None);
}
