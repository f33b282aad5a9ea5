use storj_uplink_lib::error;
use storj_uplink_lib::outcome::DualOutcome;
use storj_uplink_lib::outcome::DUAL_BOTH_EMPTY_MSG;
use storj_uplink_lib::outcome::DUAL_BOTH_POPULATED_MSG;
use storj_uplink_lib::text;
use storj_uplink_lib::access;
use storj_uplink_lib::Bucket;
use storj_uplink_lib::Error;
use storj_uplink_lib::SharePrefix;
use storj_uplink_lib::Timestamp;

#[test]
fn test_find_nul() {
    assert_eq!(text::find_nul(b""), None);
    assert_eq!(text::find_nul(b"abc"), None);
    assert_eq!(text::find_nul(b"\0"), Some(0));
    assert_eq!(text::find_nul(b"ab\0c"), Some(2));
    assert_eq!(text::find_nul(b"ab\0c\0d"), Some(2));
}

#[test]
fn test_contains_nul() {
    assert!(!text::contains_nul("plain text"));
    assert!(text::contains_nul("plain\0text"));
    // The terminator of a multi-byte character never counts as embedded.
    assert!(!text::contains_nul("héllo"));
}

#[test]
fn test_push_decimal() {
    let mut s = String::new();
    text::push_decimal(&mut s, 0);
    assert_eq!(s, "0");

    let mut s = String::from("n = ");
    text::push_decimal(&mut s, 1234567890);
    assert_eq!(s, "n = 1234567890");

    let mut s = String::new();
    text::push_decimal(&mut s, u64::MAX);
    assert_eq!(s, "18446744073709551615");
}

#[test]
fn test_marshal_ok() {
    let buf = text::marshal("field", "abc").expect("marshal of clean text");
    assert_eq!(buf.as_slice(), b"abc\0");

    let buf = text::marshal("field", "").expect("marshal of empty text");
    assert_eq!(buf.as_slice(), b"\0");
}

#[test]
fn test_marshal_reports_byte_offset() {
    if let Error::InvalidArguments(error::Args { names, msg }) =
        text::marshal("field", "a\0b").expect_err("marshal of text with a NULL byte")
    {
        assert_eq!(names, "field", "invalid error argument name");
        assert_eq!(
            msg, "cannot contains null bytes (0 byte). Null byte found at 1",
            "invalid error argument message"
        );
    } else {
        panic!("expected an invalid argument error");
    }

    // The reported offset counts bytes, not characters.
    if let Error::InvalidArguments(error::Args { names, msg }) =
        text::marshal("field", "é\0").expect_err("marshal of text with a NULL byte")
    {
        assert_eq!(names, "field", "invalid error argument name");
        assert_eq!(
            msg, "cannot contains null bytes (0 byte). Null byte found at 2",
            "invalid error argument message"
        );
    } else {
        panic!("expected an invalid argument error");
    }
}

#[test]
fn test_backend_message_labels() {
    let labels = [
        (0x02, "internal"),
        (0x03, "canceled"),
        (0x04, "invalid handle"),
        (0x05, "too many requests"),
        (0x06, "bandwidth limit exceeded"),
        (0x10, "invalid bucket name"),
        (0x11, "bucket already exists"),
        (0x12, "bucket not empty"),
        (0x13, "bucket not found"),
        (0x20, "invalid object key"),
        (0x21, "object not found"),
        (0x22, "upload done"),
    ];
    for (code, label) in labels {
        let err = error::Uplink {
            code,
            details: String::from("raw details"),
        };
        assert_eq!(err.message(), label, "label of a known code");
    }

    let err = error::Uplink {
        code: 0x77,
        details: String::new(),
    };
    assert_eq!(err.message(), "unknown", "label of an unrecognized code");
}

#[test]
fn test_error_constructors() {
    if let Error::InvalidArguments(args) = Error::new_invalid_arguments("(a,b)", "both are wrong") {
        assert_eq!(args.names, "(a,b)");
        assert_eq!(args.msg, "both are wrong");
    } else {
        panic!("expected an invalid argument error");
    }

    if let Error::Internal(detail) = Error::new_internal("broken assumption") {
        assert_eq!(detail.ctx_msg, "broken assumption");
        assert_eq!(detail.inner, None);
    } else {
        panic!("expected an internal error");
    }

    if let Error::Internal(detail) = Error::new_internal_with_inner("broken assumption", "cause") {
        assert_eq!(detail.ctx_msg, "broken assumption");
        assert_eq!(detail.inner, Some(String::from("cause")));
    } else {
        panic!("expected an internal error");
    }
}

#[test]
fn test_marshal_prefixes() {
    let prefixes = vec![
        SharePrefix::new("a-bucket", "a/b/c").expect("a valid restriction pair"),
        SharePrefix::new("other", "").expect("a valid restriction pair"),
    ];
    let marshalled = access::marshal_prefixes(&prefixes);
    assert_eq!(marshalled.len(), 2);
    assert_eq!(marshalled[0].0.as_slice(), b"a-bucket\0");
    assert_eq!(marshalled[0].1.as_slice(), b"a/b/c\0");
    assert_eq!(marshalled[1].0.as_slice(), b"other\0");
    assert_eq!(marshalled[1].1.as_slice(), b"\0");
}

#[test]
fn test_error_display() {
    let invalid = Error::new_invalid_arguments("div", "div cannot be 0");
    assert_eq!(
        invalid.to_display_string(),
        "div argurments have invalid values. div cannot be 0"
    );

    let uplink = error::Uplink {
        code: 0x13,
        details: String::from("no such bucket"),
    };
    assert_eq!(
        uplink.to_display_string(),
        "Uplink error: code: 19, message: \"bucket not found\", details: \"no such bucket\""
    );

    let negative = error::Uplink {
        code: -7,
        details: String::new(),
    };
    assert_eq!(
        negative.to_display_string(),
        "Uplink error: code: -7, message: \"unknown\", details: \"\""
    );

    let internal = Error::new_internal("broken assumption");
    assert_eq!(internal.to_display_string(), "broken assumption");
}

#[test]
fn test_outcome_value_slot() {
    let outcome: DualOutcome<u64> = DualOutcome {
        value: Some(42),
        error: None,
    };
    assert_eq!(outcome.into_result().expect("a populated value slot"), 42);
}

#[test]
fn test_outcome_error_slot() {
    let outcome: DualOutcome<u64> = DualOutcome {
        value: None,
        error: Some(error::Uplink {
            code: 0x05,
            details: String::from("slow down"),
        }),
    };
    // A populated error slot surfaces as a backend error, never as an
    // invalid-arguments one.
    if let Error::Uplink(uplink) = outcome.into_result().expect_err("a populated error slot") {
        assert_eq!(uplink.code, 0x05);
        assert_eq!(uplink.details, "slow down");
        assert_eq!(uplink.message(), "too many requests");
    } else {
        panic!("expected a backend error");
    }
}

#[test]
fn test_outcome_both_slots_populated() {
    let outcome: DualOutcome<u64> = DualOutcome {
        value: Some(42),
        error: Some(error::Uplink {
            code: 0x02,
            details: String::new(),
        }),
    };
    if let Error::Internal(detail) = outcome.into_result().expect_err("both slots populated") {
        assert_eq!(detail.ctx_msg, DUAL_BOTH_POPULATED_MSG);
    } else {
        panic!("expected an internal error");
    }
}

#[test]
fn test_outcome_both_slots_empty() {
    let outcome: DualOutcome<u64> = DualOutcome {
        value: None,
        error: None,
    };
    if let Error::Internal(detail) = outcome.into_result().expect_err("both slots empty") {
        assert_eq!(detail.ctx_msg, DUAL_BOTH_EMPTY_MSG);
    } else {
        panic!("expected an internal error");
    }
}

#[test]
fn test_permission_window_rejects_earlier_end() {
    let mut perm = storj_uplink_lib::Permission::full();
    perm.set_not_before(Some(Timestamp::new(5, 0)))
        .expect("set not before on an unbounded permission");
    let err = perm
        .set_not_after(Some(Timestamp::new(4, 0)))
        .expect_err("set not after to an instant before not before");
    assert!(matches!(err, Error::InvalidArguments(args) if args.names == "until"));
    assert_eq!(
        perm.not_after(),
        None,
        "a rejected mutation must leave the bound unset"
    );
}

#[test]
fn test_bucket_from_foreign_parts() {
    let bucket = Bucket::from_foreign_parts(Ok(String::from("a-bucket")), 1234567890)
        .expect("a validly encoded name");
    assert_eq!(bucket.name, "a-bucket");
    assert_eq!(bucket.created_at, Timestamp::new(1234567890, 0));

    if let Error::Internal(detail) =
        Bucket::from_foreign_parts(Err(String::from("stray continuation byte")), 0)
            .expect_err("an invalidly encoded name")
    {
        assert_eq!(
            detail.ctx_msg,
            "invalid bucket name because it contains invalid UTF-8 characters"
        );
        assert_eq!(detail.inner, Some(String::from("stray continuation byte")));
    } else {
        panic!("expected an internal error");
    }
}

#[test]
fn test_timestamp() {
    // Whole seconds are carried out of the nanosecond part.
    let t = Timestamp::new(1, 1_500_000_000);
    assert_eq!(t.secs(), 2);
    assert_eq!(t.nanos(), 500_000_000);
    assert_eq!(t, Timestamp::new(2, 500_000_000));

    // Ordering is by seconds first, then by the nanosecond remainder.
    assert!(Timestamp::new(1, 999_999_999).lt(&Timestamp::new(2, 0)));
    assert!(Timestamp::new(5, 50).lt(&Timestamp::new(5, 51)));
    assert!(!Timestamp::new(5, 51).lt(&Timestamp::new(5, 51)));
    assert!(!Timestamp::new(5, 52).lt(&Timestamp::new(5, 51)));

    assert_eq!(Timestamp::new(2, 5_000_000).as_millis(), 2005);
    assert_eq!(Timestamp::new(0, 999_999).as_millis(), 0);
}
