use zerobounce::validate::ResponseSuccessStatus;

const ALL: [ResponseSuccessStatus; 7] = [
    ResponseSuccessStatus::Valid,
    ResponseSuccessStatus::Invalid,
    ResponseSuccessStatus::CatchAll,
    ResponseSuccessStatus::Unknown,
    ResponseSuccessStatus::Spamtrap,
    ResponseSuccessStatus::Abuse,
    ResponseSuccessStatus::DoNotMail,
];

#[test]
fn canonical_names() {
    assert_eq!(ResponseSuccessStatus::Valid.as_str(), "valid");
    assert_eq!(ResponseSuccessStatus::Invalid.as_str(), "invalid");
    assert_eq!(ResponseSuccessStatus::CatchAll.as_str(), "catch_all");
    assert_eq!(ResponseSuccessStatus::Unknown.as_str(), "unknown");
    assert_eq!(ResponseSuccessStatus::Spamtrap.as_str(), "spamtrap");
    assert_eq!(ResponseSuccessStatus::Abuse.as_str(), "abuse");
    assert_eq!(ResponseSuccessStatus::DoNotMail.as_str(), "do_not_mail");
}

#[test]
fn parse_reads_each_wire_name() {
    assert_eq!(ResponseSuccessStatus::parse("valid"), ResponseSuccessStatus::Valid);
    assert_eq!(ResponseSuccessStatus::parse("invalid"), ResponseSuccessStatus::Invalid);
    assert_eq!(ResponseSuccessStatus::parse("catch-all"), ResponseSuccessStatus::CatchAll);
    assert_eq!(ResponseSuccessStatus::parse("unknown"), ResponseSuccessStatus::Unknown);
    assert_eq!(ResponseSuccessStatus::parse("spamtrap"), ResponseSuccessStatus::Spamtrap);
    assert_eq!(ResponseSuccessStatus::parse("abuse"), ResponseSuccessStatus::Abuse);
    assert_eq!(ResponseSuccessStatus::parse("do_not_mail"), ResponseSuccessStatus::DoNotMail);
}

#[test]
fn parse_of_canonical_name_round_trips_but_for_catch_all() {
    for status in ALL {
        if status != ResponseSuccessStatus::CatchAll {
            assert_eq!(ResponseSuccessStatus::parse(status.as_str()), status);
        }
    }
}

#[test]
fn catch_all_is_written_with_a_hyphen_and_named_with_an_underscore() {
    assert_eq!(ResponseSuccessStatus::parse("catch-all"), ResponseSuccessStatus::CatchAll);
    assert_eq!(ResponseSuccessStatus::CatchAll.as_str(), "catch_all");
    assert_eq!(ResponseSuccessStatus::parse("catch_all"), ResponseSuccessStatus::Unknown);
}

#[test]
fn parse_of_unrecognized_text_is_unknown() {
    for wire in ["", "VALID", "Valid", " valid", "valid ", "catchall", "do-not-mail", "ok", "válid"] {
        assert_eq!(ResponseSuccessStatus::parse(wire), ResponseSuccessStatus::Unknown);
    }
}

#[test]
fn from_string_reads_each_wire_name() {
    let cases = [
        ("valid", ResponseSuccessStatus::Valid),
        ("invalid", ResponseSuccessStatus::Invalid),
        ("catch-all", ResponseSuccessStatus::CatchAll),
        ("unknown", ResponseSuccessStatus::Unknown),
        ("spamtrap", ResponseSuccessStatus::Spamtrap),
        ("abuse", ResponseSuccessStatus::Abuse),
        ("do_not_mail", ResponseSuccessStatus::DoNotMail),
    ];
    for (wire, status) in cases {
        assert_eq!(ResponseSuccessStatus::from(wire.to_string()), status, "{:?}", wire);
    }
}

#[test]
fn from_string_of_catch_all_with_a_hyphen_is_catch_all() {
    let status = ResponseSuccessStatus::from("catch-all".to_string());
    assert!(status.is_catch_all());
    assert_eq!(status.as_str(), "catch_all");
}

#[test]
fn from_string_of_catch_all_with_an_underscore_is_unknown() {
    let status = ResponseSuccessStatus::from("catch_all".to_string());
    assert!(status.is_unknown());
    assert_eq!(status, ResponseSuccessStatus::Unknown);
}

#[test]
fn from_string_of_other_text_is_unknown() {
    for name in ["", "catch_all", "catchall", "Valid", "VALID", "do not mail", "do-not-mail", " valid"] {
        assert_eq!(ResponseSuccessStatus::from(name.to_string()), ResponseSuccessStatus::Unknown);
    }
}

#[test]
fn from_string_agrees_with_parse() {
    for text in ["valid", "invalid", "catch-all", "catch_all", "unknown", "spamtrap", "abuse", "do_not_mail", "", "x"] {
        assert_eq!(ResponseSuccessStatus::from(text.to_string()), ResponseSuccessStatus::parse(text));
    }
}

#[test]
fn from_string_of_canonical_name_round_trips_but_for_catch_all() {
    for status in ALL {
        let read = ResponseSuccessStatus::from(status.as_str().to_string());
        if status == ResponseSuccessStatus::CatchAll {
            assert_eq!(read, ResponseSuccessStatus::Unknown);
        } else {
            assert_eq!(read, status);
        }
    }
}

#[test]
fn predicates_hold_of_one_status_each() {
    for status in ALL {
        assert_eq!(status.is_valid(), status == ResponseSuccessStatus::Valid);
        assert_eq!(status.is_invalid(), status == ResponseSuccessStatus::Invalid);
        assert_eq!(status.is_catch_all(), status == ResponseSuccessStatus::CatchAll);
        assert_eq!(status.is_unknown(), status == ResponseSuccessStatus::Unknown);
        assert_eq!(status.is_spamtrap(), status == ResponseSuccessStatus::Spamtrap);
        assert_eq!(status.is_abuse(), status == ResponseSuccessStatus::Abuse);
        assert_eq!(status.is_do_not_mail(), status == ResponseSuccessStatus::DoNotMail);
        let held = [
            status.is_valid(),
            status.is_invalid(),
            status.is_catch_all(),
            status.is_unknown(),
            status.is_spamtrap(),
            status.is_abuse(),
            status.is_do_not_mail(),
        ];
        assert_eq!(held.iter().filter(|held| **held).count(), 1);
    }
}
