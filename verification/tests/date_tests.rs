use opcache_exporter::php_date_format::{deserialize, serialize, PhpDate};

#[test]
fn serialize_matches_fixed_format() {
    let date = PhpDate { year: 2020, month: 6, day: 24, hour: 9, minute: 34, second: 0 };
    assert_eq!(serialize(&date), "Wed Jun 24 09:34:00 2020");
    let padded = PhpDate { year: 2004, month: 1, day: 5, hour: 3, minute: 4, second: 5 };
    assert_eq!(serialize(&padded), "Mon Jan  5 03:04:05 2004");
}

#[test]
fn deserialize_matches_fixed_format() {
    let date = deserialize("Wed Jun 24 09:34:00 2020").unwrap();
    assert_eq!(date, PhpDate { year: 2020, month: 6, day: 24, hour: 9, minute: 34, second: 0 });
    let padded = deserialize("Mon Jan  5 03:04:05 2004").unwrap();
    assert_eq!(padded, PhpDate { year: 2004, month: 1, day: 5, hour: 3, minute: 4, second: 5 });
}

#[test]
fn round_trip_is_identity() {
    let dates = vec![
        PhpDate { year: 2020, month: 6, day: 24, hour: 9, minute: 34, second: 0 },
        PhpDate { year: 2000, month: 2, day: 29, hour: 23, minute: 59, second: 59 },
        PhpDate { year: 1, month: 1, day: 1, hour: 0, minute: 0, second: 0 },
        PhpDate { year: 9999, month: 12, day: 31, hour: 23, minute: 59, second: 59 },
        PhpDate { year: 1970, month: 1, day: 1, hour: 0, minute: 0, second: 0 },
        PhpDate { year: 2004, month: 1, day: 9, hour: 12, minute: 0, second: 1 },
        PhpDate { year: 2004, month: 1, day: 10, hour: 12, minute: 0, second: 1 },
    ];
    for date in dates {
        let text = serialize(&date);
        assert_eq!(deserialize(&text).unwrap(), date);
    }
}

#[test]
fn leap_day_is_checked() {
    assert_eq!(deserialize("Tue Feb 29 00:00:00 2000").ok(),
        Some(PhpDate { year: 2000, month: 2, day: 29, hour: 0, minute: 0, second: 0 }));
    assert!(deserialize("Mon Feb 29 00:00:00 1900").is_err());
}

#[test]
fn bad_text_is_rejected() {
    assert!(deserialize("").is_err());
    assert!(deserialize("Xyz Jun 24 09:34:00 2020").is_err());
    assert!(deserialize("Wed Xxx 24 09:34:00 2020").is_err());
    assert!(deserialize("Wed Jun 24 09:34:00 20201").is_err());
    assert!(deserialize("Wed Jun 24 09:34:0a 2020").is_err());
    assert!(deserialize("Wed Jun 32 09:34:00 2020").is_err());
    assert!(deserialize("Wed Jun 24 24:34:00 2020").is_err());
    // right date, wrong weekday name
    assert!(deserialize("Thu Jun 24 09:34:00 2020").is_err());
}
