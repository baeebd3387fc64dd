use opcache_exporter::decode::decode_snapshot;
use opcache_exporter::error::{DecodeKind, ScrapeError};

fn body_text() -> String {
    let mut s = String::new();
    for piece in [
        "{",
        "\"opcache_enabled\":true,",
        "\"cache_full\":false,",
        "\"restart_pending\":false,",
        "\"restart_in_progress\":false,",
        "\"memory_usage\":{\"used_memory\":48476504,\"free_memory\":84334824,",
        "\"wasted_memory\":406528,\"current_wasted_percentage\":0.30517578125},",
        "\"interned_strings_usage\":{\"buffer_size\":8388608,\"used_memory\":352712,",
        "\"free_memory\":8035896,\"number_of_strings\":7149},",
        "\"opcache_statistics\":{\"num_cached_scripts\":38,\"num_cached_keys\":52,",
        "\"max_cached_keys\":16229,\"hits\":1244,\"start_time\":1593000000,",
        "\"last_restart_time\":0,\"oom_restarts\":0,\"hash_restarts\":0,",
        "\"manual_restarts\":0,\"misses\":38,\"blacklist_misses\":0,",
        "\"blacklist_miss_ratio\":0.0,\"opcache_hit_rate\":97.03588143525741},",
        "\"scripts\":{\"\\/var\\/www\\/index.php\":{",
        "\"full_path\":\"\\/var\\/www\\/index.php\",\"hits\":104,",
        "\"memory_consumption\":1613848.5,",
        "\"last_used\":\"Wed Jun 24 09:34:00 2020\",",
        "\"last_used_timestamp\":1593002040,\"timestamp\":1592996700}}",
        "}"
    ] {
        s.push_str(piece);
    }
    s
}

#[test]
fn full_body_decodes() {
    let body = body_text();
    let snapshot = decode_snapshot(body.as_bytes()).unwrap();
    assert!(snapshot.opcache_enabled);
    assert!(!snapshot.cache_full);
    assert_eq!(snapshot.memory_usage.used_memory, 48476504);
    assert_eq!(snapshot.memory_usage.current_wasted_percentage, "0.30517578125");
    assert_eq!(snapshot.interned_strings_usage.number_of_strings, 7149);
    assert_eq!(snapshot.opcache_statistics.hits, 1244);
    assert_eq!(snapshot.opcache_statistics.opcache_hit_rate, "97.03588143525741");
    assert_eq!(snapshot.scripts.len(), 1);
    let (path, script) = &snapshot.scripts[0];
    assert_eq!(path, "/var/www/index.php");
    assert_eq!(script.full_path, "/var/www/index.php");
    assert_eq!(script.hits, 104);
    assert_eq!(script.memory_consumption, "1613848.5");
    assert_eq!(script.last_used.year, 2020);
    assert_eq!(script.last_used.month, 6);
    assert_eq!(script.last_used.day, 24);
    assert_eq!(script.last_used.hour, 9);
    assert_eq!(script.last_used.minute, 34);
    assert_eq!(script.last_used.second, 0);
    assert_eq!(script.last_used_timestamp, 1593002040);
}

#[test]
fn unknown_fields_are_skipped() {
    let body = body_text().replace(
        "\"opcache_enabled\":true,",
        "\"opcache_enabled\":true,\"jit\":{\"on\":false,\"buffer\":[1,2,{\"x\":null}]},",
    );
    let snapshot = decode_snapshot(body.as_bytes()).unwrap();
    assert!(snapshot.opcache_enabled);
}

#[test]
fn whitespace_and_escapes_are_tolerated() {
    let body = " \t\r\n{ \"opcache_enabled\" : true , \"cache_full\" : false ,\
 \"restart_pending\" : false , \"restart_in_progress\" : false ,\
 \"memory_usage\" : { \"used_memory\" : 1 , \"free_memory\" : 2 ,\
 \"wasted_memory\" : 3 , \"current_wasted_percentage\" : 0 } ,\
 \"interned_strings_usage\" : { \"buffer_size\" : 1 , \"used_memory\" : 1 ,\
 \"free_memory\" : 1 , \"number_of_strings\" : 1 } ,\
 \"opcache_statistics\" : { \"num_cached_scripts\" : 1 , \"num_cached_keys\" : 1 ,\
 \"max_cached_keys\" : 1 , \"hits\" : 1 , \"start_time\" : 1 ,\
 \"last_restart_time\" : 1 , \"oom_restarts\" : 1 , \"hash_restarts\" : 1 ,\
 \"manual_restarts\" : 1 , \"misses\" : 1 , \"blacklist_misses\" : 1 ,\
 \"blacklist_miss_ratio\" : 0 , \"opcache_hit_rate\" : 0 } ,\
 \"scripts\" : { \"a\\u0042c\" : { \"full_path\" : \"x\\ny\" , \"hits\" : 1 ,\
 \"memory_consumption\" : 1 , \"last_used\" : \"Wed Jun 24 09:34:00 2020\" ,\
 \"last_used_timestamp\" : 1 , \"timestamp\" : 1 } } } \n";
    let snapshot = decode_snapshot(body.as_bytes()).unwrap();
    assert_eq!(snapshot.scripts[0].0, "aBc");
    assert_eq!(snapshot.scripts[0].1.full_path, "x\ny");
}

#[test]
fn invalid_utf8_is_its_own_kind() {
    let body: Vec<u8> = vec![0x7b, 0xff, 0x7d];
    match decode_snapshot(&body) {
        Err(ScrapeError::Decode(DecodeKind::Utf8)) => {}
        other => panic!("unexpected: {:?}", other.map(|_| ())),
    }
}

#[test]
fn malformed_json_is_a_syntax_error() {
    for body in ["{", "{\"a\":}", "[]", "{} trailing", "{\"a\":01}"] {
        match decode_snapshot(body.as_bytes()) {
            Err(ScrapeError::Decode(DecodeKind::Syntax)) => {}
            other => panic!("unexpected for {}: {:?}", body, other.map(|_| ())),
        }
    }
}

#[test]
fn missing_or_mistyped_fields_are_schema_errors() {
    let bodies: Vec<String> = vec![
        "{}".to_string(),
        "{\"opcache_enabled\":1}".to_string(),
        body_text().replace("\"hits\":1244", "\"hits\":12.5"),
        body_text().replace("\"hits\":1244", "\"hits\":9223372036854775808"),
        body_text().replace("Wed Jun 24", "Thu Jun 24"),
    ];
    for body in bodies {
        match decode_snapshot(body.as_bytes()) {
            Err(ScrapeError::Decode(DecodeKind::Schema)) => {}
            other => panic!("unexpected for {}: {:?}", body, other.map(|_| ())),
        }
    }
}

#[test]
fn extreme_integers_decode() {
    let body = body_text()
        .replace("\"hits\":1244", "\"hits\":9223372036854775807")
        .replace("\"last_restart_time\":0", "\"last_restart_time\":-9223372036854775808");
    let snapshot = decode_snapshot(body.as_bytes()).unwrap();
    assert_eq!(snapshot.opcache_statistics.hits, i64::MAX);
    assert_eq!(snapshot.opcache_statistics.last_restart_time, i64::MIN);
}
