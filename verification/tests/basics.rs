use ai_providers::clock::{prompt_time, prompt_time_at, Timestamp};
use ai_providers::endpoint::{endpoint_origin, endpoint_origin_of_parts, local_only_of_parts, UrlParts};
use ai_providers::http_status::{is_success, HttpStatus};
use ai_providers::json::{object2, Json, JsonNumber};
use ai_providers::serde_values::{json_from_value, parse_json};
use ai_providers::string_map::StringMap;
use ai_providers::text::{
    can_cut_at, contains_text, cut_at, decimal_text, find_char, is_longer_than, join, sort_unique,
    trim_trailing_slashes,
};

fn strings(items: &[&str]) -> Vec<String> {
    items.iter().map(|item| item.to_string()).collect()
}

#[test]
fn texts_are_sorted_by_code_points() {
    assert_eq!(
        sort_unique(&strings(&["b", "\u{e9}", "a", "B", "ab", "a", "", "\u{1f980}", "\u{ffff}"])),
        strings(&["", "B", "a", "ab", "b", "\u{e9}", "\u{ffff}", "\u{1f980}"])
    );
    assert!(contains_text(&strings(&["a", "b"]), "b"));
    assert!(!contains_text(&strings(&["a", "b"]), "c"));
}

#[test]
fn texts_are_taken_apart_and_put_together() {
    assert_eq!(trim_trailing_slashes("a/b///"), "a/b");
    assert_eq!(trim_trailing_slashes("///"), "");
    assert_eq!(find_char("h\u{e9}:llo:", ':'), Some(2));
    assert_eq!(find_char("hello", ':'), None);
    assert_eq!(join(&strings(&["a", "", "b"]), ", "), "a, , b");
    assert_eq!(join(&vec![], ", "), "");
    assert_eq!(decimal_text(0), "0");
    assert_eq!(decimal_text(u64::MAX), "18446744073709551615");
    assert!(is_longer_than("\u{e9}", 1) && !is_longer_than("\u{e9}", 2));
    assert!(can_cut_at("a\u{e9}", 1) && !can_cut_at("a\u{e9}", 2) && can_cut_at("a\u{e9}", 3));
    assert_eq!(cut_at("a\u{e9}b", 3), "a\u{e9}");
}

#[test]
fn maps_keep_their_keys_in_order() {
    let mut map: StringMap<u32> = StringMap::new();
    for (i, key) in ["m", "z", "a", "m"].iter().enumerate() {
        map.insert(key.to_string(), i as u32);
    }
    let keys: Vec<&str> = (0..map.len()).map(|i| map.key_at(i).as_str()).collect();
    assert_eq!(keys, vec!["a", "m", "z"]);
    assert_eq!(map.get("m"), Some(&3));
    assert_eq!(map.value_at(2), &1);
    assert!(map.contains_key("a") && !map.contains_key("b"));
    assert_eq!(map.clone(), map);
    assert_eq!(map.remove("a"), Some(2));
    assert_eq!(map.remove("a"), None);
    assert_eq!(map.len(), 2);
    assert_eq!(StringMap::<u32>::default().len(), 0);
}

#[test]
fn instants_lie_on_the_time_line() {
    assert!(Timestamp::new(0, 2_000_000_000).is_none());
    assert!(Timestamp::new(i64::MAX, 0).is_none());
    let then = Timestamp::new(-1, 999_999_999).unwrap();
    let now = Timestamp::new(1, 1).unwrap();
    assert_eq!(now.nanos_since(&then), Some(1_000_000_002));
    assert_eq!(then.nanos_since(&now), None);
    assert_eq!((then.secs(), then.nanos()), (-1, 999_999_999));
    assert_eq!(prompt_time_at(&Timestamp::new(1_700_000_000, 5).unwrap()), "2023-11-14 22:13:20 UTC");
    assert_eq!(prompt_time().len(), "2023-11-14 22:13:20 UTC".len());
}

#[test]
fn the_first_and_last_instants_are_those_of_the_calendar() {
    use_bounds(-8_334_601_228_800, 8_210_266_876_799);
}

fn use_bounds(first: i64, last: i64) {
    assert!(chrono::DateTime::from_timestamp(first, 0).is_some());
    assert!(chrono::DateTime::from_timestamp(first - 1, 0).is_none());
    assert!(chrono::DateTime::from_timestamp(last, 999_999_999).is_some());
    assert!(chrono::DateTime::from_timestamp(last + 1, 0).is_none());
    assert!(Timestamp::new(first, 0).is_some() && Timestamp::new(first - 1, 0).is_none());
    assert!(Timestamp::new(last, 0).is_some() && Timestamp::new(last + 1, 0).is_none());
    let longest = Timestamp::new(last, 999_999_999).unwrap().nanos_since(&Timestamp::new(first, 0).unwrap());
    assert_eq!(longest, Some((last - first) as u128 * 1_000_000_000 + 999_999_999));
    assert!(!prompt_time_at(&Timestamp::new(first, 0).unwrap()).is_empty());
}

#[test]
fn origins_leave_paths_out() {
    assert_eq!(endpoint_origin("HTTPS://Proxy.example.com:443/v1?x=1"), "https://proxy.example.com");
    assert_eq!(endpoint_origin("http://localhost:11434/v1"), "http://localhost:11434");
    assert_eq!(endpoint_origin("nonsense"), "nonsense");
    let parts = |host: Option<&str>, port| {
        Some(UrlParts { scheme: "http".to_string(), host: host.map(|name| name.to_string()), port })
    };
    assert_eq!(endpoint_origin_of_parts("base", &parts(Some("h"), Some(80))), "http://h:80");
    assert_eq!(endpoint_origin_of_parts("base", &parts(None, None)), "base");
    assert_eq!(endpoint_origin_of_parts("base", &None), "base");
    assert_eq!(local_only_of_parts(&parts(Some("::1"), None)), Some(true));
    assert_eq!(local_only_of_parts(&parts(Some("[::1]"), None)), Some(true));
    assert_eq!(local_only_of_parts(&parts(Some("example.com"), None)), Some(false));
    assert_eq!(local_only_of_parts(&None), None);
}

#[test]
fn json_texts_are_read() {
    let value = parse_json(r#" {"a":[null,true,-1.5e3,"xé"],"b":{"c":"d"}} "#).unwrap();
    let items = value.array_at("a").unwrap();
    assert!(items[0].is_null());
    assert_eq!(items[1], Json::Bool(true));
    assert_eq!(items[2], Json::Number(JsonNumber::Literal("-1500.0".to_string())));
    assert_eq!(items[3].as_str(), Some("x\u{e9}"));
    assert_eq!(value.str_in("b", "c"), Some("d"));
    assert_eq!(value.get("missing"), None);
    assert_eq!(value.clone(), value);
    assert_eq!(items[3].get("a"), None);
    assert_eq!(parse_json("{"), None);
    assert_eq!(parse_json("1 2"), None);
    let number = json_from_value(serde_json::Value::from(7));
    assert_eq!(number, Json::Number(JsonNumber::Literal("7".to_string())));
    let pair = object2("x", Json::Null, "y", Json::text("z"));
    assert_eq!(pair.str_at("y"), Some("z"));
}

#[test]
fn statuses_are_three_digits() {
    assert!(HttpStatus::from_u16(99).is_none() && HttpStatus::from_u16(1000).is_none());
    assert_eq!(HttpStatus::from_u16(401).unwrap().to_string(), "401 Unauthorized");
    assert_eq!(HttpStatus::from_u16(799).unwrap().to_string(), "799 <unknown status code>");
    assert!(is_success(204) && !is_success(304));
}

fn date(instant: (i64, u32)) -> chrono::DateTime<chrono::Utc> {
    let second = chrono::DateTime::from_timestamp(instant.0, 0).unwrap().naive_utc();
    chrono::Timelike::with_nanosecond(&second, instant.1).unwrap().and_utc()
}

#[test]
fn leap_seconds_count_where_an_instant_lies_in_one() {
    let day: i64 = 86_400;
    let secs = [-1, 0, 1, day - 2, day - 1, day, 3 * day - 1, 3 * day + 5, 1_483_228_799, 1_483_228_800];
    for now_secs in secs {
        for then_secs in secs {
            for now_nanos in [0, 999_999_999, 1_000_000_000, 1_999_999_999] {
                for then_nanos in [0, 5, 1_000_000_000, 1_500_000_000] {
                    let now = Timestamp::new(now_secs, now_nanos).unwrap();
                    let then = Timestamp::new(then_secs, then_nanos).unwrap();
                    let elapsed = date((now_secs, now_nanos)).signed_duration_since(date((then_secs, then_nanos)));
                    assert_eq!(now.nanos_since(&then), elapsed.to_std().ok().map(|time| time.as_nanos()));
                    let time_of_day = |secs: i64| secs.rem_euclid(day);
                    let leap = if time_of_day(now_secs) > time_of_day(then_secs) && then_nanos >= 1_000_000_000 {
                        1
                    } else if time_of_day(now_secs) < time_of_day(then_secs) && now_nanos >= 1_000_000_000 {
                        -1
                    } else {
                        0
                    };
                    let stated =
                        (now_secs - then_secs + leap) * 1_000_000_000 + i64::from(now_nanos) - i64::from(then_nanos);
                    assert_eq!(now.nanos_since(&then), u128::try_from(stated).ok());
                }
            }
        }
    }
    let last = Timestamp::new(8_210_266_876_799, 1_999_999_999).unwrap();
    assert_eq!(last.nanos_since(&last), Some(0));
    assert_eq!(prompt_time_at(&Timestamp::new(1_483_228_799, 1_500_000_000).unwrap()), "2016-12-31 23:59:60 UTC");
}
