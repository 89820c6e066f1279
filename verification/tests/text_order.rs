use jma_bulletin::fuken_r1::model::TimeDefine;
use jma_bulletin::fuken_r1::model::Timestamp;
use jma_bulletin::fuken_r1::model::Weather;
use jma_bulletin::fuken_r1::model::WindForecastPart;
use jma_bulletin::lists::reversed;
use jma_bulletin::lists::zip;
use jma_bulletin::order::sort_by_key;
use jma_bulletin::order::Keyed;
use jma_bulletin::text::str_eq;
use jma_bulletin::text::str_le;

fn marker(time_id: usize, name: &str) -> TimeDefine {
    TimeDefine {
        time_id,
        datetime: Timestamp { seconds: 1_600_000_000 + time_id as i64 * 3600, nanoseconds: 0 },
        duration: Some("PT3H".to_string()),
        name: Some(name.to_string()),
    }
}

fn wind(ref_id: usize, sentence: &str) -> WindForecastPart {
    WindForecastPart { ref_id, sentence: sentence.to_string() }
}

fn weather(ref_id: Option<usize>, value: &str) -> Weather {
    Weather { ref_id, _type: "天気".to_string(), value: value.to_string() }
}

#[test]
fn str_eq_tells_equal_from_different() {
    assert!(str_eq("", ""));
    assert!(str_eq("天気", "天気"));
    assert!(!str_eq("天気", "天"));
    assert!(!str_eq("天", "天気"));
    assert!(!str_eq("波", "風"));
    assert!(!str_eq("abc", "abd"));
}

#[test]
fn str_le_is_the_byte_order_of_std() {
    let words = ["", "a", "ab", "b", "天気", "波", "風", "３時間内代表風", "３時間内卓越天気", "é", "z"];
    for a in words.iter() {
        for b in words.iter() {
            assert_eq!(str_le(a, b), a <= b, "{:?} against {:?}", a, b);
        }
    }
}

#[test]
fn str_le_orders_the_role_tags() {
    assert!(str_le("天気", "波"));
    assert!(str_le("波", "風"));
    assert!(!str_le("風", "天気"));
    assert!(str_le("３時間内代表風", "３時間内卓越天気"));
    assert!(!str_le("３時間内卓越天気", "３時間内代表風"));
}

#[test]
fn prefix_sorts_first() {
    assert!(str_le("天", "天気"));
    assert!(!str_le("天気", "天"));
    assert!(str_le("天気", "天気"));
}

#[test]
fn sort_by_key_orders_by_identifier() {
    let sorted = sort_by_key(vec![wind(2, "c"), wind(0, "a"), wind(1, "b")]);
    assert_eq!(sorted, vec![wind(0, "a"), wind(1, "b"), wind(2, "c")]);
}

#[test]
fn sort_by_key_is_stable() {
    let sorted = sort_by_key(vec![
        wind(1, "first one"),
        wind(0, "first zero"),
        wind(1, "second one"),
        wind(0, "second zero"),
        wind(1, "third one"),
    ]);
    assert_eq!(
        sorted,
        vec![
            wind(0, "first zero"),
            wind(0, "second zero"),
            wind(1, "first one"),
            wind(1, "second one"),
            wind(1, "third one"),
        ]
    );
}

#[test]
fn sort_by_key_agrees_with_std_sort() {
    let mut seed: u64 = 7;
    for len in 0..12usize {
        let mut values = Vec::new();
        for position in 0..len {
            seed = seed.wrapping_mul(6364136223846793005).wrapping_add(1442695040888963407);
            let id = ((seed >> 33) % 5) as usize;
            values.push(wind(id, &format!("{}", position)));
        }
        let mut expected = values.clone();
        expected.sort_by_key(|w| w.ref_id);
        assert_eq!(sort_by_key(values), expected);
    }
}

#[test]
fn sort_by_key_of_nothing_and_of_one() {
    assert_eq!(sort_by_key(Vec::<WindForecastPart>::new()), vec![]);
    assert_eq!(sort_by_key(vec![wind(9, "only")]), vec![wind(9, "only")]);
}

#[test]
fn weather_without_identifier_sorts_first() {
    let sorted = sort_by_key(vec![
        weather(Some(1), "b"),
        weather(None, "x"),
        weather(Some(0), "a"),
        weather(None, "y"),
    ]);
    assert_eq!(
        sorted,
        vec![weather(None, "x"), weather(None, "y"), weather(Some(0), "a"), weather(Some(1), "b")]
    );
    assert!(weather(None, "x").key_at_most(&weather(Some(0), "a")));
    assert!(!weather(Some(0), "a").key_at_most(&weather(None, "x")));
    assert!(weather(None, "x").key_at_most(&weather(None, "y")));
}

#[test]
fn time_markers_sort_by_time_id() {
    let sorted = sort_by_key(vec![marker(1, "明日"), marker(0, "今日"), marker(2, "明後日")]);
    assert_eq!(sorted, vec![marker(0, "今日"), marker(1, "明日"), marker(2, "明後日")]);
}

#[test]
fn time_marker_clone_is_equal() {
    let m = marker(3, "今夜");
    assert_eq!(m.clone(), m);
    let bare = TimeDefine {
        time_id: 0,
        datetime: Timestamp { seconds: -1, nanoseconds: 999_999_999 },
        duration: None,
        name: None,
    };
    assert_eq!(bare.clone(), bare);
}

#[test]
fn reversed_turns_a_list_round() {
    assert_eq!(reversed(vec![1, 2, 3]), vec![3, 2, 1]);
    assert_eq!(reversed(Vec::<u8>::new()), Vec::<u8>::new());
}

#[test]
fn zip_stops_with_the_shorter_list() {
    assert_eq!(zip(vec![1, 2, 3], vec!["a", "b"]), vec![(1, "a"), (2, "b")]);
    assert_eq!(zip(vec![1], vec!["a", "b"]), vec![(1, "a")]);
    assert_eq!(zip(Vec::<u8>::new(), vec!["a"]), vec![]);
    assert_eq!(zip(vec![1, 2], vec!["a", "b"]), vec![(1, "a"), (2, "b")]);
}
