use std::collections::HashMap;

use jma_bulletin::feed::title_is_listed;
use jma_bulletin::feed::Author;
use jma_bulletin::feed::Content;
use jma_bulletin::feed::Entry;
use jma_bulletin::feed::Feed;
use jma_bulletin::feed::Link;
use jma_bulletin::feed::Rights;
use jma_bulletin::feed::TitledEntries;
use jma_bulletin::fuken_r1::Timestamp;

const FORECAST: &str = "府県天気予報（Ｒ１）";
const WARNING: &str = "気象特別警報・警報・注意報";
const OVERVIEW: &str = "府県天気概況";

fn entry(title: &str, number: usize, content: &str) -> Entry {
    Entry {
        title: title.to_string(),
        id: format!("https://example.invalid/data/{}.xml", number),
        updated: Timestamp { seconds: 1_700_000_000 + number as i64, nanoseconds: 0 },
        author: Author { name: "福岡管区気象台".to_string() },
        link: Link {
            _type: Some("application/xml".to_string()),
            rel: None,
            href: format!("https://example.invalid/data/{}.xml", number),
        },
        content: Content { _type: "text".to_string(), value: content.to_string() },
    }
}

fn feed(entries: Vec<Entry>) -> Feed {
    Feed {
        lang: "ja".to_string(),
        title: "高頻度（定時）".to_string(),
        subtitle: "JMAXML publishing feed".to_string(),
        updated: Timestamp { seconds: 1_700_000_000, nanoseconds: 0 },
        id: "https://example.invalid/feed/regular.xml".to_string(),
        link: vec![Link {
            _type: Some("application/atom+xml".to_string()),
            rel: Some("self".to_string()),
            href: "https://example.invalid/feed/regular.xml".to_string(),
        }],
        rights: Rights { _type: "html".to_string(), item: "notice".to_string() },
        entries,
    }
}

fn sample() -> Feed {
    feed(vec![
        entry(WARNING, 0, "【福岡県気象警報・注意報】"),
        entry(FORECAST, 1, "【福岡県府県天気予報】"),
        entry(FORECAST, 2, "【佐賀県府県天気予報】"),
        entry(OVERVIEW, 3, "【福岡県府県天気概況】"),
        entry(FORECAST, 4, "【福岡県府県天気予報】"),
        entry(WARNING, 5, "【佐賀県気象警報・注意報】"),
    ])
}

fn as_map(groups: Vec<TitledEntries>) -> HashMap<String, Vec<Entry>> {
    groups.into_iter().map(|group| (group.title, group.entries)).collect()
}

#[test]
fn test_parse_feed() {
    let result: Feed = sample();
    let mut map = as_map(result.into_titled_entries(&["府県天気予報（Ｒ１）"], false));
    let list = map.get_mut("府県天気予報（Ｒ１）").unwrap();
    list.retain(|entry| entry.content.value == "【福岡県府県天気予報】");
    let list = map.get("府県天気予報（Ｒ１）").unwrap();
    println!("{}", list.len());
    println!("{:?}", list);
    for (i, entry) in list.iter().enumerate() {
        println!("curl {} -o {}.xml", entry.link.href, i);
    }
    assert_eq!(list, &vec![
        entry(FORECAST, 1, "【福岡県府県天気予報】"),
        entry(FORECAST, 4, "【福岡県府県天気予報】"),
    ]);
    assert_eq!(map.len(), 1);
}

#[test]
fn allow_list_keeps_only_listed_titles() {
    let groups = sample().into_titled_entries(&[OVERVIEW, FORECAST], false);
    assert_eq!(
        groups,
        vec![
            TitledEntries {
                title: FORECAST.to_string(),
                entries: vec![
                    entry(FORECAST, 1, "【福岡県府県天気予報】"),
                    entry(FORECAST, 2, "【佐賀県府県天気予報】"),
                    entry(FORECAST, 4, "【福岡県府県天気予報】"),
                ],
            },
            TitledEntries {
                title: OVERVIEW.to_string(),
                entries: vec![entry(OVERVIEW, 3, "【福岡県府県天気概況】")],
            },
        ]
    );
}

#[test]
fn deny_list_keeps_all_other_titles() {
    let groups = sample().into_titled_entries(&[FORECAST], true);
    assert_eq!(
        groups,
        vec![
            TitledEntries {
                title: WARNING.to_string(),
                entries: vec![
                    entry(WARNING, 0, "【福岡県気象警報・注意報】"),
                    entry(WARNING, 5, "【佐賀県気象警報・注意報】"),
                ],
            },
            TitledEntries {
                title: OVERVIEW.to_string(),
                entries: vec![entry(OVERVIEW, 3, "【福岡県府県天気概況】")],
            },
        ]
    );
}

#[test]
fn empty_allow_list_keeps_nothing_and_empty_deny_list_everything() {
    let none: [&str; 0] = [];
    assert_eq!(sample().into_titled_entries(&none, false), vec![]);
    let all = sample().into_titled_entries(&none, true);
    assert_eq!(all.len(), 3);
    assert_eq!(all.iter().map(|group| group.entries.len()).sum::<usize>(), 6);
    assert_eq!(all[0].title, WARNING);
    assert_eq!(all[1].title, FORECAST);
    assert_eq!(all[2].title, OVERVIEW);
}

#[test]
fn title_not_in_the_feed_gives_no_group() {
    assert_eq!(sample().into_titled_entries(&["地方天気分布予報"], false), vec![]);
    assert_eq!(feed(vec![]).into_titled_entries(&[FORECAST], true), vec![]);
}

#[test]
fn title_must_match_whole() {
    assert_eq!(sample().into_titled_entries(&["府県天気予報"], false), vec![]);
    assert!(title_is_listed(&["a", "b"], "b"));
    assert!(!title_is_listed(&["a", "b"], "c"));
    assert!(!title_is_listed(&[], "c"));
}
