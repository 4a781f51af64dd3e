use pxe_cloud_init::names::sort_names;
use pxe_cloud_init::template::TemplateData;
use pxe_cloud_init::text::{decimal_text, join, trim_slashes};

fn strings(texts: &[&str]) -> Vec<String> {
    texts.iter().map(|text| text.to_string()).collect()
}

#[test]
fn join_puts_separators_between() {
    assert_eq!(join(&strings(&[]), ", "), "");
    assert_eq!(join(&strings(&["a"]), ", "), "a");
    assert_eq!(join(&strings(&["a", "", "c"]), ", "), "a, , c");
}

#[test]
fn trim_removes_outer_slashes_only() {
    assert_eq!(trim_slashes("//a/b/"), "a/b");
    assert_eq!(trim_slashes("a/b"), "a/b");
    assert_eq!(trim_slashes("///"), "");
    assert_eq!(trim_slashes(""), "");
    assert_eq!(trim_slashes("/\u{e9}/"), "\u{e9}");
    assert_eq!(trim_slashes("/x"), "x");
    assert_eq!(trim_slashes("x/"), "x");
}

#[test]
fn decimal_numbers() {
    for n in [0, 7, 10, 16, 99, 100, 1731675600, u64::MAX] {
        assert_eq!(decimal_text(n), n.to_string());
        assert_eq!(decimal_text(n).parse::<u64>().unwrap(), n);
    }
}

#[test]
fn names_are_sorted_as_std_sorts_them() {
    let names = strings(&[
        "b", "a", "10-x", "9-x", "", "B", "ab", "a", "\u{e9}", "z", "\u{10000}", "\u{ffff}", "a-",
    ]);
    let mut expected = names.clone();
    expected.sort();
    assert_eq!(sort_names(names), expected);
}

#[test]
fn sorting_forgets_the_order() {
    assert_eq!(
        sort_names(strings(&["c", "a", "b", "a"])),
        sort_names(strings(&["a", "a", "b", "c"]))
    );
}

#[test]
fn template_data_holds_the_last_text() {
    let mut data = TemplateData::new();
    assert!(data.get("a").is_none());
    data.insert("a".to_string(), "1".to_string());
    data.insert("b".to_string(), "2".to_string());
    data.insert("a".to_string(), "3".to_string());
    assert_eq!(data.get("a").unwrap(), "3");
    assert_eq!(data.get("b").unwrap(), "2");
    assert!(data.get("c").is_none());
    let mut entries = data.into_entries();
    entries.sort();
    assert_eq!(
        entries,
        vec![
            ("a".to_string(), "3".to_string()),
            ("b".to_string(), "2".to_string()),
        ]
    );
}
