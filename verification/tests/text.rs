use app_volume::proplist::Proplist;
use app_volume::sorting::{arranged, sorted_order};
use app_volume::text::{push_decimal, same_text, text_not_after};

fn strings(texts: &[&str]) -> Vec<String> {
    texts.iter().map(|text| text.to_string()).collect()
}

#[test]
fn numbers_are_written_in_decimal() {
    for value in [0u32, 1, 9, 10, 42, 100, 4_294_967_295] {
        let mut text = String::from("#");
        push_decimal(&mut text, value);
        assert_eq!(text, format!("#{}", value));
    }
}

#[test]
fn texts_compare_whole() {
    assert!(same_text(&String::from("event"), "event"));
    assert!(!same_text(&String::from("event"), "events"));
    assert!(!same_text(&String::from("Event"), "event"));
    assert!(same_text(&String::new(), ""));
}

#[test]
fn texts_are_ordered_as_strings_are() {
    let samples = strings(&["", "a", "ab", "b", "B", "z", "ä", "é", "日本", "a b", "\u{10000}", "\u{ffff}"]);
    for left in &samples {
        for right in &samples {
            assert_eq!(text_not_after(left, right), left <= right);
        }
    }
}

#[test]
fn order_is_stable() {
    assert_eq!(sorted_order(&strings(&["b", "a", "b", "a"])), vec![1, 3, 0, 2]);
    assert_eq!(sorted_order(&strings(&["x", "x", "x"])), vec![0, 1, 2]);
    assert_eq!(sorted_order(&strings(&["c", "b", "a"])), vec![2, 1, 0]);
    assert_eq!(sorted_order(&Vec::new()), Vec::<usize>::new());
}

#[test]
fn order_agrees_with_a_stable_sort() {
    let keys = strings(&["vlc", "mpv", "", "zoom", "mpv", "firefox", "vlc", "é", "a"]);
    let mut expected: Vec<usize> = (0..keys.len()).collect();
    expected.sort_by(|a, b| keys[*a].cmp(&keys[*b]));
    assert_eq!(sorted_order(&keys), expected);
}

#[test]
fn entries_are_rearranged() {
    assert_eq!(arranged(vec!['a', 'b', 'c'], &vec![2, 0, 1]), vec!['c', 'a', 'b']);
}

#[test]
fn properties_are_found_by_key() {
    let mut list = Proplist::new();
    assert_eq!(list.get_str("media.role"), None);
    list.set_str("media.role".to_string(), "music".to_string());
    list.set_str("media.name".to_string(), String::new());
    assert_eq!(list.get_str("media.role"), Some("music".to_string()));
    assert_eq!(list.get_str("media.name"), Some(String::new()));
    assert_eq!(list.get_str("media"), None);
}

#[test]
fn later_properties_replace_earlier_ones() {
    let mut list = Proplist::new();
    list.set_str("media.role".to_string(), "music".to_string());
    list.set_str("media.name".to_string(), "song".to_string());
    list.set_str("media.role".to_string(), "event".to_string());
    assert_eq!(list.get_str("media.role"), Some("event".to_string()));
    assert_eq!(list.get_str("media.name"), Some("song".to_string()));
}
