use registry_core::extractors::{cookie_header_parts, Base64, Cookies};
use registry_core::json::Json;
use registry_core::string_map::StringMap;
use registry_core::text::{
    chars_of, find_from, has_part_at, is_whitespace, same_chars, same_text, split_trimmed,
    string_of, trim_bounds,
};

fn chars(text: &str) -> Vec<char> {
    text.chars().collect()
}

#[test]
fn characters_of_a_text() {
    assert_eq!(chars_of(""), Vec::<char>::new());
    assert_eq!(chars_of("a\u{e9}\u{1f600}z"), vec!['a', '\u{e9}', '\u{1f600}', 'z']);
}

#[test]
fn text_of_characters() {
    let source = chars("h\u{e9}llo");
    assert_eq!(string_of(&source, 0, 5), "h\u{e9}llo");
    assert_eq!(string_of(&source, 1, 3), "\u{e9}l");
    assert_eq!(string_of(&source, 2, 2), "");
}

#[test]
fn white_space_is_what_unicode_says() {
    for code in 0..0x11_0000u32 {
        if let Some(c) = char::from_u32(code) {
            assert_eq!(is_whitespace(c), c.is_whitespace(), "U+{code:04X}");
        }
    }
}

#[test]
fn comparison_of_texts() {
    assert!(same_text("", ""));
    assert!(same_text("abc", "abc"));
    assert!(!same_text("abc", "abd"));
    assert!(!same_text("abc", "ab"));
    assert!(!same_text("ab", "abc"));
    assert!(same_chars(&chars("x\u{e9}"), &chars("x\u{e9}")));
    assert!(!same_chars(&chars("x\u{e9}"), &chars("xe")));
}

#[test]
fn parts_of_a_text() {
    let s = chars("hello world");
    assert!(has_part_at(&s, 0, &chars("hello")));
    assert!(has_part_at(&s, 6, &chars("world")));
    assert!(has_part_at(&s, 11, &chars("")));
    assert!(has_part_at(&s, 3, &chars("")));
    assert!(!has_part_at(&s, 7, &chars("world")));
    assert!(!has_part_at(&s, 6, &chars("worlds")));
    assert!(!has_part_at(&s, 0, &chars("hellp")));
}

#[test]
fn first_occurrence_of_a_character() {
    let s = chars("a,b,,c");
    assert_eq!(find_from(&s, 0, ','), 1);
    assert_eq!(find_from(&s, 1, ','), 1);
    assert_eq!(find_from(&s, 2, ','), 3);
    assert_eq!(find_from(&s, 4, ','), 4);
    assert_eq!(find_from(&s, 5, ','), 6);
    assert_eq!(find_from(&s, 6, ','), 6);
    assert_eq!(find_from(&s, 0, ';'), 6);
}

#[test]
fn bounds_of_the_trimmed_text() {
    let s = chars("  ab c \t");
    assert_eq!(trim_bounds(&s, 0, 8), (2, 6));
    assert_eq!(trim_bounds(&s, 2, 6), (2, 6));
    assert_eq!(trim_bounds(&s, 0, 2), (2, 2));
    assert_eq!(trim_bounds(&s, 3, 5), (3, 4));
    assert_eq!(trim_bounds(&s, 4, 4), (4, 4));
    let blank = chars(" \n ");
    assert_eq!(trim_bounds(&blank, 0, 3), (3, 3));
}

#[test]
fn trimming_agrees_with_the_standard_library() {
    for text in ["", " ", "a", " a", "a ", "  a b  ", "\u{2003}x\u{2003}", "\t\r\n", "a\u{a0}"] {
        let s = chars(text);
        let (from, to) = trim_bounds(&s, 0, s.len());
        assert_eq!(string_of(&s, from, to), text.trim(), "{text:?}");
    }
}

#[test]
fn splitting_agrees_with_the_standard_library() {
    for text in ["", ";", "a", "a;b", "a; b ;c", ";;", " a=1 ;b=2; ", "a;", ";a"] {
        let expected: Vec<String> = text.split(';').map(|p| p.trim().to_string()).collect();
        assert_eq!(split_trimmed(text, ';'), expected, "{text:?}");
    }
    assert_eq!(split_trimmed("a,b", ';'), vec!["a,b".to_string()]);
}

#[test]
fn parts_of_a_cookie_header() {
    assert_eq!(
        cookie_header_parts("session=abc; theme=dark ;lang=en"),
        vec!["session=abc".to_string(), "theme=dark".to_string(), "lang=en".to_string()]
    );
    assert_eq!(cookie_header_parts(""), vec![String::new()]);
}

#[test]
fn base64_arguments_are_decoded() {
    assert_eq!(Base64::decode("aGVsbG8=").map(|b| b.0), Some("hello".to_string()));
    assert_eq!(Base64::decode("").map(|b| b.0), Some(String::new()));
    assert_eq!(
        Base64::decode("aMOpbGxvIHfDtnJsZA==").map(|b| b.0),
        Some("h\u{e9}llo w\u{f6}rld".to_string())
    );
    assert_eq!(Base64::decode("YT9iPmM=").expect("decodes").as_str(), "a?b>c");
}

#[test]
fn base64_uses_the_url_safe_alphabet() {
    // with the standard alphabet these would be "YT9iPmM/" and "Pz8+"
    assert_eq!(Base64::decode("Pz8-").map(|b| b.0), Some("??>".to_string()));
    assert_eq!(Base64::decode("Pz8_").map(|b| b.0), Some("???".to_string()));
    assert!(Base64::decode("Pz8+").is_none());
    assert!(Base64::decode("Pz8/").is_none());
}

#[test]
fn base64_that_is_no_encoding_is_refused() {
    assert!(Base64::decode("aGVsbG8").is_none());
    assert!(Base64::decode("hello world").is_none());
    assert!(Base64::decode("=").is_none());
    assert!(Base64::decode("a").is_none());
}

#[test]
fn base64_of_bytes_that_are_no_text_is_refused() {
    assert!(Base64::decode("_w==").is_none());
    assert!(Base64::decode("-_8=").is_none());
    assert!(Base64::from_decoded(Some(vec![0xff])).is_none());
    assert!(Base64::from_decoded(Some(vec![0xc3])).is_none());
    assert!(Base64::from_decoded(None).is_none());
    assert_eq!(
        Base64::from_decoded(Some(vec![0xc3, 0xa9])).map(|b| b.0),
        Some("\u{e9}".to_string())
    );
}

#[test]
fn map_keeps_one_value_for_each_name() {
    let mut map: StringMap<u32> = StringMap::new();
    assert_eq!(map.len(), 0);
    assert!(!map.insert("a".to_string(), 1));
    assert!(!map.insert("b".to_string(), 2));
    assert!(map.insert("a".to_string(), 3));
    assert_eq!(map.len(), 2);
    assert_eq!(map.get("a"), Some(&3));
    assert_eq!(map.get("b"), Some(&2));
    assert_eq!(map.get("c"), None);
    assert_eq!(map.get(""), None);
    assert!(map.contains_key("b"));
    assert!(!map.contains_key("B"));
}

#[test]
fn map_keeps_insertion_order() {
    let map = StringMap::new()
        .with("z".to_string(), 1)
        .with("a".to_string(), 2)
        .with("z".to_string(), 3)
        .with("m".to_string(), 4);
    assert_eq!(map.len(), 3);
    let listed: Vec<(String, i32)> =
        (0..map.len()).map(|i| (map.entry(i).0.clone(), *map.entry(i).1)).collect();
    assert_eq!(
        listed,
        vec![("z".to_string(), 3), ("a".to_string(), 2), ("m".to_string(), 4)]
    );
}

#[test]
fn map_copy_is_independent() {
    let mut map: StringMap<Vec<String>> = StringMap::new();
    map.insert("x".to_string(), vec!["1".to_string()]);
    let copy = map.clone();
    map.insert("x".to_string(), Vec::new());
    map.insert("y".to_string(), Vec::new());
    assert_eq!(copy.len(), 1);
    assert_eq!(copy.get("x"), Some(&vec!["1".to_string()]));
}

#[test]
fn badges_hold_json_values() {
    let mut badges: StringMap<Json> = StringMap::new();
    badges.insert(
        "travis".to_string(),
        Json::Object(vec![("repository".to_string(), Json::Text("a/b".to_string()))]),
    );
    let badge = badges.get("travis").expect("there");
    assert_eq!(
        badge.get(&chars("repository")).and_then(|v| v.as_str()),
        Some("a/b")
    );
}

fn value_of<'a>(cookies: &'a Cookies, name: &str) -> Option<&'a str> {
    cookies.0.get(name).map(|c| c.value())
}

#[test]
fn cookies_are_read_from_the_headers() {
    let cookies = Cookies::from_header_values(&[
        "session=abc; theme=dark".to_string(),
        "lang=en".to_string(),
    ]);
    assert_eq!(value_of(&cookies, "session"), Some("abc"));
    assert_eq!(value_of(&cookies, "theme"), Some("dark"));
    assert_eq!(value_of(&cookies, "lang"), Some("en"));
    assert_eq!(value_of(&cookies, "other"), None);
    assert_eq!(cookies.0.iter().count(), 3);
}

#[test]
fn later_cookie_replaces_an_earlier_one() {
    let cookies = Cookies::from_header_values(&["a=1; b=2; a=3".to_string(), "b=4".to_string()]);
    assert_eq!(value_of(&cookies, "a"), Some("3"));
    assert_eq!(value_of(&cookies, "b"), Some("4"));
    assert_eq!(cookies.0.iter().count(), 2);
}

#[test]
fn cookie_names_and_values_are_percent_decoded() {
    let cookies = Cookies::from_header_values(&["na%20me=a%3Db%20c".to_string()]);
    assert_eq!(value_of(&cookies, "na me"), Some("a=b c"));
    assert_eq!(value_of(&cookies, "na%20me"), None);
}

#[test]
fn parts_that_are_no_cookies_are_passed_over() {
    let cookies =
        Cookies::from_header_values(&["novalue; =noname; ; ok=1;".to_string(), String::new()]);
    assert_eq!(value_of(&cookies, "ok"), Some("1"));
    assert_eq!(cookies.0.iter().count(), 1);
    assert_eq!(Cookies::from_header_values(&[]).0.iter().count(), 0);
}
