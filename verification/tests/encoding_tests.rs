use ticktick_today::encoding::{append_pair, encode_pairs};

fn by_the_url_crate(pairs: &[(&str, &str)]) -> String {
    let mut serializer = url::form_urlencoded::Serializer::new(String::new());
    for (name, value) in pairs {
        serializer.append_pair(name, value);
    }
    serializer.finish()
}

#[test]
fn no_pairs_give_an_empty_text() {
    assert_eq!(encode_pairs(&vec![]), "");
}

#[test]
fn pairs_are_joined_by_ampersands() {
    assert_eq!(encode_pairs(&vec![("a", "1")]), "a=1");
    assert_eq!(encode_pairs(&vec![("a", "1"), ("b", "2"), ("c", "")]), "a=1&b=2&c=");
}

#[test]
fn bytes_are_kept_plussed_or_percent_encoded() {
    assert_eq!(encode_pairs(&vec![("k", "AZaz09*-._")]), "k=AZaz09*-._");
    assert_eq!(encode_pairs(&vec![("k", "a b")]), "k=a+b");
    assert_eq!(encode_pairs(&vec![("k", "a+b")]), "k=a%2Bb");
    assert_eq!(encode_pairs(&vec![("k", "~!'()")]), "k=%7E%21%27%28%29");
    assert_eq!(encode_pairs(&vec![("k", "/:?#[]@")]), "k=%2F%3A%3F%23%5B%5D%40");
    assert_eq!(encode_pairs(&vec![("k", "\u{e9}")]), "k=%C3%A9");
    assert_eq!(encode_pairs(&vec![("k", "\u{1f600}")]), "k=%F0%9F%98%80");
    assert_eq!(encode_pairs(&vec![("k", "\u{0}\u{1f}\u{7f}")]), "k=%00%1F%7F");
    assert_eq!(encode_pairs(&vec![("a&b", "c=d")]), "a%26b=c%3Dd");
}

#[test]
fn every_byte_below_128_agrees_with_the_url_crate() {
    for byte in 0u8..128 {
        let text = (byte as char).to_string();
        let pairs = vec![(text.as_str(), text.as_str())];
        assert_eq!(encode_pairs(&pairs), by_the_url_crate(&pairs));
    }
}

#[test]
fn append_pair_separates_by_count() {
    let mut text = String::from("x?");
    append_pair(&mut text, 0, "a", "1 2");
    assert_eq!(text, "x?a=1+2");
    append_pair(&mut text, 1, "b", "3");
    assert_eq!(text, "x?a=1+2&b=3");
}
