use pallet_ocw::info::{GithubInfo, PriceInfo};
use pallet_ocw::json::{string_at, Found};
use pallet_ocw::text::{de_string_to_bytes, push_decimal};

#[test]
fn shows_github_info_as_text() {
    let info = GithubInfo {
        login: b"substrate-developer-hub".to_vec(),
        blog: "https://substrate.dev/é".as_bytes().to_vec(),
        public_repos: 41,
    };
    assert_eq!(
        info.debug_text().unwrap(),
        "{ login: substrate-developer-hub, blog: https://substrate.dev/é, public_repos: 41 }"
    );
}

#[test]
fn shows_price_info_as_text() {
    let info = PriceInfo { price_vec: b"33.2564".to_vec() };
    assert_eq!(info.debug_text().unwrap(), "{ priceUsd: 33.2564 }");
}

#[test]
fn shows_nothing_of_what_is_no_text() {
    let bad = vec![0xff, 0x00];
    assert_eq!(PriceInfo { price_vec: bad.clone() }.debug_text(), None);
    let info = GithubInfo { login: bad.clone(), blog: vec![], public_repos: 0 };
    assert_eq!(info.debug_text(), None);
    let info = GithubInfo { login: vec![], blog: bad, public_repos: 0 };
    assert_eq!(info.debug_text(), None);
}

#[test]
fn nothing_is_known_at_first() {
    assert_eq!(GithubInfo::default().debug_text().unwrap(), "{ login: , blog: , public_repos: 0 }");
    assert_eq!(PriceInfo::default().debug_text().unwrap(), "{ priceUsd:  }");
}

#[test]
fn writes_numbers_in_decimal() {
    for n in [0, 7, 10, 99, 100, 12_345, 4_294_967_295u32] {
        let mut text = String::from("n=");
        push_decimal(&mut text, n);
        assert_eq!(text, format!("n={}", n));
    }
}

#[test]
fn strings_become_their_bytes() {
    assert_eq!(de_string_to_bytes::<()>(Ok("dé")), Ok("dé".as_bytes().to_vec()));
    assert_eq!(de_string_to_bytes(Err("no string")), Err("no string"));
}

#[test]
fn finds_strings_in_nested_objects() {
    let text = r#"{"data": {"id": "polkadot", "rank": 7, "list": ["x"]}, "timestamp": 1}"#;
    assert_eq!(string_at(text, "data", "id"), Found::Text(String::from("polkadot")));
    assert_eq!(string_at(text, "data", "rank"), Found::NoString);
    assert_eq!(string_at(text, "data", "list"), Found::NoString);
    assert_eq!(string_at(text, "data", "name"), Found::NoString);
    assert_eq!(string_at(text, "timestamp", "id"), Found::NoString);
    assert_eq!(string_at(text, "none", "id"), Found::NoString);
    assert_eq!(string_at("[1, 2]", "data", "id"), Found::NoString);
    assert_eq!(string_at("\"data\"", "data", "id"), Found::NoString);
    assert_eq!(string_at(r#"{"a": {"b": "é\n"}}"#, "a", "b"), Found::Text(String::from("é\n")));
}

#[test]
fn tells_what_is_no_document() {
    for text in ["", "{", "{\"data\": }", "{} {}", "not json"] {
        assert_eq!(string_at(text, "data", "id"), Found::NoDocument, "{}", text);
    }
}
