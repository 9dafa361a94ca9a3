use datetime_core::errors::ErrorCode;
use datetime_core::url::Url;

#[test]
fn test_url() {
    let url = Url::new("https://www.google.com").unwrap();
    assert_eq!(url.build().unwrap(), "https://www.google.com/".to_string());

    let url = Url::new("https://www.google.com").unwrap();
    let url = url.add_path("search").build().unwrap();
    assert_eq!(url, "https://www.google.com/search/".to_string());

    let url = Url::new("https://www.google.com").unwrap();
    let url = url
        .add_path("search")
        .add_param("q", "rust")
        .build()
        .unwrap();

    assert_eq!(url, "https://www.google.com/search/?q=rust".to_string());

    let url = Url::new("https://www.google.com").unwrap();
    let url = url
        .add_path("search")
        .add_param("q", "rust")
        .add_param("oq", "rust")
        .add_param("aqs", "chrome..69i57j69i60l3j69i65.1053j0j7")
        .build()
        .unwrap();

    assert_eq!(
        url,
        "https://www.google.com/search/?q=rust&oq=rust&aqs=chrome%2E%2E69i57j69i60l3j69i65%2E1053j0j7"
            .to_string()
    );
}

#[test]
fn url_rejects_a_base_that_is_no_host() {
    let err = Url::new("not a url").unwrap_err();
    assert_eq!(err.code(), ErrorCode::Invalid);
    assert_eq!(err.message(), "Invalid base URL: not a url");
    assert!(Url::new("https://www.google.com/search").is_err());
}

#[test]
fn url_keeps_a_trailing_slash_and_trims_a_leading_one() {
    let url = Url::new("https://example.org/").unwrap();
    assert_eq!(url.assemble(), "https://example.org/");
    let url = url.add_path("/a/b/");
    assert_eq!(url.assemble(), "https://example.org/a/b/");
}

#[test]
fn url_set_params_takes_pairs_as_they_are() {
    let url = Url::new("example.org").unwrap().set_params(vec![
        ("a".to_string(), "1".to_string()),
        ("b".to_string(), "x y".to_string()),
    ]);
    assert_eq!(url.assemble(), "example.org/?a=1&b=x y");
}

#[test]
fn url_encodes_keys_and_values() {
    let url = Url::new("example.org").unwrap().add_param("a b", "c&d");
    assert_eq!(url.build().unwrap(), "example.org/?a%20b=c%26d");
}

#[test]
fn url_checked_text_follows_the_verdict() {
    assert_eq!(
        Url::checked_text("x".to_string(), Some(true)).unwrap(),
        "x"
    );
    let err = Url::checked_text("x".to_string(), Some(false)).unwrap_err();
    assert_eq!(err.message(), "Invalid URL: x");
    assert!(Url::checked_text("x".to_string(), None).is_err());
    assert!(Url::from_checked("x", None).is_err());
    assert_eq!(Url::from_checked("x", Some(true)).unwrap().assemble(), "x/");
}

#[test]
fn url_push_param_takes_the_pair_as_it_is() {
    let url = Url::new("example.org")
        .unwrap()
        .push_param("a b".to_string(), "c".to_string())
        .push_param("d".to_string(), "e".to_string());
    assert_eq!(url.assemble(), "example.org/?a b=c&d=e");
    let copy = url.clone();
    assert_eq!(copy, url);
}
