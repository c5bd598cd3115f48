use homochecker::provider::Provider;

#[test]
fn parses_twitter_name() {
    let p = Provider::from_entity("mpyw").unwrap();
    match &p {
        Provider::Twitter(s) => assert_eq!(s, "mpyw"),
        _ => panic!("expected a Twitter provider"),
    }
    assert_eq!(p.to_entity_string(), "mpyw");
    assert_eq!(p.to_cache_key(), "twitter:mpyw");
    assert_eq!(p.network(), "twitter");
}

#[test]
fn parses_mastodon_name() {
    let p = Provider::from_entity("@mpyw@mstdn.jp").unwrap();
    match &p {
        Provider::Mastodon { screen_name, domain } => {
            assert_eq!(screen_name, "mpyw");
            assert_eq!(domain, "mstdn.jp");
        }
        _ => panic!("expected a Mastodon provider"),
    }
    assert_eq!(p.to_entity_string(), "@mpyw@mstdn.jp");
    assert_eq!(p.to_cache_key(), "mastodon:@mpyw@mstdn.jp");
    assert_eq!(p.network(), "mastodon");
}

#[test]
fn rejects_malformed_names() {
    assert!(Provider::from_entity("mpyw@mstdn.jp").is_err());
    assert!(Provider::from_entity("x@mpyw@mstdn.jp").is_err());
    assert!(Provider::from_entity("@a@b@c").is_err());
    assert!(Provider::from_entity("@").is_err());
    assert_eq!(
        Provider::from_entity("a@b").unwrap_err(),
        "Invalid screen name expression"
    );
}

#[test]
fn entity_text_round_trips() {
    for s in ["mpyw", "", "@mpyw@mstdn.jp", "@@", "@a@", "@@example.com", "ほも"] {
        let p = Provider::from_entity(s).unwrap();
        assert_eq!(p.to_entity_string(), s);
    }
}

#[test]
fn providers_compare_by_variant_and_fields() {
    let a = Provider::from_entity("@mpyw@mstdn.jp").unwrap();
    let b = Provider::from_entity("@mpyw@mstdn.jp").unwrap();
    let c = Provider::from_entity("@mpyw@pawoo.net").unwrap();
    let d = Provider::from_entity("mpyw").unwrap();
    assert!(a == b);
    assert!(a != c);
    assert!(a != d);
    assert!(a.same_as(&a.duplicate()));
}
