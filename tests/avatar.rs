use homochecker::avatar::{
    attach_avatar_resolver, distribute_avatars, fetch_avatar, mastodon_avatar_from_json,
    twitter_avatar_from_html, AvatarAction, AvatarEvent,
};
use homochecker::data::{HomoService, User};
use homochecker::provider::Provider;

const TWITTER_PAGE: &str = r#"<html><body>
    <img class="photo" src="https://pbs.twimg.com/profile_images/1/mpyw_400x400.jpg" alt="">
    <img src="https://abs.twimg.com/other.png">
</body></html>"#;

fn user(screen_name: &str, url: &str) -> User {
    User {
        id: 1,
        screen_name: screen_name.to_string(),
        service: "twitter".to_string(),
        url: url.to_string(),
    }
}

fn service(screen_name: &str, url: &str) -> HomoService {
    HomoService::from_user(&user(screen_name, url)).unwrap()
}

#[test]
fn extracts_twitter_avatar() {
    assert_eq!(
        twitter_avatar_from_html(TWITTER_PAGE),
        Some("https://pbs.twimg.com/profile_images/1/mpyw_400x400.jpg".to_string())
    );
    assert_eq!(twitter_avatar_from_html("<img src='https://example.com/a.png'>"), None);
}

#[test]
fn extracts_mastodon_avatar() {
    let doc = r#"{"id":"1","icon":{"type":"Image","url":"https://files.mstdn.jp/a b.png"}}"#;
    assert_eq!(
        mastodon_avatar_from_json(doc),
        Some("https://files.mstdn.jp/a%20b.png".to_string())
    );
    assert_eq!(mastodon_avatar_from_json(r#"{"icon":{"url":3}}"#), None);
    assert_eq!(mastodon_avatar_from_json(r#"{"icon":{}}"#), None);
    assert_eq!(mastodon_avatar_from_json("not json"), None);
    assert_eq!(mastodon_avatar_from_json(r#"{"icon":{"url":"no url"}}"#), None);
}

#[test]
fn resolution_reads_cache_first() {
    let p = Provider::from_entity("mpyw").unwrap();
    match fetch_avatar(&p, &AvatarEvent::Begin) {
        AvatarAction::ReadCache { key } => assert_eq!(key, "twitter:mpyw"),
        _ => panic!("expected a cache read"),
    }
    let cached = AvatarEvent::CacheAnswered(Some("https://pbs.twimg.com/a.jpg".to_string()));
    match fetch_avatar(&p, &cached) {
        AvatarAction::Finish(u) => assert_eq!(u, Some("https://pbs.twimg.com/a.jpg".to_string())),
        _ => panic!("expected a cache hit"),
    }
}

#[test]
fn resolution_fetches_on_miss() {
    let p = Provider::from_entity("mpyw").unwrap();
    match fetch_avatar(&p, &AvatarEvent::CacheAnswered(None)) {
        AvatarAction::FetchTwitter { screen_name } => assert_eq!(screen_name, "mpyw"),
        _ => panic!("expected a Twitter fetch"),
    }
    let broken = AvatarEvent::CacheAnswered(Some("not a url".to_string()));
    assert!(matches!(fetch_avatar(&p, &broken), AvatarAction::FetchTwitter { .. }));
    let m = Provider::from_entity("@mpyw@mstdn.jp").unwrap();
    match fetch_avatar(&m, &AvatarEvent::CacheAnswered(None)) {
        AvatarAction::FetchMastodon { screen_name, domain } => {
            assert_eq!(screen_name, "mpyw");
            assert_eq!(domain, "mstdn.jp");
        }
        _ => panic!("expected a Mastodon fetch"),
    }
}

#[test]
fn resolution_writes_found_avatar_for_a_day() {
    let p = Provider::from_entity("mpyw").unwrap();
    match fetch_avatar(&p, &AvatarEvent::PageFetched(Some(TWITTER_PAGE.to_string()))) {
        AvatarAction::WriteCache { key, url, ttl_secs } => {
            assert_eq!(key, "twitter:mpyw");
            assert_eq!(url, "https://pbs.twimg.com/profile_images/1/mpyw_400x400.jpg");
            assert_eq!(ttl_secs, 86400);
        }
        _ => panic!("expected a cache write"),
    }
    match fetch_avatar(&p, &AvatarEvent::CacheWritten("https://pbs.twimg.com/x".to_string())) {
        AvatarAction::Finish(u) => assert_eq!(u, Some("https://pbs.twimg.com/x".to_string())),
        _ => panic!("expected the end"),
    }
}

#[test]
fn resolution_fails_softly() {
    let p = Provider::from_entity("mpyw").unwrap();
    assert!(matches!(fetch_avatar(&p, &AvatarEvent::PageFetched(None)), AvatarAction::Finish(None)));
    let empty = AvatarEvent::PageFetched(Some("<html></html>".to_string()));
    assert!(matches!(fetch_avatar(&p, &empty), AvatarAction::Finish(None)));
}

#[test]
fn groups_services_by_identity() {
    let services = vec![
        service("mpyw", "https://a.example/"),
        service("@mpyw@mstdn.jp", "https://b.example/"),
        service("mpyw", "https://c.example/"),
    ];
    let attached = attach_avatar_resolver(services);
    assert_eq!(attached.services.len(), 3);
    assert_eq!(attached.providers.len(), 2);
    assert_eq!(attached.group_of, vec![0, 1, 0]);
    assert_eq!(attached.services[2].service_url.href, "https://c.example/");
}

#[test]
fn shared_identity_gets_one_value() {
    let attached = attach_avatar_resolver(vec![
        service("mpyw", "https://a.example/"),
        service("mpyw", "https://b.example/"),
    ]);
    let avatars = distribute_avatars(&attached.group_of, &vec![None]);
    assert_eq!(avatars, vec![None, None]);
    let avatars = distribute_avatars(&attached.group_of, &vec![Some("https://i.example/a".to_string())]);
    assert_eq!(avatars[0], avatars[1]);
}
