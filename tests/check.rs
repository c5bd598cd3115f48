use std::collections::HashMap;

use homochecker::api::{
    check_services, collect_batch, list_services, redirect_badge, status_label, CheckEvent,
    CheckEventResponseData, CheckPlan, CheckQueryParameter, CheckResponseFormat, CheckStream,
    ListJsonResponse, ListQueryParameter, ListReply, ListResponseFormat,
};
use homochecker::avatar::{
    attach_avatar_resolver, distribute_avatars, fetch_avatar, mastodon_user_url, twitter_intent_url,
    AvatarAction, AvatarEvent,
};
use homochecker::data::{HomoService, HomoServiceResponse, User};
use homochecker::url::{redirect_allowed, ServiceUrl, MAX_REDIRECTS};
use homochecker::validation::{HomoServiceStatus, HttpResponse};

fn user(screen_name: &str, url: &str) -> User {
    User {
        id: 1,
        screen_name: screen_name.to_string(),
        service: "twitter".to_string(),
        url: url.to_string(),
    }
}

fn service(screen_name: &str, url: &str) -> HomoService {
    HomoService::from_user(&user(screen_name, url)).unwrap()
}

fn response(status: u16, location: Option<&str>, body: &str) -> HttpResponse {
    HttpResponse {
        status,
        remote_address: Some("192.0.2.7".to_string()),
        headers: location
            .map(|l| vec![("location".to_string(), l.to_string())])
            .unwrap_or_default(),
        body: body.to_string(),
    }
}

fn probe(s: &HomoService, r: &HttpResponse, avatar: Option<String>) -> CheckEventResponseData {
    let outcome = HomoServiceResponse::from_probe(Some(r), 1_500_000_000, avatar);
    CheckEventResponseData::build(s, &outcome)
}

#[test]
fn redirect_to_profile_is_ok() {
    let s = service("mpyw", "https://homo.example/");
    let d = probe(&s, &response(301, Some("https://twitter.com/mpyw"), ""), None);
    assert_eq!(d.status, "OK");
    assert_eq!(d.homo.icon, None);
    assert_eq!(d.homo.screen_name, "mpyw");
    assert_eq!(d.homo.service, "twitter");
    assert_eq!(d.homo.url, "https://homo.example/");
    assert_eq!(d.homo.display_url, "homo.example");
    assert!(d.homo.secure);
    assert_eq!(d.ip, Some("192.0.2.7".to_string()));
    assert_eq!(d.duration_nanos, 1_500_000_000);
}

#[test]
fn redirect_elsewhere_is_wrong() {
    let s = service("mpyw", "http://homo.example/");
    let d = probe(&s, &response(301, Some("https://twitter.com/kb10uy"), ""), None);
    assert_eq!(d.status, "WRONG");
    assert!(!d.homo.secure);
}

#[test]
fn meta_refresh_is_ok() {
    let s = service("@mpyw@mstdn.jp", "https://homo.example/index.html");
    let body = r#"<html><head><meta http-equiv="refresh" content="0;https://twitter.com/mpyw"></head></html>"#;
    let d = probe(&s, &response(200, None, body), None);
    assert_eq!(d.status, "OK");
    assert_eq!(d.homo.screen_name, "@mpyw@mstdn.jp");
    assert_eq!(d.homo.service, "mastodon");
    assert_eq!(d.homo.display_url, "homo.example/index.html");
}

#[test]
fn failed_probe_is_error() {
    let s = service("mpyw", "https://homo.example/");
    let outcome = HomoServiceResponse::from_probe(None, 5, None);
    assert_eq!(outcome.status, HomoServiceStatus::Error);
    assert_eq!(outcome.remote_address, None);
    assert_eq!(CheckEventResponseData::build(&s, &outcome).status, "ERROR");
}

#[test]
fn status_labels() {
    assert_eq!(status_label(HomoServiceStatus::RedirectResponse), "OK");
    assert_eq!(status_label(HomoServiceStatus::RedirectContent), "OK");
    assert_eq!(status_label(HomoServiceStatus::LinkContent), "CONTAINS");
    assert_eq!(status_label(HomoServiceStatus::Invalid), "WRONG");
    assert_eq!(status_label(HomoServiceStatus::Error), "ERROR");
}

/// Runs one avatar resolution against an in-memory cache and a fixed page.
fn resolve(
    p: &homochecker::provider::Provider,
    cache: &mut HashMap<String, String>,
    writes: &mut usize,
    fetches: &mut usize,
    page: &str,
) -> Option<String> {
    let mut action = fetch_avatar(p, &AvatarEvent::Begin);
    loop {
        let event = match action {
            AvatarAction::ReadCache { key } => AvatarEvent::CacheAnswered(cache.get(&key).cloned()),
            AvatarAction::FetchTwitter { .. } | AvatarAction::FetchMastodon { .. } => {
                *fetches += 1;
                AvatarEvent::PageFetched(Some(page.to_string()))
            }
            AvatarAction::WriteCache { key, url, .. } => {
                *writes += 1;
                cache.insert(key, url.clone());
                AvatarEvent::CacheWritten(url)
            }
            AvatarAction::Finish(u) => return u,
        };
        action = fetch_avatar(p, &event);
    }
}

#[test]
fn shared_identity_is_fetched_and_cached_once() {
    let attached = attach_avatar_resolver(vec![
        service("mpyw", "https://a.example/"),
        service("mpyw", "https://b.example/"),
    ]);
    let page = r#"<img src="https://pbs.twimg.com/profile_images/9/icon.png">"#;
    let mut cache = HashMap::new();
    let (mut writes, mut fetches) = (0usize, 0usize);
    let resolved: Vec<Option<String>> = attached
        .providers
        .iter()
        .map(|p| resolve(p, &mut cache, &mut writes, &mut fetches, page))
        .collect();
    let avatars = distribute_avatars(&attached.group_of, &resolved);
    let r = response(302, Some("https://twitter.com/mpyw"), "");
    let events: Vec<CheckEventResponseData> = attached
        .services
        .iter()
        .zip(avatars)
        .map(|(s, a)| probe(s, &r, a))
        .collect();
    let icon = Some("https://pbs.twimg.com/profile_images/9/icon.png".to_string());
    assert_eq!(events[0].homo.icon, icon);
    assert_eq!(events[1].homo.icon, icon);
    assert_eq!(writes, 1);
    assert_eq!(fetches, 1);
    assert_eq!(cache.get("twitter:mpyw"), icon.as_ref());
}

#[test]
fn empty_input_is_not_found() {
    let json = CheckQueryParameter { format: Some(CheckResponseFormat::Json) };
    assert!(matches!(check_services(&vec![], &json), CheckPlan::NotFound));
    let malformed = vec![user("a@b", "https://a.example/"), user("mpyw", "not a url")];
    assert!(matches!(check_services(&malformed, &json), CheckPlan::NotFound));
    let list = ListQueryParameter { format: None };
    assert!(matches!(list_services(&vec![], &list), ListReply::NotFound));
}

#[test]
fn check_plan_follows_format() {
    let users = vec![user("mpyw", "https://a.example/"), user("x@y", "https://b.example/")];
    match check_services(&users, &CheckQueryParameter { format: None }) {
        CheckPlan::Stream(s) => assert_eq!(s.len(), 1),
        _ => panic!("expected a stream"),
    }
    let sse = CheckQueryParameter { format: Some(CheckResponseFormat::ServerSentEvent) };
    assert!(matches!(check_services(&users, &sse), CheckPlan::Stream(_)));
    let json = CheckQueryParameter { format: Some(CheckResponseFormat::Json) };
    assert!(matches!(check_services(&users, &json), CheckPlan::Batch(_)));
}

#[test]
fn stream_sends_initialize_first() {
    let s = service("mpyw", "https://a.example/");
    let mut stream = CheckStream::new(2);
    match stream.initialize() {
        CheckEvent::Initialize(d) => assert_eq!(d.count, 2),
        _ => panic!("expected initialize"),
    }
    assert!(!stream.is_complete());
    let ok = Ok(HomoServiceResponse::from_probe(None, 1, None));
    assert!(matches!(stream.report(&s, &ok), CheckEvent::Response(_)));
    match stream.report(&s, &Err("connection refused".to_string())) {
        CheckEvent::Error(m) => assert_eq!(m, "connection refused"),
        _ => panic!("expected an error event"),
    }
    assert!(stream.is_complete());
}

#[test]
fn batch_leaves_out_failures() {
    let services = vec![
        service("mpyw", "https://a.example/"),
        service("mpyw", "https://b.example/"),
        service("mpyw", "https://c.example/"),
    ];
    let results = vec![
        Ok(HomoServiceResponse::from_probe(None, 1, None)),
        Err("boom".to_string()),
        Ok(HomoServiceResponse::from_probe(None, 3, None)),
    ];
    let batch = collect_batch(&services, &results);
    assert_eq!(batch.len(), 2);
    assert_eq!(batch[0].homo.url, "https://a.example/");
    assert_eq!(batch[1].homo.url, "https://c.example/");
    assert_eq!(batch[1].duration_nanos, 3);
}

#[test]
fn lists_as_json_and_sql() {
    let users = vec![
        user("mpyw", "https://homo.example/"),
        user("@mpyw@mstdn.jp", "http://xn--r8jz45g.xn--zckzah/a?b=c"),
    ];
    match list_services(&users, &ListQueryParameter { format: Some(ListResponseFormat::Json) }) {
        ListReply::Json(l) => {
            let l: Vec<ListJsonResponse> = l;
            assert_eq!(l.len(), 2);
            assert_eq!(l[0].display_url, "homo.example");
            assert_eq!(l[1].display_url, "例え.テスト/a?b=c");
            assert_eq!(l[1].service, "mastodon");
            assert!(!l[1].secure);
        }
        _ => panic!("expected JSON"),
    }
    match list_services(&users, &ListQueryParameter { format: Some(ListResponseFormat::Sql) }) {
        ListReply::Sql(t) => assert_eq!(
            t,
            "INSERT INTO `users` (`screen_name`, `service`, `url`) VALUES ('mpyw', 'twitter', 'https://homo.example/');\n\
             INSERT INTO `users` (`screen_name`, `service`, `url`) VALUES ('@mpyw@mstdn.jp', 'mastodon', 'http://xn--r8jz45g.xn--zckzah/a?b=c');\n"
        ),
        _ => panic!("expected SQL"),
    }
}

#[test]
fn display_url_of_addresses() {
    let u = ServiceUrl::parse("http://192.0.2.1:8080/").unwrap();
    assert_eq!(u.to_display_url(), Some("192.0.2.1".to_string()));
    let v = ServiceUrl::parse("https://[2001:db8::1]/x").unwrap();
    assert_eq!(v.to_display_url(), Some("2001:db8::1/x".to_string()));
    assert!(ServiceUrl::parse("mailto:a@b.example").unwrap().to_display_url().is_none());
}

#[test]
fn badge_shows_count() {
    assert_eq!(
        redirect_badge(5),
        "https://img.shields.io/badge/homo-5%20registered-7a6544.svg"
    );
    assert_eq!(
        redirect_badge(1234),
        "https://img.shields.io/badge/homo-1234%20registered-7a6544.svg"
    );
    assert_eq!(
        redirect_badge(0),
        "https://img.shields.io/badge/homo-0%20registered-7a6544.svg"
    );
}

#[test]
fn redirects_stay_on_the_same_host() {
    assert!(redirect_allowed(Some("homo.example"), Some("homo.example"), 0));
    assert!(!redirect_allowed(Some("homo.example"), Some("twitter.com"), 0));
    assert!(!redirect_allowed(None, None, 0));
    assert!(!redirect_allowed(Some("homo.example"), Some("homo.example"), MAX_REDIRECTS));
}

#[test]
fn avatar_page_urls() {
    assert_eq!(twitter_intent_url("mpyw"), "https://twitter.com/intent/user?screen_name=mpyw");
    assert_eq!(mastodon_user_url("mpyw", "mstdn.jp"), "https://mstdn.jp/users/mpyw.json");
}

#[test]
fn user_records_that_do_not_parse_are_rejected() {
    assert!(HomoService::from_user(&user("a@b", "https://a.example/")).is_err());
    assert!(HomoService::from_user(&user("mpyw", "not a url")).is_err());
    assert!(ServiceUrl::parse("not a url").is_none());
    let s = HomoService::from_user(&user("@mpyw@mstdn.jp", "HTTPS://A.Example")).unwrap();
    assert_eq!(s.service_url.href, "https://a.example/");
    assert_eq!(s.service_url.scheme, "https");
}
