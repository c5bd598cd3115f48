//! Avatar resolution: one resolution per distinct identity of a check, and the
//! cache-then-fetch decisions of each resolution.
use vstd::prelude::*;
use crate::data::{HomoService, HomoServiceView};
use crate::matching::{capture_group, group, regex_captures, regex_captures_of};
use crate::provider::{cache_key_text, Provider, ProviderView};
use crate::text::{clone_opt, concat_str, opt_text};
use crate::url::{parse_url, url_parse_of};

verus! {

/// Services with the avatar resolution group each one waits on.
pub struct AvatarResolverAttached {
    /// The services, in the order given.
    pub services: Vec<HomoService>,
    /// For each service, the index of its group in `providers`.
    pub group_of: Vec<usize>,
    /// One distinct identity per group, in order of first appearance.
    pub providers: Vec<Provider>,
}

/// The abstract values of services.
pub open spec fn service_views(s: Seq<HomoService>) -> Seq<HomoServiceView> {
    s.map_values(|x: HomoService| x@)
}

/// The abstract values of providers.
pub open spec fn provider_views(p: Seq<Provider>) -> Seq<ProviderView> {
    p.map_values(|x: Provider| x@)
}

/// No identity stands in two groups.
pub open spec fn distinct_providers(p: Seq<ProviderView>) -> bool {
    forall|a: int, b: int| 0 <= a < p.len() && 0 <= b < p.len() && a != b ==> p[a] != p[b]
}

/// Some service is in group `g`.
pub open spec fn group_used(group_of: Seq<usize>, g: int) -> bool {
    exists|i: int| 0 <= i < group_of.len() && #[trigger] group_of[i] == g
}

/// Each service points at the group of its own identity, the groups are
/// distinct, and every group has at least one service.
pub open spec fn well_grouped(
    services: Seq<HomoServiceView>,
    group_of: Seq<usize>,
    providers: Seq<ProviderView>,
) -> bool {
    &&& group_of.len() == services.len()
    &&& forall|i: int|
        0 <= i < services.len() ==> group_of[i] < providers.len() && providers[group_of[i] as int]
            == #[trigger] services[i].provider
    &&& distinct_providers(providers)
    &&& forall|g: int| 0 <= g < providers.len() ==> #[trigger] group_used(group_of, g)
}

/// The index of the group of identity `p`, if there is one.
pub fn find_provider(providers: &Vec<Provider>, p: &Provider) -> (r: Option<usize>)
    ensures
        match r {
            Some(g) => g < providers.len() && providers@[g as int]@ == p@,
            None => forall|g: int| 0 <= g < providers.len() ==> providers@[g]@ != p@,
        },
{
    let mut g: usize = 0;
    while g < providers.len()
        invariant
            g <= providers.len(),
            forall|k: int| 0 <= k < g ==> providers@[k]@ != p@,
        decreases providers.len() - g,
    {
        if providers[g].same_as(p) {
            return Some(g);
        }
        g = g + 1;
    }
    None
}

/// Groups services by identity, so that each distinct identity is resolved once.
pub fn attach_avatar_resolver(services: Vec<HomoService>) -> (r: AvatarResolverAttached)
    ensures
        service_views(r.services@) == service_views(services@),
        well_grouped(service_views(r.services@), r.group_of@, provider_views(r.providers@)),
{
    let mut group_of: Vec<usize> = Vec::new();
    let mut providers: Vec<Provider> = Vec::new();
    let mut i: usize = 0;
    while i < services.len()
        invariant
            i <= services.len(),
            group_of.len() == i,
            forall|k: int|
                0 <= k < i ==> group_of@[k] < providers.len() && providers@[group_of@[k] as int]@
                    == services@[k]@.provider,
            distinct_providers(provider_views(providers@)),
            forall|g: int| 0 <= g < providers.len() ==> #[trigger] group_used(group_of@, g),
        decreases services.len() - i,
    {
        let ghost old_g = group_of@;
        let found = find_provider(&providers, &services[i].provider);
        match found {
            Some(g) => {
                group_of.push(g);
                assert forall|h: int| 0 <= h < providers.len() implies #[trigger] group_used(
                    group_of@,
                    h,
                ) by {
                    assert(group_used(old_g, h));
                    let k = choose|k: int| 0 <= k < old_g.len() && #[trigger] old_g[k] == h;
                    assert(0 <= k < group_of.len() && group_of@[k] == h);
                }
            },
            None => {
                let ghost old_providers = providers@;
                let n = providers.len();
                providers.push(services[i].provider.duplicate());
                group_of.push(n);
                assert(provider_views(providers@) =~= provider_views(old_providers).push(
                    services@[i as int]@.provider,
                ));
                assert forall|h: int| 0 <= h < providers.len() implies #[trigger] group_used(
                    group_of@,
                    h,
                ) by {
                    if h < n {
                        assert(group_used(old_g, h));
                        let k = choose|k: int| 0 <= k < old_g.len() && #[trigger] old_g[k] == h;
                        assert(0 <= k < group_of.len() && group_of@[k] == h);
                    } else {
                        assert(group_of@[i as int] == h);
                    }
                }
            },
        }
        i = i + 1;
    }
    AvatarResolverAttached { services, group_of, providers }
}

/// Hands each service the avatar resolved for its group.
pub fn distribute_avatars(group_of: &Vec<usize>, resolved: &Vec<Option<String>>) -> (r: Vec<
    Option<String>,
>)
    requires
        forall|i: int| 0 <= i < group_of.len() ==> group_of@[i] < resolved.len(),
    ensures
        r.len() == group_of.len(),
        forall|i: int|
            0 <= i < group_of.len() ==> opt_text(#[trigger] r@[i]) == opt_text(
                resolved@[group_of@[i] as int],
            ),
{
    let mut r: Vec<Option<String>> = Vec::new();
    let mut i: usize = 0;
    while i < group_of.len()
        invariant
            i <= group_of.len(),
            r.len() == i,
            forall|k: int| 0 <= k < group_of.len() ==> group_of@[k] < resolved.len(),
            forall|k: int|
                0 <= k < i ==> opt_text(#[trigger] r@[k]) == opt_text(
                    resolved@[group_of@[k] as int],
                ),
        decreases group_of.len() - i,
    {
        r.push(clone_opt(&resolved[group_of[i]]));
        i = i + 1;
    }
    r
}

/// Within one check, an identity has exactly one resolution group, so its avatar
/// is fetched at most once, and every service has the group of its identity.
pub proof fn lemma_one_resolution_per_identity(
    services: Seq<HomoServiceView>,
    group_of: Seq<usize>,
    providers: Seq<ProviderView>,
)
    requires
        well_grouped(services, group_of, providers),
    ensures
        forall|g1: int, g2: int|
            0 <= g1 < providers.len() && 0 <= g2 < providers.len() && providers[g1]
                == providers[g2] ==> g1 == g2,
        forall|i: int|
            0 <= i < services.len() ==> exists|g: int|
                0 <= g < providers.len() && providers[g] == #[trigger] services[i].provider,
{
    assert forall|i: int| 0 <= i < services.len() implies exists|g: int|
        0 <= g < providers.len() && providers[g] == #[trigger] services[i].provider by {
        let g = group_of[i] as int;
        assert(providers[g] == services[i].provider);
    }
}

/// Services that share an identity receive the same avatar value, `None`
/// included.
pub proof fn lemma_shared_identity_same_avatar(
    services: Seq<HomoServiceView>,
    group_of: Seq<usize>,
    providers: Seq<ProviderView>,
    resolved: Seq<Option<Seq<char>>>,
    avatars: Seq<Option<Seq<char>>>,
)
    requires
        well_grouped(services, group_of, providers),
        resolved.len() == providers.len(),
        avatars.len() == services.len(),
        forall|i: int| 0 <= i < services.len() ==> avatars[i] == resolved[group_of[i] as int],
    ensures
        forall|i: int, j: int|
            0 <= i < services.len() && 0 <= j < services.len() && services[i].provider
                == services[j].provider ==> avatars[i] == avatars[j],
{
    assert forall|i: int, j: int|
        0 <= i < services.len() && 0 <= j < services.len() && services[i].provider
            == services[j].provider implies avatars[i] == avatars[j] by {
        assert(providers[group_of[i] as int] == services[i].provider);
        assert(providers[group_of[j] as int] == services[j].provider);
    }
}

/// The string at a JSON pointer in a JSON text, where the text parses and the
/// value there is a string.
pub uninterp spec fn json_string_at_of(text: Seq<char>, pointer: Seq<char>) -> Option<Seq<char>>;

/// Relies on `serde_json::from_str` into a `Value`, `Value::pointer` and
/// `Value::as_str`: the string found at `pointer`, or nothing where the text is
/// not JSON or holds no string there.
#[verifier::external_body]
fn json_string_at(text: &str, pointer: &str) -> (r: Option<String>)
    ensures
        opt_text(r) == json_string_at_of(text@, pointer@),
{
    let v: serde_json::Value = serde_json::from_str(text).ok()?;
    v.pointer(pointer)?.as_str().map(|s| s.to_string())
}

/// How long a resolved avatar URL stays cached, in seconds.
pub const AVATAR_CACHE_SECONDS: u64 = 86400;

/// The pattern of an avatar image on a Twitter profile page.
pub open spec fn twitter_avatar_pattern() -> Seq<char> {
    "src=[\"'](https://[ap]bs\\.twimg\\.com/[^\"']+)"@
}

/// The serialized form of a URL text, where it parses.
pub open spec fn url_href_of(s: Seq<char>) -> Option<Seq<char>> {
    match url_parse_of(s) {
        Some(u) => Some(u.href),
        None => None,
    }
}

/// The avatar URL on a Twitter profile page: the first image that matches,
/// where its URL parses.
pub open spec fn twitter_avatar_of(html: Seq<char>) -> Option<Seq<char>> {
    let rows = regex_captures_of(twitter_avatar_pattern(), html);
    if rows.len() > 0 {
        url_href_of(group(rows[0], 1))
    } else {
        None
    }
}

/// The avatar URL in a Mastodon user document: `icon.url`, where it is a
/// string that parses as a URL.
pub open spec fn mastodon_avatar_of(json: Seq<char>) -> Option<Seq<char>> {
    match json_string_at_of(json, "/icon/url"@) {
        Some(s) => url_href_of(s),
        None => None,
    }
}

/// The avatar URL found in a fetched page for provider `p`.
pub open spec fn avatar_in_page(p: ProviderView, page: Seq<char>) -> Option<Seq<char>> {
    match p {
        ProviderView::Twitter(_) => twitter_avatar_of(page),
        ProviderView::Mastodon(_, _) => mastodon_avatar_of(page),
    }
}

/// The serialized URL that a text parses into.
fn url_href(s: &str) -> (r: Option<String>)
    ensures
        opt_text(r) == url_href_of(s@),
{
    match parse_url(s) {
        Some(u) => Some(u.href),
        None => None,
    }
}

/// Extracts the avatar URL from a Twitter profile page.
pub fn twitter_avatar_from_html(html: &str) -> (r: Option<String>)
    ensures
        opt_text(r) == twitter_avatar_of(html@),
{
    let rows = regex_captures("src=[\"'](https://[ap]bs\\.twimg\\.com/[^\"']+)", html);
    if rows.len() > 0 {
        assert(crate::matching::string_rows(rows@)[0] == rows@[0]@.map_values(|s: String| s@));
        let found = capture_group(&rows[0], 1);
        url_href(found.as_str())
    } else {
        None
    }
}

/// Extracts the avatar URL from a Mastodon user document.
pub fn mastodon_avatar_from_json(json: &str) -> (r: Option<String>)
    ensures
        opt_text(r) == mastodon_avatar_of(json@),
{
    match json_string_at(json, "/icon/url") {
        Some(s) => url_href(s.as_str()),
        None => None,
    }
}

/// What has happened so far in resolving one identity's avatar.
pub enum AvatarEvent {
    /// The resolution starts.
    Begin,
    /// The cache answered: the cached text, or nothing on a miss or a failure.
    CacheAnswered(Option<String>),
    /// The profile page was fetched: its text, or nothing on a failure.
    PageFetched(Option<String>),
    /// The cache write of `url` finished, whether or not it succeeded.
    CacheWritten(String),
}

/// The abstract value of an `AvatarEvent`.
pub enum AvatarEventView {
    Begin,
    CacheAnswered(Option<Seq<char>>),
    PageFetched(Option<Seq<char>>),
    CacheWritten(Seq<char>),
}

/// What to do next in resolving one identity's avatar.
pub enum AvatarAction {
    /// Read the cache under `key`.
    ReadCache { key: String },
    /// Fetch the Twitter profile page of `screen_name`.
    FetchTwitter { screen_name: String },
    /// Fetch the Mastodon user document of `screen_name` at `domain`.
    FetchMastodon { screen_name: String, domain: String },
    /// Store `url` in the cache under `key` for `ttl_secs` seconds.
    WriteCache { key: String, url: String, ttl_secs: u64 },
    /// The resolution is over, with this avatar URL.
    Finish(Option<String>),
}

/// The abstract value of an `AvatarAction`.
pub enum AvatarActionView {
    ReadCache(Seq<char>),
    FetchTwitter(Seq<char>),
    FetchMastodon(Seq<char>, Seq<char>),
    WriteCache(Seq<char>, Seq<char>, u64),
    Finish(Option<Seq<char>>),
}

impl View for AvatarEvent {
    type V = AvatarEventView;

    open spec fn view(&self) -> AvatarEventView {
        match self {
            AvatarEvent::Begin => AvatarEventView::Begin,
            AvatarEvent::CacheAnswered(c) => AvatarEventView::CacheAnswered(opt_text(*c)),
            AvatarEvent::PageFetched(b) => AvatarEventView::PageFetched(opt_text(*b)),
            AvatarEvent::CacheWritten(u) => AvatarEventView::CacheWritten(u@),
        }
    }
}

impl View for AvatarAction {
    type V = AvatarActionView;

    open spec fn view(&self) -> AvatarActionView {
        match self {
            AvatarAction::ReadCache { key } => AvatarActionView::ReadCache(key@),
            AvatarAction::FetchTwitter { screen_name } => AvatarActionView::FetchTwitter(
                screen_name@,
            ),
            AvatarAction::FetchMastodon { screen_name, domain } => AvatarActionView::FetchMastodon(
                screen_name@,
                domain@,
            ),
            AvatarAction::WriteCache { key, url, ttl_secs } => AvatarActionView::WriteCache(
                key@,
                url@,
                *ttl_secs,
            ),
            AvatarAction::Finish(u) => AvatarActionView::Finish(opt_text(*u)),
        }
    }
}

/// The fetch that resolves provider `p`'s avatar.
pub open spec fn fetch_action(p: ProviderView) -> AvatarActionView {
    match p {
        ProviderView::Twitter(sn) => AvatarActionView::FetchTwitter(sn),
        ProviderView::Mastodon(sn, d) => AvatarActionView::FetchMastodon(sn, d),
    }
}

/// The resolution policy: read the cache first; a cached URL that parses ends
/// it; otherwise fetch the profile; a failed fetch or a page without an avatar
/// ends it with none; a found avatar is written to the cache for a day and then
/// ends it, whatever the write did.
pub open spec fn avatar_next(p: ProviderView, e: AvatarEventView) -> AvatarActionView {
    match e {
        AvatarEventView::Begin => AvatarActionView::ReadCache(cache_key_text(p)),
        AvatarEventView::CacheAnswered(Some(c)) => match url_href_of(c) {
            Some(h) => AvatarActionView::Finish(Some(h)),
            None => fetch_action(p),
        },
        AvatarEventView::CacheAnswered(None) => fetch_action(p),
        AvatarEventView::PageFetched(None) => AvatarActionView::Finish(None),
        AvatarEventView::PageFetched(Some(page)) => match avatar_in_page(p, page) {
            Some(u) => AvatarActionView::WriteCache(cache_key_text(p), u, 86400),
            None => AvatarActionView::Finish(None),
        },
        AvatarEventView::CacheWritten(u) => AvatarActionView::Finish(Some(u)),
    }
}

/// Decides the next step in resolving `provider`'s avatar after `event`.
pub fn fetch_avatar(provider: &Provider, event: &AvatarEvent) -> (r: AvatarAction)
    ensures
        r@ == avatar_next(provider@, event@),
{
    match event {
        AvatarEvent::Begin => AvatarAction::ReadCache { key: provider.to_cache_key() },
        AvatarEvent::CacheAnswered(cached) => {
            let hit = match cached {
                Some(c) => url_href(c.as_str()),
                None => None,
            };
            match hit {
                Some(h) => AvatarAction::Finish(Some(h)),
                None => fetch_action_for(provider),
            }
        },
        AvatarEvent::PageFetched(None) => AvatarAction::Finish(None),
        AvatarEvent::PageFetched(Some(page)) => {
            let found = match provider {
                Provider::Twitter(_) => twitter_avatar_from_html(page.as_str()),
                Provider::Mastodon { .. } => mastodon_avatar_from_json(page.as_str()),
            };
            match found {
                Some(u) => AvatarAction::WriteCache {
                    key: provider.to_cache_key(),
                    url: u,
                    ttl_secs: AVATAR_CACHE_SECONDS,
                },
                None => AvatarAction::Finish(None),
            }
        },
        AvatarEvent::CacheWritten(u) => AvatarAction::Finish(Some(u.clone())),
    }
}

/// The fetch that resolves `provider`'s avatar.
fn fetch_action_for(provider: &Provider) -> (r: AvatarAction)
    ensures
        r@ == fetch_action(provider@),
{
    match provider {
        Provider::Twitter(sn) => AvatarAction::FetchTwitter { screen_name: sn.clone() },
        Provider::Mastodon { screen_name, domain } => AvatarAction::FetchMastodon {
            screen_name: screen_name.clone(),
            domain: domain.clone(),
        },
    }
}

/// How far a resolution has come when `e` happens.
pub open spec fn stage(e: AvatarEventView) -> int {
    match e {
        AvatarEventView::Begin => 0,
        AvatarEventView::CacheAnswered(_) => 1,
        AvatarEventView::PageFetched(_) => 2,
        AvatarEventView::CacheWritten(_) => 3,
    }
}

/// Event `e` is what carrying out action `a` gives back.
pub open spec fn answers(a: AvatarActionView, e: AvatarEventView) -> bool {
    match a {
        AvatarActionView::ReadCache(_) => e is CacheAnswered,
        AvatarActionView::FetchTwitter(_) => e is PageFetched,
        AvatarActionView::FetchMastodon(_, _) => e is PageFetched,
        AvatarActionView::WriteCache(_, u, _) => e == AvatarEventView::CacheWritten(u),
        AvatarActionView::Finish(_) => false,
    }
}

/// `events` is a resolution of `p`'s avatar: it begins, and each later event
/// answers the action decided on the one before.
pub open spec fn is_resolution(p: ProviderView, events: Seq<AvatarEventView>) -> bool {
    &&& events.len() > 0
    &&& events[0] == AvatarEventView::Begin
    &&& forall|i: int|
        0 <= i < events.len() - 1 ==> answers(avatar_next(p, #[trigger] events[i]), events[i + 1])
}

/// The action fetches a profile page.
pub open spec fn is_fetch(a: AvatarActionView) -> bool {
    a is FetchTwitter || a is FetchMastodon
}

proof fn lemma_resolution_stage(p: ProviderView, events: Seq<AvatarEventView>, i: int)
    requires
        is_resolution(p, events),
        0 <= i < events.len(),
    ensures
        stage(events[i]) == i,
    decreases i,
{
    if i > 0 {
        lemma_resolution_stage(p, events, i - 1);
        assert(answers(avatar_next(p, events[i - 1]), events[i]));
    }
}

/// One resolution ends within four steps, fetches the profile at most once and
/// writes the cache at most once.
pub proof fn lemma_resolution_fetches_once(p: ProviderView, events: Seq<AvatarEventView>)
    requires
        is_resolution(p, events),
    ensures
        events.len() <= 4,
        forall|i: int|
            0 <= i < events.len() && is_fetch(avatar_next(p, #[trigger] events[i])) ==> i == 1,
        forall|i: int|
            0 <= i < events.len() && (#[trigger] avatar_next(p, events[i]) is WriteCache) ==> i
                == 2,
{
    assert forall|i: int| 0 <= i < events.len() implies stage(#[trigger] events[i]) == i by {
        lemma_resolution_stage(p, events, i);
    }
    if events.len() > 4 {
        assert(stage(events[4]) == 4);
    }
}

/// The Twitter page that shows `screen_name`'s profile image.
pub open spec fn twitter_intent_url_text(screen_name: Seq<char>) -> Seq<char> {
    "https://twitter.com/intent/user?screen_name="@ + screen_name
}

/// The Mastodon document of `screen_name` at `domain`.
pub open spec fn mastodon_user_url_text(screen_name: Seq<char>, domain: Seq<char>) -> Seq<char> {
    "https://"@ + domain + "/users/"@ + screen_name + ".json"@
}

/// The URL of the Twitter page that shows a user's profile image.
pub fn twitter_intent_url(screen_name: &str) -> (r: String)
    ensures
        r@ == twitter_intent_url_text(screen_name@),
{
    concat_str("https://twitter.com/intent/user?screen_name=", screen_name)
}

/// The URL of a Mastodon user's document.
pub fn mastodon_user_url(screen_name: &str, domain: &str) -> (r: String)
    ensures
        r@ == mastodon_user_url_text(screen_name@, domain@),
{
    let a = concat_str("https://", domain);
    let b = concat_str(a.as_str(), "/users/");
    let c = concat_str(b.as_str(), screen_name);
    concat_str(c.as_str(), ".json")
}

} // verus!
