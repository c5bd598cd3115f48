//! What a check or a listing returns: payloads, and the decisions of the
//! check and list requests.
use vstd::prelude::*;
use crate::avatar::service_views;
use crate::data::{service_of_user, HomoService, HomoServiceResponse, HomoServiceView, User};
use crate::provider::{entity_text, network_name};
use crate::text::{clone_opt, concat_str, opt_text, string_from_chars};
use crate::url::display_url_of;
use crate::validation::HomoServiceStatus;

verus! {

/// Response format for a check.
#[derive(Debug, Clone, Copy, PartialEq, Eq, Structural)]
pub enum CheckResponseFormat {
    /// A stream of server-sent events.
    ServerSentEvent,
    /// One JSON array.
    Json,
}

/// Query parameters of a check.
pub struct CheckQueryParameter {
    pub format: Option<CheckResponseFormat>,
}

/// Response format for a listing.
#[derive(Debug, Clone, Copy, PartialEq, Eq, Structural)]
pub enum ListResponseFormat {
    /// One JSON array.
    Json,
    /// SQL insert statements.
    Sql,
}

/// Query parameters of a listing.
pub struct ListQueryParameter {
    pub format: Option<ListResponseFormat>,
}

/// Payload of the `initialize` event.
pub struct CheckEventInitializeData {
    /// How many services will be reported.
    pub count: usize,
}

/// The service part of a `response` event.
pub struct CheckEventResponseDataHomo {
    pub screen_name: String,
    pub service: String,
    pub icon: Option<String>,
    pub url: String,
    pub display_url: String,
    pub secure: bool,
}

/// Payload of the `response` event.
pub struct CheckEventResponseData {
    pub homo: CheckEventResponseDataHomo,
    pub status: String,
    pub ip: Option<String>,
    /// The time the request took, in nanoseconds.
    pub duration_nanos: u64,
}

/// One entry of a JSON listing.
pub struct ListJsonResponse {
    pub screen_name: String,
    pub service: String,
    pub url: String,
    pub display_url: String,
    pub secure: bool,
}

/// The label of a status in responses.
pub open spec fn status_text(s: HomoServiceStatus) -> Seq<char> {
    match s {
        HomoServiceStatus::RedirectResponse => "OK"@,
        HomoServiceStatus::RedirectContent => "OK"@,
        HomoServiceStatus::LinkContent => "CONTAINS"@,
        HomoServiceStatus::Invalid => "WRONG"@,
        HomoServiceStatus::Error => "ERROR"@,
    }
}

/// The display URL of a service, empty where it has none.
pub open spec fn shown_url(s: HomoServiceView) -> Seq<char> {
    match display_url_of(s.service_url) {
        Some(t) => t,
        None => Seq::<char>::empty(),
    }
}

/// The service part of an event describes `s` with avatar `icon`.
pub open spec fn describes_homo(
    h: CheckEventResponseDataHomo,
    s: HomoServiceView,
    icon: Option<Seq<char>>,
) -> bool {
    &&& h.screen_name@ == entity_text(s.provider)
    &&& h.service@ == network_name(s.provider)
    &&& opt_text(h.icon) == icon
    &&& h.url@ == s.service_url.href
    &&& h.display_url@ == shown_url(s)
    &&& h.secure == (s.service_url.scheme == "https"@)
}

/// A `response` payload reports `outcome` for service `s`.
pub open spec fn describes_outcome(
    d: CheckEventResponseData,
    s: HomoServiceView,
    outcome: HomoServiceResponse,
) -> bool {
    &&& describes_homo(d.homo, s, opt_text(outcome.avatar_url))
    &&& d.status@ == status_text(outcome.status)
    &&& opt_text(d.ip) == opt_text(outcome.remote_address)
    &&& d.duration_nanos == outcome.duration_nanos
}

/// A listing entry describes service `s`.
pub open spec fn describes_listing(l: ListJsonResponse, s: HomoServiceView) -> bool {
    &&& l.screen_name@ == entity_text(s.provider)
    &&& l.service@ == network_name(s.provider)
    &&& l.url@ == s.service_url.href
    &&& l.display_url@ == shown_url(s)
    &&& l.secure == (s.service_url.scheme == "https"@)
}

/// The label of a status.
pub fn status_label(s: HomoServiceStatus) -> (r: String)
    ensures
        r@ == status_text(s),
{
    match s {
        HomoServiceStatus::RedirectResponse => String::from_str("OK"),
        HomoServiceStatus::RedirectContent => String::from_str("OK"),
        HomoServiceStatus::LinkContent => String::from_str("CONTAINS"),
        HomoServiceStatus::Invalid => String::from_str("WRONG"),
        HomoServiceStatus::Error => String::from_str("ERROR"),
    }
}

/// The display URL of a service, or an empty string.
fn display_or_empty(service: &HomoService) -> (r: String)
    ensures
        r@ == shown_url(service@),
{
    match service.service_url.to_display_url() {
        Some(t) => t,
        None => String::new(),
    }
}

impl CheckEventResponseDataHomo {
    /// Describes a service with its avatar.
    pub fn build(service: &HomoService, icon: &Option<String>) -> (r: CheckEventResponseDataHomo)
        ensures
            describes_homo(r, service@, opt_text(*icon)),
    {
        CheckEventResponseDataHomo {
            screen_name: service.provider.to_entity_string(),
            service: service.provider.network(),
            icon: clone_opt(icon),
            url: service.service_url.href.clone(),
            display_url: display_or_empty(service),
            secure: service.service_url.is_secure(),
        }
    }
}

impl CheckEventResponseData {
    /// The `response` payload of a probed service.
    pub fn build(service: &HomoService, response: &HomoServiceResponse) -> (r:
        CheckEventResponseData)
        ensures
            describes_outcome(r, service@, *response),
    {
        CheckEventResponseData {
            homo: CheckEventResponseDataHomo::build(service, &response.avatar_url),
            status: status_label(response.status),
            ip: clone_opt(&response.remote_address),
            duration_nanos: response.duration_nanos,
        }
    }
}

impl ListJsonResponse {
    /// The listing entry of a service.
    pub fn build(service: &HomoService) -> (r: ListJsonResponse)
        ensures
            describes_listing(r, service@),
    {
        ListJsonResponse {
            screen_name: service.provider.to_entity_string(),
            service: service.provider.network(),
            url: service.service_url.href.clone(),
            display_url: display_or_empty(service),
            secure: service.service_url.is_secure(),
        }
    }
}

/// The services built from user records, in order, leaving out the records
/// whose entity text or URL does not parse.
pub open spec fn user_services(users: Seq<User>) -> Seq<HomoServiceView>
    decreases users.len(),
{
    if users.len() == 0 {
        Seq::<HomoServiceView>::empty()
    } else {
        let rest = user_services(users.drop_last());
        match service_of_user(users.last().screen_name@, users.last().url@) {
            Some(s) => rest.push(s),
            None => rest,
        }
    }
}

/// Builds the services of user records, dropping the malformed ones.
pub fn services_from_users(users: &Vec<User>) -> (r: Vec<HomoService>)
    ensures
        service_views(r@) == user_services(users@),
{
    let mut r: Vec<HomoService> = Vec::new();
    let mut i: usize = 0;
    while i < users.len()
        invariant
            i <= users.len(),
            service_views(r@) == user_services(users@.subrange(0, i as int)),
        decreases users.len() - i,
    {
        assert(users@.subrange(0, i + 1).drop_last() =~= users@.subrange(0, i as int));
        assert(users@.subrange(0, i + 1).last() == users@[i as int]);
        match HomoService::from_user(&users[i]) {
            Ok(s) => {
                let ghost before = r@;
                r.push(s);
                assert(service_views(r@) =~= service_views(before).push(s@));
            },
            Err(_) => {},
        }
        i = i + 1;
    }
    assert(users@.subrange(0, users.len() as int) =~= users@);
    r
}

/// What a check request comes to.
pub enum CheckPlan {
    /// No service could be built: reported as not found.
    NotFound,
    /// Probe these services and stream the results.
    Stream(Vec<HomoService>),
    /// Probe these services and answer with one collection.
    Batch(Vec<HomoService>),
}

/// Decides a check request: not found where no record gives a service, else
/// streaming unless JSON was asked for.
pub fn check_services(users: &Vec<User>, query: &CheckQueryParameter) -> (r: CheckPlan)
    ensures
        user_services(users@).len() == 0 <==> r is NotFound,
        r matches CheckPlan::Stream(s) ==> service_views(s@) == user_services(users@) && !(
        query.format == Some(CheckResponseFormat::Json)),
        r matches CheckPlan::Batch(s) ==> service_views(s@) == user_services(users@) && query.format
            == Some(CheckResponseFormat::Json),
{
    let services = services_from_users(users);
    if services.len() == 0 {
        return CheckPlan::NotFound;
    }
    assert(service_views(services@).len() == services@.len());
    match query.format {
        Some(CheckResponseFormat::Json) => CheckPlan::Batch(services),
        _ => CheckPlan::Stream(services),
    }
}

/// An event of a streamed check.
pub enum CheckEvent {
    /// Sent first, with the number of services.
    Initialize(CheckEventInitializeData),
    /// The outcome of one service.
    Response(CheckEventResponseData),
    /// A probe that could not complete, with its failure.
    Error(String),
}

/// The progress of a streamed check: whether `initialize` has gone out, and how
/// many of the services have reported.
pub struct CheckStream {
    pub total: usize,
    pub reported: usize,
    pub initialized: bool,
}

impl CheckStream {
    /// Nothing is reported before `initialize`, and never more than the total.
    pub open spec fn wf(&self) -> bool {
        &&& self.reported <= self.total
        &&& !self.initialized ==> self.reported == 0
    }

    /// A stream for `total` services.
    pub fn new(total: usize) -> (r: CheckStream)
        ensures
            r.wf(),
            r.total == total,
            r.reported == 0,
            !r.initialized,
    {
        CheckStream { total, reported: 0, initialized: false }
    }

    /// The `initialize` event, which goes out before any other.
    pub fn initialize(&mut self) -> (r: CheckEvent)
        requires
            old(self).wf(),
            !old(self).initialized,
        ensures
            final(self).wf(),
            final(self).initialized,
            final(self).total == old(self).total,
            final(self).reported == 0,
            r matches CheckEvent::Initialize(d) && d.count == old(self).total,
    {
        self.initialized = true;
        CheckEvent::Initialize(CheckEventInitializeData { count: self.total })
    }

    /// The event for one finished probe: its outcome, or its failure.
    pub fn report(
        &mut self,
        service: &HomoService,
        result: &Result<HomoServiceResponse, String>,
    ) -> (r: CheckEvent)
        requires
            old(self).wf(),
            old(self).initialized,
            old(self).reported < old(self).total,
        ensures
            final(self).wf(),
            final(self).initialized,
            final(self).total == old(self).total,
            final(self).reported == old(self).reported + 1,
            match result {
                Ok(o) => r matches CheckEvent::Response(d) && describes_outcome(d, service@, *o),
                Err(e) => r matches CheckEvent::Error(m) && m@ == e@,
            },
    {
        self.reported = self.reported + 1;
        match result {
            Ok(o) => CheckEvent::Response(CheckEventResponseData::build(service, o)),
            Err(e) => CheckEvent::Error(e.clone()),
        }
    }

    /// Whether every service has reported.
    pub fn is_complete(&self) -> (r: bool)
        ensures
            r == (self.initialized && self.reported == self.total),
    {
        self.initialized && self.reported == self.total
    }
}

/// The payloads of the probes that completed, in order, leaving out failures.
pub open spec fn batch_of(
    services: Seq<HomoServiceView>,
    results: Seq<Result<HomoServiceResponse, String>>,
    out: Seq<CheckEventResponseData>,
) -> bool
    decreases services.len(),
{
    if services.len() == 0 {
        out.len() == 0
    } else {
        match results.last() {
            Ok(o) => out.len() > 0 && describes_outcome(out.last(), services.last(), o) && batch_of(
                services.drop_last(),
                results.drop_last(),
                out.drop_last(),
            ),
            Err(_) => batch_of(services.drop_last(), results.drop_last(), out),
        }
    }
}

/// Collects a batch answer: one payload per completed probe, in order;
/// failed probes are left out.
pub fn collect_batch(
    services: &Vec<HomoService>,
    results: &Vec<Result<HomoServiceResponse, String>>,
) -> (r: Vec<CheckEventResponseData>)
    requires
        services.len() == results.len(),
    ensures
        batch_of(service_views(services@), results@, r@),
{
    let mut r: Vec<CheckEventResponseData> = Vec::new();
    let mut i: usize = 0;
    while i < services.len()
        invariant
            i <= services.len(),
            services.len() == results.len(),
            batch_of(
                service_views(services@.subrange(0, i as int)),
                results@.subrange(0, i as int),
                r@,
            ),
        decreases services.len() - i,
    {
        let ghost before = r@;
        let ghost sv = service_views(services@.subrange(0, i + 1));
        let ghost rs = results@.subrange(0, i + 1);
        assert(sv.drop_last() =~= service_views(services@.subrange(0, i as int)));
        assert(rs.drop_last() =~= results@.subrange(0, i as int));
        assert(sv.last() == services@[i as int]@);
        match &results[i] {
            Ok(o) => {
                r.push(CheckEventResponseData::build(&services[i], o));
                assert(r@.drop_last() =~= before);
            },
            Err(_) => {},
        }
        i = i + 1;
    }
    assert(services@.subrange(0, services.len() as int) =~= services@);
    assert(results@.subrange(0, results.len() as int) =~= results@);
    r
}

/// The SQL statement that registers service `s`.
pub open spec fn sql_line(s: HomoServiceView) -> Seq<char> {
    "INSERT INTO `users` (`screen_name`, `service`, `url`) VALUES ('"@ + entity_text(s.provider)
        + "', '"@ + network_name(s.provider) + "', '"@ + s.service_url.href + "');\n"@
}

/// The SQL statements that register services `s`, one line each, in order.
pub open spec fn sql_text(s: Seq<HomoServiceView>) -> Seq<char>
    decreases s.len(),
{
    if s.len() == 0 {
        Seq::<char>::empty()
    } else {
        sql_text(s.drop_last()) + sql_line(s.last())
    }
}

/// The SQL statement that registers a service.
pub fn sql_insert(service: &HomoService) -> (r: String)
    ensures
        r@ == sql_line(service@),
{
    let sn = service.provider.to_entity_string();
    let us = service.provider.network();
    let a = concat_str(
        "INSERT INTO `users` (`screen_name`, `service`, `url`) VALUES ('",
        sn.as_str(),
    );
    let b = concat_str(a.as_str(), "', '");
    let c = concat_str(b.as_str(), us.as_str());
    let d = concat_str(c.as_str(), "', '");
    let e = concat_str(d.as_str(), service.service_url.href.as_str());
    concat_str(e.as_str(), "');\n")
}

/// What a listing request comes to.
pub enum ListReply {
    /// No service could be built: reported as not found.
    NotFound,
    /// One entry per service.
    Json(Vec<ListJsonResponse>),
    /// SQL statements registering the services.
    Sql(String),
}

/// Answers a listing: not found where no record gives a service, else the
/// services as JSON entries unless SQL was asked for.
pub fn list_services(users: &Vec<User>, query: &ListQueryParameter) -> (r: ListReply)
    ensures
        user_services(users@).len() == 0 <==> r is NotFound,
        r matches ListReply::Json(l) ==> query.format != Some(ListResponseFormat::Sql) && l.len()
            == user_services(users@).len() && forall|i: int|
            0 <= i < l.len() ==> describes_listing(#[trigger] l@[i], user_services(users@)[i]),
        r matches ListReply::Sql(t) ==> query.format == Some(ListResponseFormat::Sql) && t@
            == sql_text(user_services(users@)),
{
    let services = services_from_users(users);
    let ghost sv = service_views(services@);
    if services.len() == 0 {
        return ListReply::NotFound;
    }
    match query.format {
        Some(ListResponseFormat::Sql) => {
            let mut sql = String::new();
            let mut i: usize = 0;
            while i < services.len()
                invariant
                    i <= services.len(),
                    sv == service_views(services@),
                    sql@ == sql_text(sv.subrange(0, i as int)),
                decreases services.len() - i,
            {
                assert(sv.subrange(0, i + 1).drop_last() =~= sv.subrange(0, i as int));
                let line = sql_insert(&services[i]);
                sql = concat_str(sql.as_str(), line.as_str());
                i = i + 1;
            }
            assert(sv.subrange(0, services.len() as int) =~= sv);
            ListReply::Sql(sql)
        },
        _ => {
            let mut l: Vec<ListJsonResponse> = Vec::new();
            let mut i: usize = 0;
            while i < services.len()
                invariant
                    i <= services.len(),
                    sv == service_views(services@),
                    l.len() == i,
                    forall|k: int| 0 <= k < i ==> describes_listing(#[trigger] l@[k], sv[k]),
                decreases services.len() - i,
            {
                l.push(ListJsonResponse::build(&services[i]));
                i = i + 1;
            }
            ListReply::Json(l)
        },
    }
}

/// The decimal digit for `d`.
pub open spec fn digit_char(d: nat) -> char {
    if d == 0 {
        '0'
    } else if d == 1 {
        '1'
    } else if d == 2 {
        '2'
    } else if d == 3 {
        '3'
    } else if d == 4 {
        '4'
    } else if d == 5 {
        '5'
    } else if d == 6 {
        '6'
    } else if d == 7 {
        '7'
    } else if d == 8 {
        '8'
    } else {
        '9'
    }
}

/// The decimal form of `n`, without leading zeros.
pub open spec fn decimal_text(n: nat) -> Seq<char>
    decreases n,
{
    if n < 10 {
        seq![digit_char(n)]
    } else {
        decimal_text(n / 10).push(digit_char(n % 10))
    }
}

fn digit(d: usize) -> (r: char)
    requires
        d < 10,
    ensures
        r == digit_char(d as nat),
{
    if d == 0 {
        '0'
    } else if d == 1 {
        '1'
    } else if d == 2 {
        '2'
    } else if d == 3 {
        '3'
    } else if d == 4 {
        '4'
    } else if d == 5 {
        '5'
    } else if d == 6 {
        '6'
    } else if d == 7 {
        '7'
    } else if d == 8 {
        '8'
    } else {
        '9'
    }
}

fn push_decimal(n: usize, out: &mut Vec<char>)
    ensures
        final(out)@ == old(out)@ + decimal_text(n as nat),
    decreases n,
{
    if n >= 10 {
        push_decimal(n / 10, out);
    }
    out.push(digit(n % 10));
    assert(final(out)@ =~= old(out)@ + decimal_text(n as nat));
}

/// The badge image URL that shows how many services are registered.
pub open spec fn badge_url_text(count: nat) -> Seq<char> {
    "https://img.shields.io/badge/homo-"@ + decimal_text(count) + "%20registered-7a6544.svg"@
}

/// The badge image URL for `count` registered services.
pub fn redirect_badge(count: usize) -> (r: String)
    ensures
        r@ == badge_url_text(count as nat),
{
    let mut digits: Vec<char> = Vec::new();
    push_decimal(count, &mut digits);
    let d = string_from_chars(digits.as_slice());
    let a = concat_str("https://img.shields.io/badge/homo-", d.as_str());
    concat_str(a.as_str(), "%20registered-7a6544.svg")
}

} // verus!
