//! Classification of a fetched service response: first by status and
//! `Location` header, then by the HTML body.
use vstd::prelude::*;
use crate::matching::{group, capture_group, lower_of, lowercase, regex_captures, regex_captures_of};
use crate::text::{chars_of, contains_chars, contains_seq, starts_with_chars, starts_with_seq, str_eq};

verus! {

/// How a service was found to lead to the canonical profile.
#[derive(Debug, Clone, Copy, PartialEq, Eq, Structural)]
pub enum HomoServiceStatus {
    /// A 301/302/303/307/308 response whose `Location` points at the profile.
    RedirectResponse,
    /// A page with a meta refresh to the profile.
    RedirectContent,
    /// A page that merely links to the profile.
    LinkContent,
    /// A response that leads nowhere valid.
    Invalid,
    /// The request itself failed.
    Error,
}

/// A fetched response, reduced to what the validators read.
pub struct HttpResponse {
    /// The status code.
    pub status: u16,
    /// The remote IP address, where known.
    pub remote_address: Option<String>,
    /// Header names (lower case) and values, in the order received.
    pub headers: Vec<(String, String)>,
    /// The body text.
    pub body: String,
}

/// The canonical profile link every service must lead to.
pub open spec fn target_url() -> Seq<char> {
    "https://twitter.com/mpyw"@
}

/// The pattern of a `<meta ...>` element; group 1 holds its attributes.
pub open spec fn meta_pattern() -> Seq<char> {
    "<meta\\s+([^>]+)\\s*>"@
}

/// The pattern of a `name="value"` attribute.
pub open spec fn attr_pattern() -> Seq<char> {
    "([a-zA-Z0-9\\-]+)=\"([^\"]+)\""@
}

/// The header contents of a response as text pairs.
pub open spec fn header_views(h: Seq<(String, String)>) -> Seq<(Seq<char>, Seq<char>)> {
    h.map_values(|p: (String, String)| (p.0@, p.1@))
}

/// The value of the last header called `name`, if any.
pub open spec fn header_lookup(h: Seq<(Seq<char>, Seq<char>)>, name: Seq<char>) -> Option<
    Seq<char>,
>
    decreases h.len(),
{
    if h.len() == 0 {
        None
    } else if h.last().0 == name {
        Some(h.last().1)
    } else {
        header_lookup(h.drop_last(), name)
    }
}

/// The status codes that redirect.
pub open spec fn is_redirect_code(status: u16) -> bool {
    status == 301 || status == 302 || status == 303 || status == 307 || status == 308
}

/// The header stage: a redirect leads to the profile or is invalid; any other
/// status gives no decision.
pub open spec fn header_status(status: u16, location: Option<Seq<char>>) -> Option<
    HomoServiceStatus,
> {
    if is_redirect_code(status) {
        match location {
            Some(l) => if starts_with_seq(l, target_url()) {
                Some(HomoServiceStatus::RedirectResponse)
            } else {
                Some(HomoServiceStatus::Invalid)
            },
            None => Some(HomoServiceStatus::Invalid),
        }
    } else {
        None
    }
}

/// The header stage over a whole response.
pub open spec fn response_header_status(r: &HttpResponse) -> Option<HomoServiceStatus> {
    header_status(r.status, header_lookup(header_views(r.headers@), "location"@))
}

/// An attribute is `http-equiv` whose value folds to `refresh`.
pub open spec fn is_refresh_attr(row: Seq<Seq<char>>) -> bool {
    group(row, 1) == "http-equiv"@ && lower_of(group(row, 2)) == "refresh"@
}

/// An attribute is `content` whose value holds the profile link.
pub open spec fn is_target_content_attr(row: Seq<Seq<char>>) -> bool {
    group(row, 1) == "content"@ && contains_seq(group(row, 2), target_url())
}

/// The attributes of a meta element redirect to the profile.
pub open spec fn meta_redirects(attrs: Seq<Seq<Seq<char>>>) -> bool {
    (exists|i: int| 0 <= i < attrs.len() && is_refresh_attr(#[trigger] attrs[i])) && (exists|
        j: int,
    |
        0 <= j < attrs.len() && is_target_content_attr(#[trigger] attrs[j]))
}

/// The attributes found in the text of meta element `m`.
pub open spec fn meta_attrs(m: Seq<Seq<char>>) -> Seq<Seq<Seq<char>>> {
    regex_captures_of(attr_pattern(), group(m, 1))
}

/// The body stage: a meta refresh to the profile, else a bare link to it, else
/// no decision.
pub open spec fn html_status(body: Seq<char>) -> Option<HomoServiceStatus> {
    let metas = regex_captures_of(meta_pattern(), body);
    if exists|k: int| 0 <= k < metas.len() && meta_redirects(meta_attrs(#[trigger] metas[k])) {
        Some(HomoServiceStatus::RedirectContent)
    } else if contains_seq(body, target_url()) {
        Some(HomoServiceStatus::LinkContent)
    } else {
        None
    }
}

/// The status of a probe: `Error` where the request failed, else the header
/// stage, else the body stage, else `Invalid`.
pub open spec fn probe_status(r: Option<&HttpResponse>) -> HomoServiceStatus {
    match r {
        None => HomoServiceStatus::Error,
        Some(resp) => match response_header_status(resp) {
            Some(s) => s,
            None => match html_status(resp.body@) {
                Some(s) => s,
                None => HomoServiceStatus::Invalid,
            },
        },
    }
}

/// A redirect status with a `Location` that points at the profile classifies
/// the probe as `RedirectResponse`, whatever the body holds.
pub proof fn lemma_header_precedence(r: &HttpResponse)
    requires
        is_redirect_code(r.status),
        header_lookup(header_views(r.headers@), "location"@) matches Some(l) && starts_with_seq(
            l,
            target_url(),
        ),
    ensures
        probe_status(Some(r)) == HomoServiceStatus::RedirectResponse,
        forall|body: String|
            probe_status(
                Some(
                    &(HttpResponse {
                        status: r.status,
                        remote_address: r.remote_address,
                        headers: r.headers,
                        body,
                    }),
                ),
            ) == HomoServiceStatus::RedirectResponse,
{
}

/// Without a redirect status the body decides: a meta refresh to the profile is
/// `RedirectContent`; failing that, a bare link to it is `LinkContent`; with
/// neither the probe is `Invalid`.
pub proof fn lemma_body_fallback(r: &HttpResponse)
    requires
        !is_redirect_code(r.status),
    ensures
        ({
            let metas = regex_captures_of(meta_pattern(), r.body@);
            let refresh = exists|k: int|
                0 <= k < metas.len() && meta_redirects(meta_attrs(#[trigger] metas[k]));
            &&& refresh ==> probe_status(Some(r)) == HomoServiceStatus::RedirectContent
            &&& !refresh && contains_seq(r.body@, target_url()) ==> probe_status(Some(r))
                == HomoServiceStatus::LinkContent
            &&& !refresh && !contains_seq(r.body@, target_url()) ==> probe_status(Some(r))
                == HomoServiceStatus::Invalid
        }),
{
}

/// Validates a response in one way.
pub trait ValidateResponse {
    /// What this validator decides of a response.
    spec fn decision(response: &HttpResponse) -> Option<HomoServiceStatus>;

    /// Validates the response; `None` is no decision.
    fn validate(response: &HttpResponse) -> (r: Option<HomoServiceStatus>)
        ensures
            r == Self::decision(response),
    ;
}

/// Lets a response be validated by a chosen validator.
pub trait ValidateResponseExt {
    /// The response this value stands for.
    spec fn as_response(&self) -> HttpResponse;

    /// Validates this response with `V`.
    fn validate<V: ValidateResponse>(&self) -> (r: Option<HomoServiceStatus>)
        ensures
            r == V::decision(&self.as_response()),
    ;
}

impl ValidateResponseExt for HttpResponse {
    open spec fn as_response(&self) -> HttpResponse {
        *self
    }

    fn validate<V: ValidateResponse>(&self) -> (r: Option<HomoServiceStatus>) {
        V::validate(self)
    }
}

/// Validates by the status code and the `Location` header.
pub struct ResponseHeaderValidator;

/// Validates by the HTML body.
pub struct ResponseHtmlValidator;

/// The value of the last header called `name`.
pub fn find_header(headers: &Vec<(String, String)>, name: &str) -> (r: Option<String>)
    ensures
        match r {
            Some(v) => header_lookup(header_views(headers@), name@) == Some(v@),
            None => header_lookup(header_views(headers@), name@) is None,
        },
{
    let mut i: usize = headers.len();
    assert(headers@.subrange(0, i as int) =~= headers@);
    while i > 0
        invariant
            i <= headers.len(),
            header_lookup(header_views(headers@), name@) == header_lookup(
                header_views(headers@.subrange(0, i as int)),
                name@,
            ),
        decreases i,
    {
        let ghost h = header_views(headers@.subrange(0, i as int));
        assert(h.drop_last() =~= header_views(headers@.subrange(0, i - 1)));
        if str_eq(headers[i - 1].0.as_str(), name) {
            return Some(headers[i - 1].1.clone());
        }
        i = i - 1;
    }
    None
}

/// The header stage on a status and an optional `Location` value.
pub fn classify_header(status: u16, location: Option<&str>) -> (r: Option<HomoServiceStatus>)
    ensures
        r == header_status(
            status,
            match location {
                Some(l) => Some(l@),
                None => None,
            },
        ),
{
    if status == 301 || status == 302 || status == 303 || status == 307 || status == 308 {
        match location {
            Some(l) => {
                let lc = chars_of(l);
                let target = chars_of("https://twitter.com/mpyw");
                if starts_with_chars(lc.as_slice(), target.as_slice()) {
                    Some(HomoServiceStatus::RedirectResponse)
                } else {
                    Some(HomoServiceStatus::Invalid)
                }
            },
            None => Some(HomoServiceStatus::Invalid),
        }
    } else {
        None
    }
}

impl ValidateResponse for ResponseHeaderValidator {
    open spec fn decision(response: &HttpResponse) -> Option<HomoServiceStatus> {
        response_header_status(response)
    }

    fn validate(response: &HttpResponse) -> (r: Option<HomoServiceStatus>) {
        let location = find_header(&response.headers, "location");
        match location {
            Some(l) => classify_header(response.status, Some(l.as_str())),
            None => classify_header(response.status, None),
        }
    }
}

/// What one attribute says: whether it is a refresh `http-equiv`, and whether it
/// is a `content` holding the profile link, given its value already folded to
/// lower case.
pub fn attribute_flags(name: &str, value: &str, folded: &str) -> (r: (bool, bool))
    ensures
        r.0 == (name@ == "http-equiv"@ && folded@ == "refresh"@),
        r.1 == (name@ == "content"@ && contains_seq(value@, target_url())),
{
    let is_equiv = str_eq(name, "http-equiv") && str_eq(folded, "refresh");
    let vc = chars_of(value);
    let target = chars_of("https://twitter.com/mpyw");
    let is_content = str_eq(name, "content") && contains_chars(vc.as_slice(), target.as_slice());
    (is_equiv, is_content)
}

/// Whether the attribute text of one meta element redirects to the profile.
pub fn meta_text_redirects(meta: &Vec<String>) -> (r: bool)
    ensures
        r == meta_redirects(meta_attrs(meta@.map_values(|s: String| s@))),
{
    let inner = capture_group(meta, 1);
    let attrs = regex_captures(
        "([a-zA-Z0-9\\-]+)=\"([^\"]+)\"",
        inner.as_str(),
    );
    let ghost rows = meta_attrs(meta@.map_values(|s: String| s@));
    assert(rows == crate::matching::string_rows(attrs@));
    let mut http_equiv = false;
    let mut content = false;
    let mut i: usize = 0;
    while i < attrs.len()
        invariant
            i <= attrs.len(),
            rows == crate::matching::string_rows(attrs@),
            http_equiv == exists|k: int| 0 <= k < i && is_refresh_attr(#[trigger] rows[k]),
            content == exists|k: int| 0 <= k < i && is_target_content_attr(#[trigger] rows[k]),
        decreases attrs.len() - i,
    {
        let row = &attrs[i];
        let ghost rv = rows[i as int];
        assert(rv == row@.map_values(|s: String| s@));
        let name = capture_group(row, 1);
        let value = capture_group(row, 2);
        let folded = lowercase(value.as_str());
        let flags = attribute_flags(name.as_str(), value.as_str(), folded.as_str());
        assert(flags.0 == is_refresh_attr(rv));
        assert(flags.1 == is_target_content_attr(rv));
        http_equiv = http_equiv || flags.0;
        content = content || flags.1;
        i = i + 1;
    }
    http_equiv && content
}

/// The body stage on a body text.
pub fn classify_html(body: &str) -> (r: Option<HomoServiceStatus>)
    ensures
        r == html_status(body@),
{
    let metas = regex_captures("<meta\\s+([^>]+)\\s*>", body);
    let ghost rows = regex_captures_of(meta_pattern(), body@);
    let mut i: usize = 0;
    while i < metas.len()
        invariant
            i <= metas.len(),
            rows == crate::matching::string_rows(metas@),
            rows == regex_captures_of(meta_pattern(), body@),
            forall|k: int| 0 <= k < i ==> !meta_redirects(meta_attrs(#[trigger] rows[k])),
        decreases metas.len() - i,
    {
        assert(rows[i as int] == metas@[i as int]@.map_values(|s: String| s@));
        if meta_text_redirects(&metas[i]) {
            assert(0 <= i < rows.len() && meta_redirects(meta_attrs(rows[i as int])));
            assert(exists|k: int|
                0 <= k < rows.len() && meta_redirects(meta_attrs(#[trigger] rows[k])));
            return Some(HomoServiceStatus::RedirectContent);
        }
        i = i + 1;
    }
    let bc = chars_of(body);
    let target = chars_of("https://twitter.com/mpyw");
    if contains_chars(bc.as_slice(), target.as_slice()) {
        Some(HomoServiceStatus::LinkContent)
    } else {
        None
    }
}

impl ValidateResponse for ResponseHtmlValidator {
    open spec fn decision(response: &HttpResponse) -> Option<HomoServiceStatus> {
        html_status(response.body@)
    }

    fn validate(response: &HttpResponse) -> (r: Option<HomoServiceStatus>) {
        classify_html(response.body.as_str())
    }
}

/// The status of a probe from its response, or from its failure (`None`).
pub fn validate_status(response: Option<&HttpResponse>) -> (r: HomoServiceStatus)
    ensures
        r == probe_status(response),
{
    match response {
        None => HomoServiceStatus::Error,
        Some(resp) => match resp.validate::<ResponseHeaderValidator>() {
            Some(s) => s,
            None => match resp.validate::<ResponseHtmlValidator>() {
                Some(s) => s,
                None => HomoServiceStatus::Invalid,
            },
        },
    }
}

} // verus!
