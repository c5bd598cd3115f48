//! Service URLs: the parts of a parsed URL that the checker reads.
use vstd::prelude::*;
use crate::text::{concat_str, str_eq};

verus! {

/// The abstract host of a URL.
pub enum HostView {
    Domain(Seq<char>),
    Ipv4(Seq<char>),
    Ipv6(Seq<char>),
    Absent,
}

/// The abstract value of a `ServiceUrl`.
pub struct UrlView {
    pub href: Seq<char>,
    pub scheme: Seq<char>,
    pub host: HostView,
    pub path_onward: Seq<char>,
}

/// The host of a URL, as text.
#[derive(Debug, Clone)]
pub enum UrlHost {
    /// A domain name, in its ASCII form.
    Domain(String),
    /// An IPv4 address.
    Ipv4(String),
    /// An IPv6 address, without brackets.
    Ipv6(String),
    /// No host at all.
    Absent,
}

/// A parsed URL.
#[derive(Debug, Clone)]
pub struct ServiceUrl {
    /// The serialized URL.
    pub href: String,
    /// The scheme, without `:`.
    pub scheme: String,
    /// The host.
    pub host: UrlHost,
    /// Everything from the path on: path, query and fragment.
    pub path_onward: String,
}

impl View for UrlHost {
    type V = HostView;

    open spec fn view(&self) -> HostView {
        match self {
            UrlHost::Domain(d) => HostView::Domain(d@),
            UrlHost::Ipv4(a) => HostView::Ipv4(a@),
            UrlHost::Ipv6(a) => HostView::Ipv6(a@),
            UrlHost::Absent => HostView::Absent,
        }
    }
}

impl View for ServiceUrl {
    type V = UrlView;

    open spec fn view(&self) -> UrlView {
        UrlView {
            href: self.href@,
            scheme: self.scheme@,
            host: self.host@,
            path_onward: self.path_onward@,
        }
    }
}

/// The URL that `url` parses `s` into, if it parses.
pub uninterp spec fn url_parse_of(s: Seq<char>) -> Option<UrlView>;

/// The Unicode form of an ASCII domain, as `idna` decodes it; none where
/// decoding reports an error.
pub uninterp spec fn unicode_domain_of(d: Seq<char>) -> Option<Seq<char>>;

/// Relies on `url::Url::parse`, read back through `Url::as_str`, `Url::scheme`,
/// `Url::host` and the slice from `Position::BeforePath`: the parts of the
/// parsed URL, or nothing where parsing fails.
#[verifier::external_body]
pub(crate) fn parse_url(s: &str) -> (r: Option<ServiceUrl>)
    ensures
        match r {
            Some(u) => url_parse_of(s@) == Some(u@),
            None => url_parse_of(s@) is None,
        },
{
    let u = ::url::Url::parse(s).ok()?;
    let host = match u.host() {
        Some(::url::Host::Domain(d)) => UrlHost::Domain(d.to_string()),
        Some(::url::Host::Ipv4(a)) => UrlHost::Ipv4(a.to_string()),
        Some(::url::Host::Ipv6(a)) => UrlHost::Ipv6(a.to_string()),
        None => UrlHost::Absent,
    };
    let path_onward = u[::url::Position::BeforePath..].to_string();
    Some(ServiceUrl { href: u.as_str().to_string(), scheme: u.scheme().to_string(), host, path_onward })
}

/// Relies on `idna::domain_to_unicode`: the decoded domain, or nothing where it
/// reports an error.
#[verifier::external_body]
fn unicode_domain(d: &str) -> (r: Option<String>)
    ensures
        match r {
            Some(u) => unicode_domain_of(d@) == Some(u@),
            None => unicode_domain_of(d@) is None,
        },
{
    let (decoded, result) = ::idna::domain_to_unicode(d);
    result.ok().map(|_| decoded)
}

/// The host shown for a URL: a domain in Unicode, an address as written.
pub open spec fn display_host(h: HostView) -> Option<Seq<char>> {
    match h {
        HostView::Domain(d) => unicode_domain_of(d),
        HostView::Ipv4(a) => Some(a),
        HostView::Ipv6(a) => Some(a),
        HostView::Absent => None,
    }
}

/// The display form of a URL: its host followed by its path onward, where a
/// bare `/` path is left out; none where there is no host or it cannot be
/// decoded.
pub open spec fn display_url_of(u: UrlView) -> Option<Seq<char>> {
    match display_host(u.host) {
        Some(h) => Some(
            if u.path_onward == "/"@ {
                h
            } else {
                h + u.path_onward
            },
        ),
        None => None,
    }
}

impl ServiceUrl {
    /// Parses a URL.
    pub fn parse(s: &str) -> (r: Option<ServiceUrl>)
        ensures
            match r {
                Some(u) => url_parse_of(s@) == Some(u@),
                None => url_parse_of(s@) is None,
            },
    {
        parse_url(s)
    }

    /// The host followed by the path, query and fragment, without a lone `/`.
    pub fn to_display_url(&self) -> (r: Option<String>)
        ensures
            match r {
                Some(t) => display_url_of(self@) == Some(t@),
                None => display_url_of(self@) is None,
            },
    {
        let host = match &self.host {
            UrlHost::Domain(d) => unicode_domain(d.as_str()),
            UrlHost::Ipv4(a) => Some(a.clone()),
            UrlHost::Ipv6(a) => Some(a.clone()),
            UrlHost::Absent => None,
        };
        match host {
            None => None,
            Some(h) => {
                if str_eq(self.path_onward.as_str(), "/") {
                    Some(h)
                } else {
                    Some(concat_str(h.as_str(), self.path_onward.as_str()))
                }
            },
        }
    }

    /// Whether the URL is served over HTTPS.
    pub fn is_secure(&self) -> (r: bool)
        ensures
            r == (self.scheme@ == "https"@),
    {
        str_eq(self.scheme.as_str(), "https")
    }

    /// A copy of this URL.
    pub fn duplicate(&self) -> (r: ServiceUrl)
        ensures
            r@ == self@,
    {
        ServiceUrl {
            href: self.href.clone(),
            scheme: self.scheme.clone(),
            host: match &self.host {
                UrlHost::Domain(d) => UrlHost::Domain(d.clone()),
                UrlHost::Ipv4(a) => UrlHost::Ipv4(a.clone()),
                UrlHost::Ipv6(a) => UrlHost::Ipv6(a.clone()),
                UrlHost::Absent => UrlHost::Absent,
            },
            path_onward: self.path_onward.clone(),
        }
    }
}

/// The most redirects a probe follows.
pub const MAX_REDIRECTS: usize = 10;

/// Whether a probe follows a redirect: only to the same host as the URL it
/// comes from, and only while fewer than `MAX_REDIRECTS` have been followed.
pub fn redirect_allowed(previous_host: Option<&str>, next_host: Option<&str>, followed: usize) -> (r:
    bool)
    ensures
        r == (followed < MAX_REDIRECTS && match (previous_host, next_host) {
            (Some(a), Some(b)) => a@ == b@,
            _ => false,
        }),
{
    if followed >= MAX_REDIRECTS {
        return false;
    }
    match (previous_host, next_host) {
        (Some(a), Some(b)) => str_eq(a, b),
        _ => false,
    }
}

} // verus!
