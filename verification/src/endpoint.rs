//! The parts of an endpoint URL.
use vstd::prelude::*;
use vstd::string::StringExecFns;

use crate::text;
use crate::text::str_eq;

verus! {

/// The parts of a URL that tell where it leads.
#[derive(Debug, PartialEq, Eq)]
pub struct UrlParts {
    pub scheme: String,
    pub host: Option<String>,
    pub port: Option<u16>,
}

/// What a [`UrlParts`] is.
pub struct UrlPartsView {
    pub scheme: Seq<char>,
    pub host: Option<Seq<char>>,
    pub port: Option<u16>,
}

impl View for UrlParts {
    type V = UrlPartsView;

    open spec fn view(&self) -> UrlPartsView {
        UrlPartsView { scheme: self.scheme@, host: self.host.deep_view(), port: self.port }
    }
}

/// The parts of the URL that `url::Url::parse` reads from a text; nothing
/// where it fails. The port is left out where it is the default of the scheme.
pub uninterp spec fn url_parts(text: Seq<char>) -> Option<UrlPartsView>;

/// `url::Url::parse`, with the `scheme`, `host_str` and `port` of the URL.
#[verifier::external_body]
fn parse_url(text: &str) -> (r: Option<UrlParts>)
    ensures
        match r {
            Some(parts) => url_parts(text@) == Some(parts@),
            None => url_parts(text@) is None,
        },
{
    let url = url::Url::parse(text).ok()?;
    Some(
        UrlParts {
            scheme: url.scheme().to_string(),
            host: url.host_str().map(|host| host.to_string()),
            port: url.port(),
        },
    )
}

/// Does a host name stand for this machine? A URL writes an IPv6 address in
/// brackets.
pub open spec fn names_this_machine(host: Seq<char>) -> bool {
    ||| host == "localhost"@
    ||| host == "127.0.0.1"@
    ||| host == "::1"@
    ||| host == "[::1]"@
    ||| host == "0.0.0.0"@
}

/// Whether an endpoint with these parts is local; unknown without a host.
pub open spec fn parts_are_local(parts: Option<UrlPartsView>) -> Option<bool> {
    match parts {
        Some(p) => match p.host {
            Some(host) => Some(names_this_machine(host)),
            None => None,
        },
        None => None,
    }
}

/// Whether an endpoint is local; unknown where the text is no URL with a host.
pub open spec fn local_only_of(base_url: Seq<char>) -> Option<bool> {
    parts_are_local(url_parts(base_url))
}

/// The value of optional URL parts.
pub open spec fn opt_parts(parts: Option<UrlParts>) -> Option<UrlPartsView> {
    match parts {
        Some(p) => Some(p@),
        None => None,
    }
}

/// Whether an endpoint with these parts is local.
pub fn local_only_of_parts(parts: &Option<UrlParts>) -> (r: Option<bool>)
    ensures
        r == parts_are_local(opt_parts(*parts)),
{
    match parts {
        Some(p) => match &p.host {
            Some(host) => {
                let host = host.as_str();
                Some(
                    str_eq(host, "localhost") || str_eq(host, "127.0.0.1") || str_eq(host, "::1") || str_eq(
                        host,
                        "[::1]",
                    ) || str_eq(host, "0.0.0.0"),
                )
            },
            None => None,
        },
        None => None,
    }
}

/// Whether an endpoint is local: its host is one of the names of this machine.
pub fn infer_local_only(base_url: &str) -> (r: Option<bool>)
    ensures
        r == local_only_of(base_url@),
{
    local_only_of_parts(&parse_url(base_url))
}

/// The origin of an endpoint: scheme, host, and port where it is not the
/// default. Without a host, the endpoint itself.
pub open spec fn origin_of_parts(base_url: Seq<char>, parts: Option<UrlPartsView>) -> Seq<char> {
    match parts {
        Some(p) => match p.host {
            Some(host) => p.scheme + "://"@ + host + port_suffix(p.port),
            None => base_url,
        },
        None => base_url,
    }
}

/// A colon and the port, if there is one.
pub open spec fn port_suffix(port: Option<u16>) -> Seq<char> {
    match port {
        Some(n) => seq![':'] + text::decimal(n as nat),
        None => Seq::empty(),
    }
}

/// The origin of an endpoint with these parts.
pub fn endpoint_origin_of_parts(base_url: &str, parts: &Option<UrlParts>) -> (r: String)
    ensures
        r@ == origin_of_parts(base_url@, opt_parts(*parts)),
{
    match parts {
        Some(p) => match &p.host {
            Some(host) => {
                let mut origin = p.scheme.clone();
                origin.append("://");
                origin.append(host.as_str());
                match p.port {
                    Some(n) => {
                        origin.push(':');
                        origin.append(text::decimal_text(n as u64).as_str());
                    },
                    None => {},
                }
                proof {
                    assert(origin@ =~= p.scheme@ + "://"@ + host@ + port_suffix(p.port));
                }
                origin
            },
            None => base_url.to_string(),
        },
        None => base_url.to_string(),
    }
}

/// The origin of an endpoint.
pub fn endpoint_origin(base_url: &str) -> (r: String)
    ensures
        r@ == origin_of_parts(base_url@, url_parts(base_url@)),
{
    let parts = parse_url(base_url);
    endpoint_origin_of_parts(base_url, &parts)
}

/// An endpoint is local where its host is a name or an address of this machine,
/// and is not where it is any other; without a host nothing is known. Its origin
/// is its scheme, its host, and its port where it has one of its own.
pub proof fn law_endpoints_are_told_by_their_host(base_url: Seq<char>, parts: UrlPartsView, host: Seq<char>, port: u16)
    requires
        url_parts(base_url) == Some(parts),
    ensures
        parts.host == Some(host) ==> local_only_of(base_url) == Some(
            seq!["localhost"@, "127.0.0.1"@, "::1"@, "[::1]"@, "0.0.0.0"@].contains(host),
        ),
        parts.host is None ==> local_only_of(base_url) is None && origin_of_parts(base_url, Some(parts)) == base_url,
        parts.host == Some(host) && parts.port is None ==> origin_of_parts(base_url, Some(parts)) == parts.scheme
            + "://"@ + host,
        parts.host == Some(host) && parts.port == Some(port) ==> origin_of_parts(base_url, Some(parts)) == parts.scheme
            + "://"@ + host + ":"@ + text::decimal(port as nat),
{
    let names = seq!["localhost"@, "127.0.0.1"@, "::1"@, "[::1]"@, "0.0.0.0"@];
    assert(names[0] == "localhost"@ && names[1] == "127.0.0.1"@ && names[2] == "::1"@ && names[3] == "[::1]"@
        && names[4] == "0.0.0.0"@);
    if names.contains(host) {
        let i = choose|i: int| 0 <= i < names.len() && names[i] == host;
        assert(i == 0 || i == 1 || i == 2 || i == 3 || i == 4);
    }
    reveal_strlit(":");
    assert(":"@ =~= seq![':']);
    if parts.host == Some(host) {
        let lead = parts.scheme + "://"@ + host;
        assert(lead + Seq::empty() =~= lead);
        assert(lead + (seq![':'] + text::decimal(port as nat)) =~= lead + ":"@ + text::decimal(port as nat));
    }
}

} // verus!
