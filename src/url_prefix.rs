//! The base URL of download links: given on the command line, or derived from
//! the address that the server binds.
use vstd::prelude::*;
use vstd::string::*;

use crate::document::opt_view;
use crate::error::ServerError;
use crate::text::{decimal, decimal_text};

verus! {

/// The IP address that the server binds.
#[derive(Clone, Copy, Debug, PartialEq, Eq, Structural)]
pub enum BindAddress {
    /// An IPv4 address, by its four octets.
    V4(u8, u8, u8, u8),
    /// An IPv6 address, which download links cannot be derived from.
    V6,
}

/// The dotted notation of an IPv4 address.
pub open spec fn dotted_quad(a: u8, b: u8, c: u8, d: u8) -> Seq<char> {
    decimal(a as nat) + "."@ + decimal(b as nat) + "."@ + decimal(c as nat) + "."@ + decimal(
        d as nat,
    )
}

/// The base URL derived from the bind address: the wildcard address is reached
/// through the loopback name, any other IPv4 address literally, and an IPv6
/// address not at all.
pub open spec fn derived_prefix(bind: BindAddress, port: u16) -> Option<Seq<char>> {
    match bind {
        BindAddress::V6 => None,
        BindAddress::V4(a, b, c, d) => if a == 0 && b == 0 && c == 0 && d == 0 {
            Some("http://localhost:"@ + decimal(port as nat))
        } else {
            Some("http://"@ + dotted_quad(a, b, c, d) + ":"@ + decimal(port as nat))
        },
    }
}

/// The text parsed as the base URL: the configured one if any, else the one
/// derived from the bind address (none for an IPv6 address).
pub open spec fn prefix_text(explicit: Option<Seq<char>>, bind: BindAddress, port: u16) -> Option<
    Seq<char>,
> {
    match explicit {
        Some(e) => Some(e),
        None => derived_prefix(bind, port),
    }
}

/// The message of the refusal of an IPv6 bind address.
pub open spec fn ipv6_message() -> Seq<char> {
    "ipv6 is not supported"@
}

/// The text to parse as the base URL: the configured one if any, else the one
/// derived from the bind address.
pub fn prefix_source(explicit: &Option<String>, bind: BindAddress, port: u16) -> (r: Result<
    String,
    ServerError,
>)
    ensures
        match prefix_text(opt_view(*explicit), bind, port) {
            Some(t) => r matches Ok(s) && s@ == t,
            None => r matches Err(ServerError::Operation(m)) && m@ == ipv6_message(),
        },
{
    match explicit {
        Some(e) => Ok(e.clone()),
        None => match bind {
            BindAddress::V6 => Err(ServerError::Operation(String::from_str("ipv6 is not supported"))),
            BindAddress::V4(a, b, c, d) => {
                let port_text = decimal_text(port as u64);
                if a == 0 && b == 0 && c == 0 && d == 0 {
                    Ok(String::from_str("http://localhost:").concat(port_text.as_str()))
                } else {
                    let host = String::from_str("http://").concat(decimal_text(a as u64).as_str()).concat(
                        ".",
                    ).concat(decimal_text(b as u64).as_str()).concat(".").concat(
                        decimal_text(c as u64).as_str(),
                    ).concat(".").concat(decimal_text(d as u64).as_str());
                    Ok(host.concat(":").concat(port_text.as_str()))
                }
            },
        },
    }
}

/// The parts of the base URL that download links are built from.
pub struct DownloadUrlPrefix {
    pub scheme: String,
    pub host: String,
    pub port: Option<u16>,
}

/// The mathematical value of a base URL.
pub struct PrefixView {
    pub scheme: Seq<char>,
    pub host: Seq<char>,
    pub port: Option<u16>,
}

impl View for DownloadUrlPrefix {
    type V = PrefixView;

    open spec fn view(&self) -> PrefixView {
        PrefixView { scheme: self.scheme@, host: self.host@, port: self.port }
    }
}

/// The host and, when one is given, the port of a base URL.
pub open spec fn authority(p: PrefixView) -> Seq<char> {
    match p.port {
        Some(n) => p.host + ":"@ + decimal(n as nat),
        None => p.host,
    }
}

/// The link from which an index's archive is downloaded.
pub open spec fn download_link(p: PrefixView, index_name: Seq<char>) -> Seq<char> {
    p.scheme + "://"@ + authority(p) + "/v1/files/download/"@ + index_name
}

/// The link from which the archive of the named index is downloaded.
pub fn download_url(prefix: &DownloadUrlPrefix, index_name: &str) -> (r: String)
    ensures
        r@ == download_link(prefix@, index_name@),
{
    let host = match prefix.port {
        Some(n) => prefix.host.clone().concat(":").concat(decimal_text(n as u64).as_str()),
        None => prefix.host.clone(),
    };
    prefix.scheme.clone().concat("://").concat(host.as_str()).concat("/v1/files/download/").concat(
        index_name,
    )
}

/// The scheme, host and port of a URL, when the text parses as one.
pub uninterp spec fn url_parts(s: Seq<char>) -> Option<(Seq<char>, Option<Seq<char>>, Option<u16>)>;

/// Relies on `url::Url::parse`, and on `Url::scheme`, `Url::host_str` and
/// `Url::port` of the parsed URL (the port only when it is not the scheme's
/// default); when the text does not parse, the text of the `ParseError`.
#[verifier::external_body]
fn parse_url_parts(s: &str) -> (r: Result<(String, Option<String>, Option<u16>), String>)
    ensures
        r is Ok <==> url_parts(s@) is Some,
        r matches Ok(p) ==> url_parts(s@) == Some((p.0@, opt_view(p.1), p.2)),
{
    match url::Url::parse(s) {
        Ok(u) => Ok((u.scheme().to_string(), u.host_str().map(|h| h.to_string()), u.port())),
        Err(e) => Err(e.to_string()),
    }
}

/// Resolves the base URL of download links, once, at start-up.
///
/// A configured base URL that does not parse, or has no host, is an argument
/// error; an IPv6 bind address without a configured base URL is refused.
pub fn resolve_download_url_prefix(
    explicit: &Option<String>,
    bind: BindAddress,
    port: u16,
) -> (r: Result<DownloadUrlPrefix, ServerError>)
    ensures
        prefix_text(opt_view(*explicit), bind, port) is None ==> (r matches Err(
            ServerError::Operation(m),
        ) && m@ == ipv6_message()),
        prefix_text(opt_view(*explicit), bind, port) matches Some(t) ==> match url_parts(t) {
            Some((scheme, Some(host), p)) => r matches Ok(x) && x@ == PrefixView {
                scheme,
                host,
                port: p,
            },
            _ => if explicit is Some {
                r matches Err(ServerError::ArgumentError(_))
            } else {
                r matches Err(ServerError::Operation(_))
            },
        },
{
    let source = match prefix_source(explicit, bind, port) {
        Ok(s) => s,
        Err(e) => {
            return Err(e);
        },
    };
    let (scheme, host, url_port) = match parse_url_parts(source.as_str()) {
        Ok(parts) => parts,
        Err(e) => {
            let message = String::from_str("Failed to parse `download_url_prefix` CLI option: ").concat(
                e.as_str(),
            );
            return if explicit.is_some() {
                Err(ServerError::ArgumentError(message))
            } else {
                Err(ServerError::Operation(message))
            };
        },
    };
    match host {
        Some(h) => Ok(DownloadUrlPrefix { scheme, host: h, port: url_port }),
        None => {
            let message = String::from_str("`download_url_prefix` has no host: ").concat(
                source.as_str(),
            );
            if explicit.is_some() {
                Err(ServerError::ArgumentError(message))
            } else {
                Err(ServerError::Operation(message))
            }
        },
    }
}

} // verus!
