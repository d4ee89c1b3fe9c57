//! Proxy descriptors. A descriptor is constructed from a URL with a
//! supported scheme; an unsupported or malformed URL is rejected at
//! construction time, before any mutation is attempted.

use vstd::prelude::*;
use vstd::string::StrSliceExecFns;
use crate::strutil::{str_starts_with, spec_starts_with};
use crate::error::Error;

verus! {

/// The connection schemes a proxy descriptor may use.
#[derive(Clone, Copy, Debug, PartialEq, Eq, Structural)]
pub enum ProxyScheme {
    Http,
    Https,
    Socks5,
    Socks5h,
}

/// A proxy descriptor: a supported scheme and a non-empty target.
#[derive(Clone, Debug, PartialEq, Eq)]
pub struct Proxy {
    pub scheme: ProxyScheme,
    pub target: String,
}

impl View for Proxy {
    type V = (ProxyScheme, Seq<char>);

    open spec fn view(&self) -> (ProxyScheme, Seq<char>) {
        (self.scheme, self.target@)
    }
}

/// Which descriptor, if any, a URL denotes: one of the four supported
/// scheme prefixes followed by a non-empty target.
pub open spec fn spec_parse_proxy(s: Seq<char>) -> Option<(ProxyScheme, Seq<char>)> {
    if spec_starts_with(s, "http://"@) && s.len() > 7 {
        Some((ProxyScheme::Http, s.subrange(7, s.len() as int)))
    } else if spec_starts_with(s, "https://"@) && s.len() > 8 {
        Some((ProxyScheme::Https, s.subrange(8, s.len() as int)))
    } else if spec_starts_with(s, "socks5://"@) && s.len() > 9 {
        Some((ProxyScheme::Socks5, s.subrange(9, s.len() as int)))
    } else if spec_starts_with(s, "socks5h://"@) && s.len() > 10 {
        Some((ProxyScheme::Socks5h, s.subrange(10, s.len() as int)))
    } else {
        None
    }
}

impl Proxy {
    /// Build a descriptor from a URL; fails fast on an unsupported scheme
    /// or an empty target, before any mutation is attempted.
    pub fn parse(url: &str) -> (r: Result<Proxy, Error>)
        ensures
            spec_parse_proxy(url@) matches Some(pv) ==> r matches Ok(p) && p@ == pv,
            spec_parse_proxy(url@) is None ==> r == Err::<Proxy, Error>(Error::ProxyDescriptor),
    {
        let n = url.unicode_len();
        if str_starts_with(url, "http://") && n > 7 {
            Ok(Proxy { scheme: ProxyScheme::Http, target: tail_from(url, 7) })
        } else if str_starts_with(url, "https://") && n > 8 {
            Ok(Proxy { scheme: ProxyScheme::Https, target: tail_from(url, 8) })
        } else if str_starts_with(url, "socks5://") && n > 9 {
            Ok(Proxy { scheme: ProxyScheme::Socks5, target: tail_from(url, 9) })
        } else if str_starts_with(url, "socks5h://") && n > 10 {
            Ok(Proxy { scheme: ProxyScheme::Socks5h, target: tail_from(url, 10) })
        } else {
            Err(Error::ProxyDescriptor)
        }
    }
}

/// The characters of `url` from position `k` on.
fn tail_from(url: &str, k: usize) -> (t: String)
    requires
        k <= url@.len(),
    ensures
        t@ == url@.subrange(k as int, url@.len() as int),
{
    let n = url.unicode_len();
    url.substring_char(k, n).to_owned()
}

/// The view of each proxy in a list, in order.
pub open spec fn proxies_model(v: Seq<Proxy>) -> Seq<(ProxyScheme, Seq<char>)> {
    v.map(|i: int, p: Proxy| p@)
}

} // verus!
