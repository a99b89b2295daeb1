//! Inbound HTTP configuration and the host resolver: decides which
//! externally-visible host an analytics event should be attributed to,
//! falling back from the trusted host header through the configured
//! frontend URL.

use crate::text::{spec_starts_with, str_starts_with};
use vstd::prelude::*;
use vstd::string::*;

pub mod files;
pub mod projects;

verus! {

/// Process-wide HTTP settings, read once at startup and shared
/// read-only afterwards: the name of the header trusted for the inbound
/// host, and an optional static frontend URL used as a fallback host.
pub struct HttpConfig {
    pub host_header_name: String,
    pub frontend_url: Option<String>,
}

/// The configured host header name, or the standard `host` header when
/// none is configured.
pub fn resolve_host_header_name(configured: Option<String>) -> (r: String)
    ensures
        match configured {
            Some(n) => r@ == n@,
            None => r@ == "host"@,
        },
{
    match configured {
        Some(n) => n,
        None => String::from_str("host"),
    }
}

/// The characters of `s` past a leading `http://` or `https://` scheme
/// prefix; `s` itself when no scheme prefix is present.
pub open spec fn spec_after_scheme(s: Seq<char>) -> Seq<char> {
    if spec_starts_with(s, "http://"@) {
        s.skip("http://"@.len() as int)
    } else if spec_starts_with(s, "https://"@) {
        s.skip("https://"@.len() as int)
    } else {
        s
    }
}

/// A loopback or local-development host value: `localhost` or
/// `127.0.0.1`, optionally preceded by a scheme prefix.
pub open spec fn spec_is_loopback_host(s: Seq<char>) -> bool {
    spec_starts_with(spec_after_scheme(s), "localhost"@) || spec_starts_with(
        spec_after_scheme(s),
        "127.0.0.1"@,
    )
}

/// Whether a host value names local or loopback traffic.
pub fn is_loopback_host(s: &str) -> (b: bool)
    ensures
        b == spec_is_loopback_host(s@),
{
    proof {
        reveal_strlit("http://");
        reveal_strlit("https://");
    }
    let n = s.unicode_len();
    let rest: &str = if str_starts_with(s, "http://") {
        s.substring_char(7, n)
    } else if str_starts_with(s, "https://") {
        s.substring_char(8, n)
    } else {
        s
    };
    proof {
        assert(rest@ =~= spec_after_scheme(s@));
    }
    str_starts_with(rest, "localhost") || str_starts_with(rest, "127.0.0.1")
}

/// The views of an optional owned string.
pub open spec fn spec_opt_str_view(o: Option<String>) -> Option<Seq<char>> {
    match o {
        Some(s) => Some(s@),
        None => None,
    }
}

/// The resolved analytics host: the inbound host header value, unless it
/// is absent or looks like loopback traffic, in which case the
/// configured frontend URL takes its place when one exists; with no
/// header and no frontend URL nothing can be determined. A loopback
/// value without a configured fallback is retained as it came.
pub open spec fn spec_resolve_host(
    host: Option<Seq<char>>,
    frontend: Option<Seq<char>>,
) -> Option<Seq<char>> {
    match host {
        None => frontend,
        Some(h) => if spec_is_loopback_host(h) {
            match frontend {
                Some(f) => Some(f),
                None => Some(h),
            }
        } else {
            Some(h)
        },
    }
}

/// Resolves the externally-visible host for analytics attribution from
/// the inbound trusted header value and the static configuration.
pub fn get_host(host_header: Option<String>, cfg: &HttpConfig) -> (r: Option<String>)
    ensures
        spec_opt_str_view(r) == spec_resolve_host(
            spec_opt_str_view(host_header),
            spec_opt_str_view(cfg.frontend_url),
        ),
{
    match host_header {
        None => match &cfg.frontend_url {
            Some(f) => Some(f.clone()),
            None => None,
        },
        Some(h) => {
            if is_loopback_host(h.as_str()) {
                match &cfg.frontend_url {
                    Some(f) => Some(f.clone()),
                    None => Some(h),
                }
            } else {
                Some(h)
            }
        },
    }
}

/// Redirect target for the root route: the mod directory's home page.
pub fn home_redirect_target() -> (s: String)
    ensures
        s@ == "https://www.curseforge.com"@,
{
    String::from_str("https://www.curseforge.com")
}

} // verus!
