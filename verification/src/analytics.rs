//! Analytics: best-effort page-view capture around every request. The
//! decisions are verified here — when an event is captured, what it
//! contains, and that delivery failures are swallowed — while the
//! surrounding binary performs the actual delivery to the collector.

use crate::text::str_eq;
use crate::util::spec_is_success_or_redirect;
use crate::util::is_success_or_redirect;
use crate::web::{get_host, spec_opt_str_view, spec_resolve_host, HttpConfig};
use vstd::prelude::*;
use vstd::string::*;

verus! {

/// Connection settings for the external event collector.
pub struct CollectorConfig {
    pub endpoint: String,
    pub api_key: String,
}

/// The analytics component: holds collector settings when enabled, and
/// nothing otherwise. Disabled analytics capture nothing and cause no
/// outbound traffic.
pub struct Analytics {
    pub collector: Option<CollectorConfig>,
}

impl Analytics {
    /// Whether events are delivered at all.
    pub open spec fn spec_enabled(&self) -> bool {
        self.collector is Some
    }

    /// Whether events are delivered at all.
    pub fn is_enabled(&self) -> (b: bool)
        ensures
            b == self.spec_enabled(),
    {
        match &self.collector {
            Some(_) => true,
            None => false,
        }
    }
}

/// The one way analytics initialization fails loudly: enabled, an
/// endpoint configured, but no API key. Plain absence of the endpoint
/// is not an error — it simply leaves analytics off.
#[derive(Clone, Copy, PartialEq, Eq, Structural, Debug)]
pub enum AnalyticsInitError {
    MissingApiKey,
}

/// Decides the analytics configuration at startup: disabled unless
/// explicitly enabled and a collector endpoint is configured; enabled
/// without an API key is a misconfiguration and fails.
pub fn init(enable: bool, endpoint: Option<String>, api_key: Option<String>) -> (r: Result<
    Analytics,
    AnalyticsInitError,
>)
    ensures
        !enable ==> (r matches Ok(a) && !a.spec_enabled()),
        enable && endpoint is None ==> (r matches Ok(a) && !a.spec_enabled()),
        enable && endpoint is Some && api_key is None ==> (r matches Err(e) && e
            == AnalyticsInitError::MissingApiKey),
        enable ==> (endpoint matches Some(u) ==> (api_key matches Some(k) ==> (r matches Ok(a)
            && a.collector matches Some(c) && c.endpoint == u && c.api_key == k))),
{
    if !enable {
        return Ok(Analytics { collector: None });
    }
    let u = match endpoint {
        Some(u) => u,
        None => {
            return Ok(Analytics { collector: None });
        },
    };
    match api_key {
        Some(k) => Ok(
            Analytics { collector: Some(CollectorConfig { endpoint: u, api_key: k }) },
        ),
        None => Err(AnalyticsInitError::MissingApiKey),
    }
}

/// What the middleware reads off the inbound request before the
/// handler runs.
pub struct RequestContext {
    pub scheme: Option<String>,
    pub host: Option<String>,
    pub path: String,
    pub user_agent: Option<String>,
}

/// An anonymous page-view record, handed to the collector and then
/// discarded.
pub struct AnalyticsEvent {
    pub current_url: String,
    pub host: Option<String>,
    pub path: String,
    pub status: u16,
    pub success: bool,
    pub user_agent: Option<String>,
}

/// The scheme reported in the event's URL: the inbound one, with
/// `http` standing in when it is unknown.
pub open spec fn spec_scheme_str(scheme: Option<Seq<char>>) -> Seq<char> {
    match scheme {
        Some(s) => s,
        None => "http"@,
    }
}

/// The host written into the event's URL: the resolved analytics host,
/// with `localhost` standing in when nothing could be determined.
pub open spec fn spec_url_host(host: Option<Seq<char>>, frontend: Option<Seq<char>>) -> Seq<char> {
    match spec_resolve_host(host, frontend) {
        Some(h) => h,
        None => "localhost"@,
    }
}

/// The full URL attributed to the request: scheme, resolved host, and
/// path.
pub open spec fn spec_current_url(
    scheme: Option<Seq<char>>,
    host: Option<Seq<char>>,
    frontend: Option<Seq<char>>,
    path: Seq<char>,
) -> Seq<char> {
    spec_scheme_str(scheme) + "://"@ + spec_url_host(host, frontend) + path
}

/// Builds the URL attributed to the request.
pub fn full_url(scheme: &Option<String>, host: &Option<String>, cfg: &HttpConfig, path: &str) -> (s:
    String)
    ensures
        s@ == spec_current_url(
            spec_opt_str_view(*scheme),
            spec_opt_str_view(*host),
            spec_opt_str_view(cfg.frontend_url),
            path@,
        ),
{
    let mut s = match scheme {
        Some(sch) => sch.clone(),
        None => String::from_str("http"),
    };
    s.append("://");
    let host_owned: Option<String> = match host {
        Some(h) => Some(h.clone()),
        None => None,
    };
    let resolved = get_host(host_owned, cfg);
    match resolved {
        Some(h) => s.append(h.as_str()),
        None => s.append("localhost"),
    }
    s.append(path);
    s
}

/// The fields the event for a request must carry: the attributed URL,
/// the raw inbound host, the path, the response status with its
/// success flag, and the user agent as sent.
pub open spec fn spec_event_for(
    e: AnalyticsEvent,
    cfg: HttpConfig,
    ctx: RequestContext,
    status: u16,
) -> bool {
    &&& e.current_url@ == spec_current_url(
        spec_opt_str_view(ctx.scheme),
        spec_opt_str_view(ctx.host),
        spec_opt_str_view(cfg.frontend_url),
        ctx.path@,
    )
    &&& spec_opt_str_view(e.host) == spec_opt_str_view(ctx.host)
    &&& e.path@ == ctx.path@
    &&& e.status == status
    &&& e.success == spec_is_success_or_redirect(status)
    &&& spec_opt_str_view(e.user_agent) == spec_opt_str_view(ctx.user_agent)
}

/// Builds the page-view event for a request once its response status
/// is known.
pub fn build_event(cfg: &HttpConfig, ctx: &RequestContext, status: u16) -> (e: AnalyticsEvent)
    ensures
        spec_event_for(e, *cfg, *ctx, status),
{
    let current_url = full_url(&ctx.scheme, &ctx.host, cfg, ctx.path.as_str());
    let host = match &ctx.host {
        Some(h) => Some(h.clone()),
        None => None,
    };
    let user_agent = match &ctx.user_agent {
        Some(u) => Some(u.clone()),
        None => None,
    };
    AnalyticsEvent {
        current_url,
        host,
        path: ctx.path.clone(),
        status,
        success: is_success_or_redirect(status),
        user_agent,
    }
}

/// Paths excluded from capture: the health check and the redirect
/// root, matched exactly.
pub open spec fn spec_is_ignored_path(path: Seq<char>) -> bool {
    path == "/health"@ || path == "/"@
}

/// Whether a path is excluded from capture.
pub fn is_ignored_path(path: &str) -> (b: bool)
    ensures
        b == spec_is_ignored_path(path@),
{
    str_eq(path, "/health") || str_eq(path, "/")
}

/// Decides, once the handler's response status is known, whether an
/// event is captured for this request and with what contents. Requests
/// to excluded paths never yield an event, disabled analytics never
/// yield one, and the decision leaves the response itself untouched.
pub fn plan_capture(analytics: &Analytics, cfg: &HttpConfig, ctx: &RequestContext, status: u16) -> (r:
    Option<AnalyticsEvent>)
    ensures
        !analytics.spec_enabled() ==> r is None,
        spec_is_ignored_path(ctx.path@) ==> r is None,
        analytics.spec_enabled() && !spec_is_ignored_path(ctx.path@) ==> (r matches Some(e)
            && spec_event_for(e, *cfg, *ctx, status)),
{
    if !analytics.is_enabled() {
        return None;
    }
    if is_ignored_path(ctx.path.as_str()) {
        return None;
    }
    Some(build_event(cfg, ctx, status))
}

/// Resolves a finished capture attempt: a delivery failure becomes at
/// most a log line and never reaches the response path, so a collector
/// outage cannot degrade the redirect service.
pub fn swallow_capture_failure(delivery: Result<(), String>) -> (log_line: Option<String>)
    ensures
        delivery is Ok ==> log_line is None,
        delivery matches Err(d) ==> (log_line matches Some(l) && l@ == "unable to capture event: "@
            + d@),
{
    match delivery {
        Ok(()) => None,
        Err(d) => {
            let mut s = String::from_str("unable to capture event: ");
            s.append(d.as_str());
            Some(s)
        },
    }
}

} // verus!
