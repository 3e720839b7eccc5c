//! Transport security decisions: redirecting plain HTTP to HTTPS, and the headers every
//! response carries.
use vstd::prelude::*;
use crate::utils::str_eq;

verus! {

/// Whether a request arrived over HTTPS: by the `x-forwarded-proto` header when a proxy set it,
/// else by the request's own scheme.
pub open spec fn arrived_over_https(forwarded_proto: Option<String>, scheme: Option<String>) -> bool {
    match forwarded_proto {
        Some(p) => p@ == "https"@,
        None => match scheme {
            Some(s) => s@ == "https"@,
            None => false,
        },
    }
}

/// Where to redirect a request, if anywhere: when HTTPS is enforced and the request did not
/// arrive over it, to `https://` followed by its host (`localhost` when absent) and its path
/// and query.
pub fn https_redirect_target(
    force_https: bool,
    forwarded_proto: Option<String>,
    scheme: Option<String>,
    host: Option<String>,
    path_and_query: &str,
) -> (r: Option<String>)
    ensures
        r is None <==> (!force_https || arrived_over_https(forwarded_proto, scheme)),
        r matches Some(u) ==> u@ == "https://"@ + (match host {
            Some(h) => h@,
            None => "localhost"@,
        }) + path_and_query@,
{
    if !force_https {
        return None;
    }
    let secure = match &forwarded_proto {
        Some(p) => str_eq(p.as_str(), "https"),
        None => match &scheme {
            Some(s) => str_eq(s.as_str(), "https"),
            None => false,
        },
    };
    if secure {
        return None;
    }
    let mut url = String::from_str("https://");
    match &host {
        Some(h) => url.append(h.as_str()),
        None => url.append("localhost"),
    }
    url.append(path_and_query);
    Some(url)
}

/// The security headers added to every response, as (name, value) pairs.
pub fn security_headers() -> (r: Vec<(&'static str, &'static str)>)
    ensures
        r@.len() == 6,
        r@[0].0@ == "strict-transport-security"@ && r@[0].1@ == "max-age=31536000; includeSubDomains"@,
        r@[1].0@ == "x-content-type-options"@ && r@[1].1@ == "nosniff"@,
        r@[2].0@ == "x-frame-options"@ && r@[2].1@ == "DENY"@,
        r@[3].0@ == "x-xss-protection"@ && r@[3].1@ == "1; mode=block"@,
        r@[4].0@ == "referrer-policy"@ && r@[4].1@ == "strict-origin-when-cross-origin"@,
        r@[5].0@ == "content-security-policy"@ && r@[5].1@ == "default-src 'self'; script-src 'self' 'unsafe-inline' 'unsafe-eval' https://unpkg.com https://cdnjs.cloudflare.com; style-src 'self' 'unsafe-inline' https://fonts.googleapis.com; font-src 'self' https://fonts.gstatic.com; img-src 'self' data:; connect-src 'self'"@,
{
    let mut r: Vec<(&'static str, &'static str)> = Vec::new();
    r.push(("strict-transport-security", "max-age=31536000; includeSubDomains"));
    r.push(("x-content-type-options", "nosniff"));
    r.push(("x-frame-options", "DENY"));
    r.push(("x-xss-protection", "1; mode=block"));
    r.push(("referrer-policy", "strict-origin-when-cross-origin"));
    r.push(("content-security-policy", "default-src 'self'; script-src 'self' 'unsafe-inline' 'unsafe-eval' https://unpkg.com https://cdnjs.cloudflare.com; style-src 'self' 'unsafe-inline' https://fonts.googleapis.com; font-src 'self' https://fonts.gstatic.com; img-src 'self' data:; connect-src 'self'"));
    r
}

} // verus!
