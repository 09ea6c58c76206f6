//! The headers of a REST request. A bot sends only its authorization; a
//! user client, and a client without a session, also describe the browser
//! they pretend to be and the request's properties.

use vstd::prelude::*;
use crate::auth::Authentication;
use crate::properties::{referer_value, RequestProperties};
use crate::text::copy_str;

verus! {

/// The plain view of a list of headers.
pub open spec fn headers_v(h: Seq<(String, String)>) -> Seq<(Seq<char>, Seq<char>)> {
    h.map_values(|p: (String, String)| (p.0@, p.1@))
}

/// The headers that a request's properties add, in order: the page, the
/// context, then the captcha's answer.
pub open spec fn property_headers(props: Option<RequestProperties>) -> Seq<(Seq<char>, Seq<char>)> {
    match props {
        None => Seq::empty(),
        Some(p) => {
            let with_referer = match p.referer {
                Some(r) => Seq::empty().push(("Referer"@, referer_value(r))),
                None => Seq::empty(),
            };
            let with_context = match p.context {
                Some(c) => with_referer.push(("X-Context-Properties"@, c.header_value@)),
                None => with_referer,
            };
            match p.solved_captcha {
                Some(s) => with_context + headers_v(s.headers@),
                None => with_context,
            }
        },
    }
}

/// The headers that describe the pretended browser.
pub open spec fn browser_headers(
    locale: Seq<char>,
    timezone: Seq<char>,
    super_properties: Seq<char>,
) -> Seq<(Seq<char>, Seq<char>)> {
    Seq::empty().push(("X-Debug-Options"@, "bugReporterEnabled"@)).push(
        ("X-Discord-Locale"@, locale),
    ).push(("X-Discord-Timezone"@, timezone)).push(("X-Super-Properties"@, super_properties))
}

/// The headers of a request of a user or bot client.
pub open spec fn rest_headers_spec(
    authentication: Authentication,
    authorization: Seq<char>,
    locale: Seq<char>,
    timezone: Seq<char>,
    super_properties: Seq<char>,
    props: Option<RequestProperties>,
) -> Seq<(Seq<char>, Seq<char>)> {
    let auth = Seq::empty().push(("Authorization"@, authorization));
    if authentication == Authentication::Bot {
        auth
    } else {
        auth + browser_headers(locale, timezone, super_properties) + property_headers(props)
    }
}

/// The headers of a request of a client without a session.
pub open spec fn sessionless_headers_spec(
    locale: Seq<char>,
    timezone: Seq<char>,
    super_properties: Seq<char>,
    fingerprint: Option<Seq<char>>,
    props: Option<RequestProperties>,
) -> Seq<(Seq<char>, Seq<char>)> {
    let base = browser_headers(locale, timezone, super_properties);
    let with_fingerprint = match fingerprint {
        Some(f) => base.push(("X-Fingerprint"@, f)),
        None => base,
    };
    with_fingerprint + property_headers(props)
}

/// Adds the header `name: value`.
pub fn push_header(h: &mut Vec<(String, String)>, name: &str, value: &str)
    ensures
        headers_v(final(h)@) == headers_v(old(h)@).push((name@, value@)),
{
    h.push((copy_str(name), copy_str(value)));
    assert(headers_v(h@) =~= headers_v(old(h)@).push((name@, value@)));
}

/// Adds the headers of a request's properties.
pub fn push_property_headers(h: &mut Vec<(String, String)>, props: &Option<RequestProperties>)
    ensures
        headers_v(final(h)@) == headers_v(old(h)@) + property_headers(*props),
{
    let ghost start = headers_v(h@);
    match props {
        None => {
            assert(headers_v(h@) =~= start + Seq::<(Seq<char>, Seq<char>)>::empty());
        },
        Some(p) => {
            match p.referer {
                Some(r) => {
                    let v = r.header_value();
                    push_header(h, "Referer", v.as_str());
                },
                None => {},
            }
            match &p.context {
                Some(c) => push_header(h, "X-Context-Properties", c.header_value.as_str()),
                None => {},
            }
            let ghost mid = headers_v(h@);
            match &p.solved_captcha {
                Some(s) => {
                    let mut i: usize = 0;
                    while i < s.headers.len()
                        invariant
                            i <= s.headers@.len(),
                            headers_v(h@) == mid + headers_v(s.headers@.subrange(0, i as int)),
                        decreases s.headers@.len() - i,
                    {
                        push_header(h, s.headers[i].0.as_str(), s.headers[i].1.as_str());
                        i = i + 1;
                        assert(headers_v(s.headers@.subrange(0, i as int)) =~= headers_v(
                            s.headers@.subrange(0, i - 1),
                        ).push((s.headers@[i - 1].0@, s.headers@[i - 1].1@)));
                        assert(headers_v(h@) =~= mid + headers_v(s.headers@.subrange(0, i as int)));
                    }
                    assert(s.headers@.subrange(0, s.headers@.len() as int) =~= s.headers@);
                },
                None => {},
            }
            assert(headers_v(h@) =~= start + property_headers(*props));
        },
    }
}

/// The headers of a request of a user or bot client: the authorization,
/// and for a user the browser's headers and the request's properties.
pub fn rest_headers(
    authentication: Authentication,
    authorization: &str,
    locale: &str,
    timezone: &str,
    super_properties: &str,
    props: &Option<RequestProperties>,
) -> (h: Vec<(String, String)>)
    ensures
        headers_v(h@) == rest_headers_spec(
            authentication,
            authorization@,
            locale@,
            timezone@,
            super_properties@,
            *props,
        ),
{
    let mut h: Vec<(String, String)> = Vec::new();
    assert(headers_v(h@) =~= Seq::<(Seq<char>, Seq<char>)>::empty());
    push_header(&mut h, "Authorization", authorization);
    if authentication == Authentication::Bot {
        return h;
    }
    push_header(&mut h, "X-Debug-Options", "bugReporterEnabled");
    push_header(&mut h, "X-Discord-Locale", locale);
    push_header(&mut h, "X-Discord-Timezone", timezone);
    push_header(&mut h, "X-Super-Properties", super_properties);
    push_property_headers(&mut h, props);
    proof {
        let auth = Seq::<(Seq<char>, Seq<char>)>::empty().push(("Authorization"@, authorization@));
        assert(headers_v(h@) =~= auth + browser_headers(locale@, timezone@, super_properties@)
            + property_headers(*props));
    }
    h
}

/// The headers of a request of a client without a session: the browser's
/// headers, the fingerprint when one is known, and the request's properties.
pub fn sessionless_headers(
    locale: &str,
    timezone: &str,
    super_properties: &str,
    fingerprint: &Option<String>,
    props: &Option<RequestProperties>,
) -> (h: Vec<(String, String)>)
    ensures
        headers_v(h@) == sessionless_headers_spec(
            locale@,
            timezone@,
            super_properties@,
            crate::json::opt_str_view(*fingerprint),
            *props,
        ),
{
    let mut h: Vec<(String, String)> = Vec::new();
    assert(headers_v(h@) =~= Seq::<(Seq<char>, Seq<char>)>::empty());
    push_header(&mut h, "X-Debug-Options", "bugReporterEnabled");
    push_header(&mut h, "X-Discord-Locale", locale);
    push_header(&mut h, "X-Discord-Timezone", timezone);
    push_header(&mut h, "X-Super-Properties", super_properties);
    match fingerprint {
        Some(f) => push_header(&mut h, "X-Fingerprint", f.as_str()),
        None => {},
    }
    push_property_headers(&mut h, props);
    proof {
        assert(headers_v(h@) =~= sessionless_headers_spec(
            locale@,
            timezone@,
            super_properties@,
            crate::json::opt_str_view(*fingerprint),
            *props,
        ));
    }
    h
}

/// A bot sends nothing but its authorization, whatever the request's
/// properties.
pub proof fn law_bot_sends_only_authorization(
    authorization: Seq<char>,
    locale: Seq<char>,
    timezone: Seq<char>,
    super_properties: Seq<char>,
    props: Option<RequestProperties>,
)
    ensures
        rest_headers_spec(
            Authentication::Bot,
            authorization,
            locale,
            timezone,
            super_properties,
            props,
        ) == Seq::<(Seq<char>, Seq<char>)>::empty().push(("Authorization"@, authorization)),
{
}

} // verus!
