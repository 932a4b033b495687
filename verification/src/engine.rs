//! The redirect decision engine: a pure evaluation of one request's facts
//! against the shared configuration.

use crate::scheme::ConfigView;
use crate::scheme::RedirectScheme;
use crate::text::replace_all;
use crate::text::replace_str;
use crate::text::starts_with_str;
use crate::text::str_eq;
use vstd::prelude::*;

verus! {

/// The observed facts of one inbound request, supplied by the host serving
/// framework. Ephemeral: one value per request, never shared across requests.
pub struct RequestFacts {
    /// The observed scheme, normally `"http"` or `"https"`.
    pub scheme: String,
    /// The host header value, taken verbatim.
    pub host: String,
    /// The full request URI (path and query), taken verbatim.
    pub uri: String,
    /// The request path, matched against the exempted prefixes.
    pub path: String,
}

/// The mathematical content of a [`RequestFacts`]: each string abstracted to
/// its character sequence.
pub struct FactsView {
    /// The observed scheme.
    pub scheme: Seq<char>,
    /// The host header value.
    pub host: Seq<char>,
    /// The full request URI.
    pub uri: Seq<char>,
    /// The request path.
    pub path: Seq<char>,
}

impl View for RequestFacts {
    type V = FactsView;

    open spec fn view(&self) -> FactsView {
        FactsView {
            scheme: self.scheme@,
            host: self.host@,
            uri: self.uri@,
            path: self.path@,
        }
    }
}

impl RequestFacts {
    /// Gather the facts of one request.
    pub fn new(scheme: String, host: String, uri: String, path: String) -> (res: Self)
        ensures
            res@ == (FactsView { scheme: scheme@, host: host@, uri: uri@, path: path@ }),
    {
        RequestFacts { scheme, host, uri, path }
    }
}

/// The decision for one request: let it proceed, or short-circuit it with a
/// redirect response.
pub enum Outcome {
    /// Dispatch the request to the next handler, unmodified.
    Forward,
    /// Answer with the given status code and `Location` URL, reaching no
    /// downstream handler.
    Redirect {
        /// 301 Moved Permanently or 307 Temporary Redirect.
        status_code: u16,
        /// The fully assembled, replacement-applied target URL.
        location: String,
    },
}

/// The mathematical content of an [`Outcome`].
pub enum OutcomeView {
    /// Dispatch the request to the next handler, unmodified.
    Forward,
    /// Answer with the given status code and `Location` URL.
    Redirect {
        /// 301 Moved Permanently or 307 Temporary Redirect.
        status_code: u16,
        /// The fully assembled, replacement-applied target URL.
        location: Seq<char>,
    },
}

impl View for Outcome {
    type V = OutcomeView;

    open spec fn view(&self) -> OutcomeView {
        match self {
            Outcome::Forward => OutcomeView::Forward,
            Outcome::Redirect { status_code, location } => OutcomeView::Redirect {
                status_code: *status_code,
                location: location@,
            },
        }
    }
}

/// The scheme a redirect aims at: `http` when redirecting toward HTTP,
/// `https` otherwise.
pub open spec fn target_scheme(https_to_http: bool) -> Seq<char> {
    if https_to_http {
        "http"@
    } else {
        "https"@
    }
}

/// The request path begins with one of the exempted prefixes.
pub open spec fn is_ignored(ignore_paths: Seq<Seq<char>>, path: Seq<char>) -> bool {
    exists|i: int| 0 <= i < ignore_paths.len() && #[trigger] ignore_paths[i].is_prefix_of(path)
}

/// The candidate URL before any replacement:
/// `{target_scheme}://{host}{uri}`, host and URI verbatim.
pub open spec fn assembled_url(cfg: ConfigView, facts: FactsView) -> Seq<char> {
    target_scheme(cfg.https_to_http) + "://"@ + facts.host + facts.uri
}

/// The literal replacements applied to `url` in list order; each pass
/// operates on the output of the one before it.
pub open spec fn apply_replacements(reps: Seq<(Seq<char>, Seq<char>)>, url: Seq<char>) -> Seq<
    char,
>
    decreases reps.len(),
{
    if reps.len() == 0 {
        url
    } else {
        apply_replacements(reps.skip(1), replace_all(url, reps[0].0, reps[0].1))
    }
}

/// The redirect status code a configuration selects: 307 for temporary
/// redirects, 301 for permanent ones.
pub open spec fn spec_status_code(temporary: bool) -> u16 {
    if temporary {
        307
    } else {
        301
    }
}

/// The decision for one request. In order: a disabled configuration forwards;
/// a path beginning with an exempted prefix forwards; a scheme that already
/// equals the target forwards; anything else redirects to the assembled,
/// replacement-applied URL with the configured status code.
pub open spec fn spec_evaluate(cfg: ConfigView, facts: FactsView) -> OutcomeView {
    if cfg.disable {
        OutcomeView::Forward
    } else if is_ignored(cfg.ignore_paths, facts.path) {
        OutcomeView::Forward
    } else if facts.scheme == target_scheme(cfg.https_to_http) {
        OutcomeView::Forward
    } else {
        OutcomeView::Redirect {
            status_code: spec_status_code(cfg.temporary),
            location: apply_replacements(cfg.replacements, assembled_url(cfg, facts)),
        }
    }
}

/// Decide one request: forward it, or redirect it to the other scheme.
pub fn evaluate(cfg: &RedirectScheme, facts: &RequestFacts) -> (res: Outcome)
    ensures
        res@ == spec_evaluate(cfg@, facts@),
{
    if cfg.disable {
        return Outcome::Forward;
    }
    let mut k: usize = 0;
    while k < cfg.ignore_paths.len()
        invariant
            k <= cfg.ignore_paths@.len(),
            forall|t: int|
                0 <= t < k ==> !(#[trigger] cfg@.ignore_paths[t].is_prefix_of(facts@.path)),
        decreases cfg.ignore_paths@.len() - k,
    {
        if starts_with_str(facts.path.as_str(), cfg.ignore_paths[k].as_str()) {
            proof {
                assert(cfg@.ignore_paths[k as int].is_prefix_of(facts@.path));
            }
            return Outcome::Forward;
        }
        k += 1;
    }
    let target: &str = if cfg.https_to_http {
        "http"
    } else {
        "https"
    };
    if str_eq(facts.scheme.as_str(), target) {
        return Outcome::Forward;
    }
    let mut url = target.to_owned();
    url.append("://");
    url.append(facts.host.as_str());
    url.append(facts.uri.as_str());
    proof {
        assert(url@ == assembled_url(cfg@, facts@));
    }
    let ghost url0 = url@;
    let ghost reps = cfg@.replacements;
    proof {
        assert(reps.skip(0) =~= reps);
    }
    let mut j: usize = 0;
    while j < cfg.replacements.len()
        invariant
            j <= cfg.replacements@.len(),
            reps == cfg@.replacements,
            reps.len() == cfg.replacements@.len(),
            apply_replacements(reps.skip(j as int), url@) == apply_replacements(reps, url0),
        decreases cfg.replacements@.len() - j,
    {
        let pair = &cfg.replacements[j];
        let next = replace_str(url.as_str(), pair.0.as_str(), pair.1.as_str());
        proof {
            assert(reps.skip(j as int)[0] == reps[j as int]);
            assert(reps.skip(j as int).skip(1) =~= reps.skip(j as int + 1));
        }
        url = next;
        j += 1;
    }
    proof {
        assert(reps.skip(reps.len() as int) =~= Seq::<(Seq<char>, Seq<char>)>::empty());
        assert(apply_replacements(reps, url0) == url@);
    }
    let status_code: u16 = if cfg.temporary {
        307
    } else {
        301
    };
    Outcome::Redirect { status_code, location: url }
}

} // verus!
