//! The immutable redirect configuration shared across request evaluations.

use vstd::prelude::*;

verus! {

/// The mathematical content of a [`RedirectScheme`]: the same fields, with
/// every string abstracted to its character sequence.
pub struct ConfigView {
    /// Redirections are switched off entirely.
    pub disable: bool,
    /// The redirect target scheme is `http` (otherwise `https`).
    pub https_to_http: bool,
    /// Redirect with 307 Temporary Redirect (otherwise 301 Moved Permanently).
    pub temporary: bool,
    /// Literal `(pattern, substitute)` substitutions applied to the assembled
    /// target URL, in list order.
    pub replacements: Seq<(Seq<char>, Seq<char>)>,
    /// Path prefixes whose requests are never redirected.
    pub ignore_paths: Seq<Seq<char>>,
}

/// The redirect policy: direction, on/off switch, status-code mode, literal
/// URL replacements, and exempted path prefixes. Immutable once built (see
/// [`crate::builder::RedirectSchemeBuilder`]) and safely shared read-only
/// across concurrent evaluations.
#[derive(Clone)]
pub struct RedirectScheme {
    /// Disabled redirections.
    pub disable: bool,
    /// Redirect to HTTP (true: HTTPS -> HTTP, false: HTTP -> HTTPS).
    pub https_to_http: bool,
    /// Temporary redirect (true: 307 Temporary Redirect, false: 301 Moved
    /// Permanently).
    pub temporary: bool,
    /// List of string replacements.
    pub replacements: Vec<(String, String)>,
    /// List of path prefixes that are not redirected.
    pub ignore_paths: Vec<String>,
}

impl View for RedirectScheme {
    type V = ConfigView;

    open spec fn view(&self) -> ConfigView {
        ConfigView {
            disable: self.disable,
            https_to_http: self.https_to_http,
            temporary: self.temporary,
            replacements: self.replacements@.map_values(
                |p: (String, String)| (p.0@, p.1@),
            ),
            ignore_paths: self.ignore_paths@.map_values(|s: String| s@),
        }
    }
}

impl RedirectScheme {
    /// A configuration that only switches the scheme: enabled, permanent
    /// redirects, no replacements, no exempted paths.
    pub fn simple(https_to_http: bool) -> (res: Self)
        ensures
            !res@.disable,
            res@.https_to_http == https_to_http,
            !res@.temporary,
            res@.replacements.len() == 0,
            res@.ignore_paths.len() == 0,
    {
        RedirectScheme {
            disable: false,
            https_to_http,
            temporary: false,
            replacements: Vec::new(),
            ignore_paths: Vec::new(),
        }
    }

    /// A configuration that switches the scheme and then applies the given
    /// literal replacements to the target URL. Useful when not serving on the
    /// default ports, where the port in the host must be rewritten too.
    pub fn with_replacements(https_to_http: bool, replacements: Vec<(String, String)>) -> (res:
        Self)
        ensures
            !res@.disable,
            res@.https_to_http == https_to_http,
            !res@.temporary,
            res@.replacements == replacements@.map_values(|p: (String, String)| (p.0@, p.1@)),
            res@.ignore_paths.len() == 0,
    {
        RedirectScheme {
            disable: false,
            https_to_http,
            temporary: false,
            replacements,
            ignore_paths: Vec::new(),
        }
    }
}

} // verus!
