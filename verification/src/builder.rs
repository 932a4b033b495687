//! A fluent builder for [`RedirectScheme`] configurations.

use crate::scheme::ConfigView;
use crate::scheme::RedirectScheme;
use vstd::prelude::*;

verus! {

/// Builds a [`RedirectScheme`] through chained setter calls. Defaults:
/// redirections enabled, direction HTTP -> HTTPS, permanent redirects, no
/// replacements, no exempted paths.
#[derive(Clone)]
pub struct RedirectSchemeBuilder {
    // Disabled redirections
    disable: bool,
    // Redirect to HTTP (true: HTTPS -> HTTP, false: HTTP -> HTTPS)
    https_to_http: bool,
    // Temporary redirect (true: 307 Temporary Redirect, false: 301 Moved Permanently)
    temporary: bool,
    // List of string replacements
    replacements: Vec<(String, String)>,
    // List of path prefixes that are not redirected
    ignore_paths: Vec<String>,
}

impl View for RedirectSchemeBuilder {
    type V = ConfigView;

    closed spec fn view(&self) -> ConfigView {
        ConfigView {
            disable: self.disable,
            https_to_http: self.https_to_http,
            temporary: self.temporary,
            replacements: self.replacements@.map_values(
                |p: (String, String)| (p.0@, p.1@),
            ),
            ignore_paths: self.ignore_paths@.map_values(|s: String| s@),
        }
    }
}

impl RedirectSchemeBuilder {
    /// Create a new builder holding the defaults.
    pub fn new() -> (res: Self)
        ensures
            res@ == (ConfigView {
                disable: false,
                https_to_http: false,
                temporary: false,
                replacements: Seq::empty(),
                ignore_paths: Seq::empty(),
            }),
    {
        let res = RedirectSchemeBuilder {
            disable: false,
            https_to_http: false,
            temporary: false,
            replacements: Vec::new(),
            ignore_paths: Vec::new(),
        };
        proof {
            assert(res@.replacements =~= Seq::<(Seq<char>, Seq<char>)>::empty());
            assert(res@.ignore_paths =~= Seq::<Seq<char>>::empty());
        }
        res
    }

    /// Enabling or disabling of redirections.
    pub fn enable(&mut self, value: bool) -> (ret: &mut Self)
        ensures
            ret@ == (ConfigView { disable: !value, ..old(self)@ }),
            *final(self) == *final(ret),
    {
        self.disable = !value;
        self
    }

    /// Set the redirection-to-HTTPS flag: `true` redirects HTTP -> HTTPS,
    /// `false` redirects HTTPS -> HTTP.
    pub fn http_to_https(&mut self, value: bool) -> (ret: &mut Self)
        ensures
            ret@ == (ConfigView { https_to_http: !value, ..old(self)@ }),
            *final(self) == *final(ret),
    {
        self.https_to_http = !value;
        self
    }

    /// Set redirection to HTTP.
    pub fn https_to_http(&mut self) -> (ret: &mut Self)
        ensures
            ret@ == (ConfigView { https_to_http: true, ..old(self)@ }),
            *final(self) == *final(ret),
    {
        self.https_to_http = true;
        self
    }

    /// Set the answer code for permanent redirection: `true` answers 301
    /// Moved Permanently, `false` answers 307 Temporary Redirect.
    pub fn permanent(&mut self, value: bool) -> (ret: &mut Self)
        ensures
            ret@ == (ConfigView { temporary: !value, ..old(self)@ }),
            *final(self) == *final(ret),
    {
        self.temporary = !value;
        self
    }

    /// Set the answer code for temporary redirection (307).
    pub fn temporary(&mut self) -> (ret: &mut Self)
        ensures
            ret@ == (ConfigView { temporary: true, ..old(self)@ }),
            *final(self) == *final(ret),
    {
        self.temporary = true;
        self
    }

    /// Set the list of replacements, replacing any list set before.
    pub fn replacements(&mut self, value: Vec<(String, String)>) -> (ret: &mut Self)
        ensures
            ret@ == (ConfigView {
                replacements: value@.map_values(|p: (String, String)| (p.0@, p.1@)),
                ..old(self)@
            }),
            *final(self) == *final(ret),
    {
        self.replacements = value;
        self
    }

    /// Add a path prefix to exempt from the redirect; repeated calls
    /// accumulate.
    pub fn ignore_path(&mut self, path: &str) -> (ret: &mut Self)
        ensures
            ret@ == (ConfigView { ignore_paths: old(self)@.ignore_paths.push(path@), ..old(self)@ }),
            *final(self) == *final(ret),
    {
        self.ignore_paths.push(path.to_owned());
        proof {
            assert(self.ignore_paths@.map_values(|s: String| s@) =~= old(
                self,
            ).ignore_paths@.map_values(|s: String| s@).push(path@));
        }
        self
    }

    /// Build the frozen [`RedirectScheme`]; the builder stays usable.
    pub fn build(&self) -> (res: RedirectScheme)
        ensures
            res@ == self@,
    {
        RedirectScheme {
            disable: self.disable,
            https_to_http: self.https_to_http,
            temporary: self.temporary,
            replacements: clone_pairs(&self.replacements),
            ignore_paths: clone_strings(&self.ignore_paths),
        }
    }
}

/// An element-wise copy of a list of string pairs.
fn clone_pairs(v: &Vec<(String, String)>) -> (res: Vec<(String, String)>)
    ensures
        res@ == v@,
{
    let mut res: Vec<(String, String)> = Vec::new();
    let mut i: usize = 0;
    while i < v.len()
        invariant
            i <= v@.len(),
            res@ == v@.take(i as int),
        decreases v@.len() - i,
    {
        let p = &v[i];
        res.push((p.0.clone(), p.1.clone()));
        i += 1;
        proof {
            assert(v@.take(i as int) =~= v@.take(i - 1).push(v@[i - 1]));
        }
    }
    proof {
        assert(v@.take(v@.len() as int) =~= v@);
    }
    res
}

/// An element-wise copy of a list of strings.
fn clone_strings(v: &Vec<String>) -> (res: Vec<String>)
    ensures
        res@ == v@,
{
    let mut res: Vec<String> = Vec::new();
    let mut i: usize = 0;
    while i < v.len()
        invariant
            i <= v@.len(),
            res@ == v@.take(i as int),
        decreases v@.len() - i,
    {
        res.push(v[i].clone());
        i += 1;
        proof {
            assert(v@.take(i as int) =~= v@.take(i - 1).push(v@[i - 1]));
        }
    }
    proof {
        assert(v@.take(v@.len() as int) =~= v@);
    }
    res
}

} // verus!
