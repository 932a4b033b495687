//! Laws of the decision engine, stated over the same spec functions that
//! [`crate::engine::evaluate`] is proved against.

use crate::engine::apply_replacements;
use crate::engine::assembled_url;
use crate::engine::is_ignored;
use crate::engine::spec_evaluate;
use crate::engine::spec_status_code;
use crate::engine::target_scheme;
use crate::engine::FactsView;
use crate::engine::OutcomeView;
use crate::scheme::ConfigView;
use crate::text::lemma_replace_single_char;
use crate::text::replace_all;
use crate::text::subst_char;
use vstd::prelude::*;

verus! {

/// A disabled configuration always forwards, whatever the request's scheme or
/// path.
pub proof fn lemma_disabled_always_forwards(cfg: ConfigView, facts: FactsView)
    requires
        cfg.disable,
    ensures
        spec_evaluate(cfg, facts) == OutcomeView::Forward,
{
}

/// A request whose scheme already equals the configured target scheme is
/// always forwarded: no redirect loop is created.
pub proof fn lemma_matching_scheme_forwards(cfg: ConfigView, facts: FactsView)
    requires
        facts.scheme == target_scheme(cfg.https_to_http),
    ensures
        spec_evaluate(cfg, facts) == OutcomeView::Forward,
{
}

/// A request whose path begins with an exempted prefix is forwarded, even
/// when its scheme mismatches the target.
pub proof fn lemma_ignored_path_forwards(cfg: ConfigView, facts: FactsView)
    requires
        is_ignored(cfg.ignore_paths, facts.path),
    ensures
        spec_evaluate(cfg, facts) == OutcomeView::Forward,
{
}

/// A redirect carries 307 exactly for temporary configurations and 301
/// exactly for permanent ones; no other status code is ever produced.
pub proof fn lemma_status_code_selection(cfg: ConfigView, facts: FactsView)
    ensures
        spec_evaluate(cfg, facts) matches OutcomeView::Redirect { status_code, .. } ==> {
            &&& status_code == spec_status_code(cfg.temporary)
            &&& (status_code == 301 || status_code == 307)
        },
{
}

/// A redirect's location is the assembled URL with the replacements applied,
/// and the assembled URL (prior to replacement rewriting) begins with
/// `http://` or `https://`, exactly matching the configured target scheme.
pub proof fn lemma_redirect_location_scheme(cfg: ConfigView, facts: FactsView)
    ensures
        spec_evaluate(cfg, facts) matches OutcomeView::Redirect { location, .. } ==> location
            == apply_replacements(cfg.replacements, assembled_url(cfg, facts)),
        cfg.https_to_http ==> ("http://"@).is_prefix_of(assembled_url(cfg, facts)),
        !cfg.https_to_http ==> ("https://"@).is_prefix_of(assembled_url(cfg, facts)),
{
    reveal_strlit("http");
    reveal_strlit("https");
    reveal_strlit("://");
    reveal_strlit("http://");
    reveal_strlit("https://");
    let url = assembled_url(cfg, facts);
    if cfg.https_to_http {
        assert(("http://"@).is_prefix_of(url)) by {
            assert(("http://"@) =~= url.subrange(0, 7));
        }
    } else {
        assert(("https://"@).is_prefix_of(url)) by {
            assert(("https://"@) =~= url.subrange(0, 8));
        }
    }
}

/// Replacement order matters: the pairs `(a, b)` then `(b, c)`, applied in
/// list order to a URL containing `a`, leave a result that contains `c` and
/// no `b` at all — the second pass rewrites what the first introduced.
pub proof fn lemma_replacement_chaining(url: Seq<char>, a: char, b: char, c: char)
    requires
        url.contains(a),
        b != c,
    ensures
        ({
            let r = apply_replacements(seq![(seq![a], seq![b]), (seq![b], seq![c])], url);
            r.contains(c) && !r.contains(b)
        }),
{
    let reps = seq![(seq![a], seq![b]), (seq![b], seq![c])];
    let r1 = replace_all(url, seq![a], seq![b]);
    let r2 = replace_all(r1, seq![b], seq![c]);
    assert(reps.skip(1) =~= seq![(seq![b], seq![c])]);
    assert(reps.skip(1).skip(1) =~= Seq::<(Seq<char>, Seq<char>)>::empty());
    assert(reps[0] == (seq![a], seq![b]));
    assert(reps.skip(1)[0] == (seq![b], seq![c]));
    assert(apply_replacements(reps, url) == apply_replacements(reps.skip(1), r1));
    assert(apply_replacements(reps.skip(1), r1) == apply_replacements(reps.skip(1).skip(1), r2));
    assert(apply_replacements(reps, url) == r2);
    lemma_replace_single_char(url, a, b);
    lemma_replace_single_char(r1, b, c);
    let f1 = |x: char| subst_char(a, b, x);
    let f2 = |x: char| subst_char(b, c, x);
    let i = choose|i: int| 0 <= i < url.len() && url[i] == a;
    assert(r1[i] == f1(url[i]));
    assert(r2[i] == f2(r1[i]));
    assert(r2.contains(c)) by {
        assert(0 <= i < r2.len() && r2[i] == c);
    }
    assert(!r2.contains(b)) by {
        assert(forall|j: int| 0 <= j < r2.len() ==> #[trigger] r2[j] != b) by {
            assert(forall|j: int| 0 <= j < r2.len() ==> #[trigger] r2[j] == f2(r1[j]));
        }
    }
}

} // verus!
