//! The decisions of the request-timing instrumentation: which paths are
//! excluded from metrics, and what the one metric of a completed request
//! is keyed and tagged with. The emission itself is fire-and-forget
//! transport, outside this library.

use crate::strutil::{list_has, push_char, vec_has_str};
use vstd::prelude::*;

verus! {

/// The exclusion rules of the timing instrumentation: requests to these
/// paths are processed normally but never produce a metric.
pub struct MetricPolicy {
    pub exclude: Vec<String>,
}

/// The single metric owed for one completed, non-excluded request: its
/// key, derived from the request path, and the response's status code.
pub struct MetricSample {
    pub key: String,
    pub status: u16,
}

/// The metric key of a request path: the leading slash dropped, every
/// other slash replaced by a dot.
pub open spec fn metric_key_of(path: Seq<char>) -> Seq<char>
    recommends
        path.len() >= 1,
{
    path.skip(1).map_values(|c: char| if c == '/' { '.' } else { c })
}

/// Derive the metric key from a request path.
pub fn metric_key(path: &str) -> (k: String)
    requires
        path@.len() >= 1,
    ensures
        k@ == metric_key_of(path@),
{
    let n = path.unicode_len();
    let mut out = String::new();
    let mut i: usize = 1;
    while i < n
        invariant
            n == path@.len(),
            1 <= i <= n,
            out@ == path@.subrange(1, i as int).map_values(
                |c: char| if c == '/' { '.' } else { c },
            ),
        decreases n - i,
    {
        let c = path.get_char(i);
        if c == '/' {
            push_char(&mut out, '.');
        } else {
            push_char(&mut out, c);
        }
        proof {
            assert(path@.subrange(1, i + 1).map_values(|c: char| if c == '/' { '.' } else { c })
                =~= path@.subrange(1, i as int).map_values(
                |c: char| if c == '/' { '.' } else { c },
            ).push(if path@[i as int] == '/' { '.' } else { path@[i as int] }));
        }
        i += 1;
    }
    proof {
        assert(path@.subrange(1, n as int) =~= path@.skip(1));
    }
    out
}

impl MetricPolicy {
    /// A policy that excludes nothing.
    pub fn new() -> (p: MetricPolicy)
        ensures
            p.exclude.deep_view() == Seq::<Seq<char>>::empty(),
    {
        MetricPolicy { exclude: Vec::new() }
    }

    /// Add one path to the exclusion set.
    pub fn exclude(self, path: String) -> (p: MetricPolicy)
        ensures
            p.exclude.deep_view() == self.exclude.deep_view().push(path@),
    {
        let mut exclude = self.exclude;
        exclude.push(path);
        MetricPolicy { exclude }
    }

    /// Is this path excluded from metric emission?
    pub open spec fn excluded_spec(self, path: Seq<char>) -> bool {
        list_has(self.exclude.deep_view(), path)
    }

    /// Does this path bypass metric emission?
    pub fn is_excluded(&self, path: &str) -> (b: bool)
        ensures
            b == self.excluded_spec(path@),
    {
        vec_has_str(&self.exclude, path)
    }

    /// The one metric a completed request owes: none at all for an
    /// excluded path, and for every other path exactly one sample keyed
    /// by the path and tagged with the response's final status.
    pub fn timing_sample(&self, path: &str, status: u16) -> (r: Option<MetricSample>)
        requires
            path@.len() >= 1,
        ensures
            r is None <==> self.excluded_spec(path@),
            match r {
                Some(s) => s.key@ == metric_key_of(path@) && s.status == status,
                None => true,
            },
    {
        if self.is_excluded(path) {
            None
        } else {
            Some(MetricSample { key: metric_key(path), status })
        }
    }
}

} // verus!
