//! Process configuration: the environment name, the allowed-hosts set
//! parsed from a comma-separated list, and the cache and quality knobs.
//! Immutable after startup and shared read-only by all requests.

use crate::strutil::push_char;
use vstd::prelude::*;

verus! {

/// What `url::Host::parse` makes of a candidate host name: `None` when it
/// is not a valid host, its normalized text otherwise.
pub uninterp spec fn host_parse_of(s: Seq<char>) -> Option<Seq<char>>;

/// Relies on `url::Host::parse` and its `Display`: whether a string is a
/// valid host name, and the normalized text it parses to, depend on the
/// string alone.
#[verifier::external_body]
fn parse_host_name(s: &str) -> (r: Option<String>)
    ensures
        r.deep_view() == host_parse_of(s@),
{
    match url::Host::parse(s) {
        Ok(h) => Some(h.to_string()),
        Err(_) => None,
    }
}

/// ASCII whitespace as it may appear around the configured host list.
pub open spec fn is_space(c: char) -> bool {
    c == ' ' || c == '\t' || c == '\n' || c == '\r'
}

/// The host list with all whitespace removed.
pub open spec fn strip_spaces(s: Seq<char>) -> Seq<char> {
    s.filter(|c: char| !is_space(c))
}

/// The pieces of a comma-separated list: one piece per comma-free run,
/// one more piece than commas, empty runs kept.
pub open spec fn split_commas(s: Seq<char>) -> Seq<Seq<char>>
    decreases s.len(),
{
    if s.len() == 0 {
        seq![Seq::<char>::empty()]
    } else if s[0] == ',' {
        seq![Seq::<char>::empty()].add(split_commas(s.skip(1)))
    } else {
        let rest = split_commas(s.skip(1));
        seq![seq![s[0]].add(rest[0])].add(rest.skip(1))
    }
}

/// A split list always has at least one piece.
pub proof fn lemma_split_commas_len(t: Seq<char>)
    ensures
        split_commas(t).len() >= 1,
    decreases t.len(),
{
    if t.len() == 0 {
    } else {
        lemma_split_commas_len(t.skip(1));
    }
}

/// How one more character extends a split: a comma opens a new empty
/// piece, anything else extends the last piece.
pub proof fn lemma_split_commas_push(t: Seq<char>, c: char)
    ensures
        ({
            let s = split_commas(t);
            split_commas(t.push(c)) == if c == ',' {
                s.push(Seq::<char>::empty())
            } else {
                s.update(s.len() - 1, s.last().push(c))
            }
        }),
    decreases t.len(),
{
    let s = split_commas(t);
    lemma_split_commas_len(t);
    if t.len() == 0 {
        assert(t.push(c)[0] == c);
        assert(t.push(c).skip(1) =~= Seq::<char>::empty());
        assert(split_commas(Seq::<char>::empty()) == seq![Seq::<char>::empty()]);
        assert(s == seq![Seq::<char>::empty()]);
        if c == ',' {
            assert(split_commas(t.push(c)) =~~= s.push(Seq::<char>::empty()));
        } else {
            assert(seq![c].add(Seq::<char>::empty()) =~= seq![c]);
            assert(split_commas(t.push(c)) =~~= s.update(0, s.last().push(c)));
        }
    } else {
        let u = t.skip(1);
        let su = split_commas(u);
        lemma_split_commas_len(u);
        assert(t.push(c)[0] == t[0]);
        assert(t.push(c).skip(1) =~= u.push(c));
        lemma_split_commas_push(u, c);
        if t[0] == ',' {
            if c == ',' {
                assert(split_commas(t.push(c)) =~~= s.push(Seq::<char>::empty()));
            } else {
                assert(s.last() == su.last());
                assert(split_commas(t.push(c)) =~~= s.update(s.len() - 1, s.last().push(c)));
            }
        } else {
            if c == ',' {
                assert(su.push(Seq::<char>::empty())[0] == su[0]);
                assert(split_commas(t.push(c)) =~~= s.push(Seq::<char>::empty()));
            } else {
                let su2 = su.update(su.len() - 1, su.last().push(c));
                if su.len() == 1 {
                    assert(su2[0] == su[0].push(c));
                    assert(seq![t[0]].add(su[0].push(c)) =~= seq![t[0]].add(su[0]).push(c));
                    assert(split_commas(t.push(c)) =~~= s.update(s.len() - 1, s.last().push(c)));
                } else {
                    assert(su2[0] == su[0]);
                    assert(s.last() == su.last());
                    assert(split_commas(t.push(c)) =~~= s.update(s.len() - 1, s.last().push(c)));
                }
            }
        }
    }
}

/// The hosts that survive validation, in order: each piece that parses as
/// a host contributes its normalized text, the rest are dropped.
pub open spec fn valid_hosts(pieces: Seq<Seq<char>>) -> Seq<Seq<char>>
    decreases pieces.len(),
{
    if pieces.len() == 0 {
        Seq::empty()
    } else {
        let rest = valid_hosts(pieces.drop_last());
        match host_parse_of(pieces.last()) {
            Some(h) => rest.push(h),
            None => rest,
        }
    }
}

/// The allowed-hosts set a configured list denotes: whitespace stripped,
/// split on commas, each piece validated and normalized as a host name.
pub open spec fn allowed_hosts_of(s: Seq<char>) -> Seq<Seq<char>> {
    valid_hosts(split_commas(strip_spaces(s)))
}

/// Remove all whitespace from the configured list.
fn strip_spaces_exec(s: &str) -> (r: String)
    ensures
        r@ == strip_spaces(s@),
{
    let n = s.unicode_len();
    let mut out = String::new();
    let mut i: usize = 0;
    while i < n
        invariant
            n == s@.len(),
            0 <= i <= n,
            out@ == strip_spaces(s@.take(i as int)),
        decreases n - i,
    {
        let c = s.get_char(i);
        if !(c == ' ' || c == '\t' || c == '\n' || c == '\r') {
            push_char(&mut out, c);
        }
        proof {
            reveal(Seq::filter);
            assert(s@.take(i + 1).drop_last() =~= s@.take(i as int));
            assert(s@.take(i + 1).last() == s@[i as int]);
            assert(strip_spaces(s@.take(i + 1)) == if !is_space(s@[i as int]) {
                strip_spaces(s@.take(i as int)).push(s@[i as int])
            } else {
                strip_spaces(s@.take(i as int))
            });
        }
        i += 1;
    }
    proof {
        assert(s@.take(n as int) =~= s@);
    }
    out
}

/// Split the stripped list on commas.
fn split_commas_exec(s: &str) -> (r: Vec<String>)
    ensures
        r.deep_view() == split_commas(s@),
{
    let n = s.unicode_len();
    let mut out: Vec<String> = Vec::new();
    let mut cur = String::new();
    proof {
        assert(split_commas(s@.take(0)) =~~= out.deep_view().push(cur@));
    }
    let mut i: usize = 0;
    while i < n
        invariant
            n == s@.len(),
            0 <= i <= n,
            split_commas(s@.take(i as int)) == out.deep_view().push(cur@),
        decreases n - i,
    {
        let ghost prev_out = out.deep_view();
        let ghost prev_cur = cur@;
        proof {
            lemma_split_commas_push(s@.take(i as int), s@[i as int]);
            assert(s@.take(i + 1) =~= s@.take(i as int).push(s@[i as int]));
        }
        let c = s.get_char(i);
        if c == ',' {
            out.push(cur);
            cur = String::new();
            proof {
                assert(out.deep_view() =~~= prev_out.push(prev_cur));
                assert(split_commas(s@.take(i + 1)) =~~= out.deep_view().push(cur@));
            }
        } else {
            push_char(&mut cur, c);
            proof {
                let ghost s0 = prev_out.push(prev_cur);
                assert(s0.last() == prev_cur);
                assert(split_commas(s@.take(i + 1)) =~~= out.deep_view().push(cur@));
            }
        }
        i += 1;
    }
    proof {
        assert(s@.take(n as int) =~= s@);
    }
    out.push(cur);
    proof {
        assert(out.deep_view() =~~= split_commas(s@));
    }
    out
}

/// Keep the pieces that validate as host names, normalized.
fn valid_hosts_exec(pieces: Vec<String>) -> (r: Vec<String>)
    ensures
        r.deep_view() == valid_hosts(pieces.deep_view()),
{
    let n = pieces.len();
    let mut out: Vec<String> = Vec::new();
    let mut i: usize = 0;
    while i < n
        invariant
            n == pieces.len(),
            0 <= i <= n,
            out.deep_view() == valid_hosts(pieces.deep_view().take(i as int)),
        decreases n - i,
    {
        let ghost prev_out = out.deep_view();
        proof {
            assert(pieces.deep_view().take(i + 1).drop_last() =~~= pieces.deep_view().take(
                i as int,
            ));
            assert(pieces.deep_view().take(i + 1).last() == pieces.deep_view()[i as int]);
        }
        match parse_host_name(pieces[i].as_str()) {
            Some(h) => {
                out.push(h);
                proof {
                    assert(out.deep_view() =~~= valid_hosts(pieces.deep_view().take(i + 1)));
                }
            },
            None => {
                proof {
                    assert(out.deep_view() =~~= valid_hosts(pieces.deep_view().take(i + 1)));
                }
            },
        }
        i += 1;
    }
    proof {
        assert(pieces.deep_view().take(n as int) =~~= pieces.deep_view());
    }
    out
}

/// The process configuration, created once at startup, never mutated.
pub struct Configuration {
    /// The environment name.
    pub env: String,
    /// The allowlist of source hosts, normalized.
    pub allowed_hosts: Vec<String>,
    /// The base cache expiration, in hours.
    pub cache_expiration: u64,
    /// The bound on the random cache jitter, in seconds.
    pub cache_jitter: u64,
    /// The default encode quality, on a 0 to 100 scale.
    pub default_quality: u8,
}

impl Configuration {
    /// Build a configuration from the raw option values. The host list is
    /// stripped of whitespace, split on commas, and each piece kept
    /// exactly when it is a valid host name, in its normalized form.
    pub fn new(
        env: String,
        allowed_hosts: String,
        cache_expiration: u64,
        cache_jitter: u64,
        default_quality: u8,
    ) -> (c: Configuration)
        ensures
            c.env@ == env@,
            c.allowed_hosts.deep_view() == allowed_hosts_of(allowed_hosts@),
            c.cache_expiration == cache_expiration,
            c.cache_jitter == cache_jitter,
            c.default_quality == default_quality,
    {
        let stripped = strip_spaces_exec(allowed_hosts.as_str());
        let pieces = split_commas_exec(stripped.as_str());
        let hosts = valid_hosts_exec(pieces);
        Configuration {
            env,
            allowed_hosts: hosts,
            cache_expiration,
            cache_jitter,
            default_quality,
        }
    }
}

} // verus!
