//! The provider registry: the configured notification endpoints, lookup by
//! name, the defaults, and the filling-in of the fixed default endpoint for
//! providers of the multipart-form kind that omit one.

use vstd::prelude::*;
use vstd::string::StrSliceExecFns;
use vstd::string::StringExecFns;
use crate::strutil::str_eq;

verus! {

/// One configured notification endpoint: a unique user-facing name, the kind
/// of service it is, credentials, an optional endpoint override, and whether
/// it is notified when the caller names no providers.
#[derive(Debug)]
pub struct PushProvider {
    pub name: String,
    pub provider_type: String,
    pub api_key: String,
    pub user_key: Option<String>,
    pub base_url: Option<String>,
    pub default: bool,
}

/// The loaded registry: an ordered list of providers.
#[derive(Debug)]
pub struct Config {
    pub providers: Vec<PushProvider>,
}

/// Whether a provider is of the multipart-form kind.
pub open spec fn is_pushover(p: PushProvider) -> bool {
    p.provider_type@ == "pushover"@
}

/// Whether a provider is of the bearer-token kind.
pub open spec fn is_ntfy(p: PushProvider) -> bool {
    p.provider_type@ == "ntfy"@
}

/// The two provider-kind tags are distinct strings.
pub proof fn lemma_kinds_distinct()
    ensures
        "pushover"@ != "ntfy"@,
{
    reveal_strlit("pushover");
    reveal_strlit("ntfy");
    assert("pushover"@.len() != "ntfy"@.len());
}

/// The first provider of `providers` whose name is `name`, if any.
pub open spec fn find_provider(providers: Seq<PushProvider>, name: Seq<char>) -> Option<PushProvider>
    decreases providers.len(),
{
    if providers.len() == 0 {
        None
    } else if providers[0].name@ == name {
        Some(providers[0])
    } else {
        find_provider(providers.drop_first(), name)
    }
}

/// The providers flagged default, in registry order.
pub open spec fn default_providers(providers: Seq<PushProvider>) -> Seq<PushProvider>
    decreases providers.len(),
{
    if providers.len() == 0 {
        Seq::empty()
    } else {
        default_providers(providers.drop_last()) + if providers.last().default {
            seq![providers.last()]
        } else {
            Seq::empty()
        }
    }
}

/// Every provider the default selection returns is flagged default.
pub proof fn lemma_default_providers_flagged(providers: Seq<PushProvider>)
    ensures
        forall|k: int| 0 <= k < default_providers(providers).len()
            ==> (#[trigger] default_providers(providers)[k]).default,
    decreases providers.len(),
{
    if providers.len() > 0 {
        lemma_default_providers_flagged(providers.drop_last());
    }
}

/// A provider flagged default is in the default selection.
pub proof fn lemma_flagged_provider_selected(providers: Seq<PushProvider>, i: int)
    requires
        0 <= i < providers.len(),
        providers[i].default,
    ensures
        default_providers(providers).contains(providers[i]),
    decreases providers.len(),
{
    if i < providers.len() - 1 {
        lemma_flagged_provider_selected(providers.drop_last(), i);
        let sub = default_providers(providers.drop_last());
        let j = choose|j: int| 0 <= j < sub.len() && sub[j] == providers.drop_last()[i];
        assert(default_providers(providers)[j] == sub[j]);
    } else {
        let all = default_providers(providers);
        assert(all[all.len() - 1] == providers.last());
    }
}

/// A sequence of borrowed providers standing for a sequence of providers,
/// element for element.
pub open spec fn refs_match(rs: Seq<&PushProvider>, ps: Seq<PushProvider>) -> bool {
    &&& rs.len() == ps.len()
    &&& forall|k: int| 0 <= k < rs.len() ==> *rs[k] == ps[k]
}

/// Skipping a prefix without a matching name does not change what is found.
pub proof fn lemma_find_provider_skip(s: Seq<PushProvider>, name: Seq<char>, i: int)
    requires
        0 <= i <= s.len(),
        forall|j: int| 0 <= j < i ==> s[j].name@ != name,
    ensures
        find_provider(s, name) == find_provider(s.subrange(i, s.len() as int), name),
    decreases i,
{
    if i == 0 {
        assert(s.subrange(0, s.len() as int) =~= s);
    } else {
        let t = s.drop_first();
        assert(forall|j: int| 0 <= j < i - 1 ==> t[j].name@ != name);
        lemma_find_provider_skip(t, name, i - 1);
        assert(t.subrange(i - 1, t.len() as int) =~= s.subrange(i, s.len() as int));
    }
}

fn clone_string_opt(o: &Option<String>) -> (r: Option<String>)
    ensures
        r == *o,
{
    match o {
        Some(u) => Some(u.clone()),
        None => None,
    }
}

/// The fixed default endpoint of the multipart-form service.
pub open spec fn pushover_default_url() -> Seq<char> {
    "https://api.pushover.net/1/messages.json"@
}

/// How one provider comes out of registry loading: a multipart-form provider
/// without a base URL gets the fixed default endpoint; every other field, and
/// every other provider, is unchanged.
pub open spec fn provider_normalized(p: PushProvider, q: PushProvider) -> bool {
    &&& q.name == p.name
    &&& q.provider_type == p.provider_type
    &&& q.api_key == p.api_key
    &&& q.user_key == p.user_key
    &&& q.default == p.default
    &&& if is_pushover(p) && p.base_url is None {
        q.base_url matches Some(u) && u@ == pushover_default_url()
    } else {
        q.base_url == p.base_url
    }
}

impl Config {
    /// The first provider registered under `name`, if any.
    pub fn get_provider<'a>(&'a self, name: &str) -> (r: Option<&'a PushProvider>)
        ensures
            match r {
                Some(p) => find_provider(self.providers@, name@) == Some(*p),
                None => find_provider(self.providers@, name@) is None,
            },
    {
        let ghost s = self.providers@;
        let mut i: usize = 0;
        while i < self.providers.len()
            invariant
                s == self.providers@,
                i <= s.len(),
                forall|j: int| 0 <= j < i ==> s[j].name@ != name@,
            decreases s.len() - i,
        {
            if str_eq(self.providers[i].name.as_str(), name) {
                proof {
                    lemma_find_provider_skip(s, name@, i as int);
                    assert(s.subrange(i as int, s.len() as int)[0] == s[i as int]);
                }
                return Some(&self.providers[i]);
            }
            i = i + 1;
        }
        proof {
            lemma_find_provider_skip(s, name@, i as int);
            assert(s.subrange(i as int, s.len() as int).len() == 0);
        }
        None
    }

    /// The providers flagged default, in registry order.
    pub fn get_default_providers<'a>(&'a self) -> (r: Vec<&'a PushProvider>)
        ensures
            refs_match(r@, default_providers(self.providers@)),
    {
        let ghost s = self.providers@;
        let mut out: Vec<&'a PushProvider> = Vec::new();
        let mut i: usize = 0;
        while i < self.providers.len()
            invariant
                s == self.providers@,
                i <= s.len(),
                refs_match(out@, default_providers(s.subrange(0, i as int))),
            decreases s.len() - i,
        {
            if self.providers[i].default {
                out.push(&self.providers[i]);
            }
            proof {
                assert(s.subrange(0, i + 1).drop_last() =~= s.subrange(0, i as int));
                assert(s.subrange(0, i + 1).last() == s[i as int]);
            }
            i = i + 1;
        }
        proof {
            assert(s.subrange(0, s.len() as int) =~= s);
        }
        out
    }

    /// The registry as loading leaves it: every multipart-form provider
    /// without a configured base URL is given the fixed default endpoint.
    pub fn with_default_base_urls(&self) -> (r: Config)
        ensures
            r.providers@.len() == self.providers@.len(),
            forall|i: int| 0 <= i < self.providers@.len() ==> provider_normalized(
                self.providers@[i],
                #[trigger] r.providers@[i],
            ),
    {
        let ghost s = self.providers@;
        let mut out: Vec<PushProvider> = Vec::new();
        let mut i: usize = 0;
        while i < self.providers.len()
            invariant
                s == self.providers@,
                i <= s.len(),
                out@.len() == i,
                forall|j: int| 0 <= j < i ==> provider_normalized(s[j], #[trigger] out@[j]),
            decreases s.len() - i,
        {
            let p = &self.providers[i];
            let base_url: Option<String> = if str_eq(p.provider_type.as_str(), "pushover")
                && p.base_url.is_none() {
                Some("https://api.pushover.net/1/messages.json".to_owned())
            } else {
                clone_string_opt(&p.base_url)
            };
            out.push(
                PushProvider {
                    name: p.name.clone(),
                    provider_type: p.provider_type.clone(),
                    api_key: p.api_key.clone(),
                    user_key: clone_string_opt(&p.user_key),
                    base_url,
                    default: p.default,
                },
            );
            i = i + 1;
        }
        Config { providers: out }
    }
}

} // verus!
