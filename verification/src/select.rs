//! Resolution of the effective provider list: either the caller's
//! comma-separated name list (each name trimmed and looked up, unknown names
//! skipped, order and duplicates kept), or, absent a list, the providers
//! flagged default, in registry order.

use vstd::prelude::*;
use vstd::string::StrSliceExecFns;
use crate::config::{Config, PushProvider, default_providers, find_provider, refs_match};
use crate::strutil::{split_commas, split_commas_str, trim_spec, trim_str};

verus! {

/// The providers a name list selects: each listed name, trimmed, that the
/// registry knows, in the caller's listed order, duplicates kept; names the
/// registry does not know select nothing.
pub open spec fn select_by_names(providers: Seq<PushProvider>, names: Seq<Seq<char>>) -> Seq<
    PushProvider,
>
    decreases names.len(),
{
    if names.len() == 0 {
        Seq::empty()
    } else {
        select_by_names(providers, names.drop_last()) + match find_provider(
            providers,
            trim_spec(names.last()),
        ) {
            Some(p) => seq![p],
            None => Seq::empty(),
        }
    }
}

/// What selection returns: the name-list selection when a list is supplied,
/// the default providers otherwise. Either may be empty.
pub open spec fn selection(providers: Seq<PushProvider>, cli: Option<Seq<char>>) -> Seq<
    PushProvider,
> {
    match cli {
        Some(list) => select_by_names(providers, split_commas(list)),
        None => default_providers(providers),
    }
}

fn select_from_list<'a>(config: &'a Config, list: &str) -> (r: Vec<&'a PushProvider>)
    ensures
        refs_match(r@, select_by_names(config.providers@, split_commas(list@))),
{
    let ghost names = split_commas(list@);
    let tokens = split_commas_str(list);
    let mut out: Vec<&'a PushProvider> = Vec::new();
    let mut k: usize = 0;
    while k < tokens.len()
        invariant
            tokens@.len() == names.len(),
            forall|j: int| 0 <= j < names.len() ==> tokens@[j]@ == names[j],
            k <= names.len(),
            refs_match(out@, select_by_names(config.providers@, names.subrange(0, k as int))),
        decreases tokens.len() - k,
    {
        let token = trim_str(tokens[k].as_str());
        match config.get_provider(token) {
            Some(p) => out.push(p),
            None => (),
        }
        proof {
            assert(names.subrange(0, k + 1).drop_last() =~= names.subrange(0, k as int));
            assert(names.subrange(0, k + 1).last() == names[k as int]);
        }
        k = k + 1;
    }
    proof {
        assert(names.subrange(0, names.len() as int) =~= names);
    }
    out
}

/// The ordered list of providers to notify, resolved from the optional
/// comma-separated name list, or from the default flags when none is given.
pub fn select_providers<'a>(config: &'a Config, cli_providers: Option<&str>) -> (r: Vec<
    &'a PushProvider,
>)
    ensures
        match cli_providers {
            Some(list) => refs_match(r@, selection(config.providers@, Some(list@))),
            None => refs_match(r@, selection(config.providers@, None)),
        },
{
    match cli_providers {
        Some(list) => select_from_list(config, list),
        None => config.get_default_providers(),
    }
}

/// The effective provider list, or the fatal configuration error of an empty
/// selection.
pub fn resolve_providers<'a>(config: &'a Config, cli_providers: Option<&str>) -> (r: Result<
    Vec<&'a PushProvider>,
    String,
>)
    ensures
        ({
            let sel = selection(
                config.providers@,
                match cli_providers {
                    Some(list) => Some(list@),
                    None => None,
                },
            );
            match r {
                Ok(v) => sel.len() > 0 && refs_match(v@, sel),
                Err(e) => sel.len() == 0 && e@ == "No valid providers specified"@,
            }
        }),
{
    let v = select_providers(config, cli_providers);
    if v.len() == 0 {
        Err("No valid providers specified".to_owned())
    } else {
        Ok(v)
    }
}

} // verus!
