//! Checks and selections that several subcommands share.

use crate::consts::WASM_TARGET;
use crate::errors::{Error, ErrorKind};
use crate::odra_toml::{fqn_struct_name, registry_has_contract, Contract, OdraToml};
use crate::project::{holds_name, Failure};
use crate::text::{
    chars_of, contains, contains_text, fields, is_whitespace, is_whitespace_char, split_fields,
};
use vstd::prelude::*;
use vstd::string::*;

verus! {

/// `s` holds a whitespace character other than the space.
pub open spec fn has_foreign_whitespace(s: Seq<char>) -> bool {
    exists|i: int| 0 <= i < s.len() && is_whitespace_char(#[trigger] s[i]) && s[i] != ' '
}

/// The failure of a filter that cannot be parsed.
pub open spec fn filter_failure() -> Failure {
    (ErrorKind::FailedToParseArgument, "contracts_names"@)
}

/// The names that a filter lists: its runs of characters between spaces.
/// A filter that holds a tab, a line break or any other whitespace but
/// the space is refused. An empty filter, or one of spaces only, lists no
/// name.
pub open spec fn parsed_names(s: Seq<char>) -> Result<Seq<Seq<char>>, Failure> {
    if has_foreign_whitespace(s) {
        Err(filter_failure())
    } else {
        Ok(fields(s, ' '))
    }
}

/// The contracts among `contracts` whose type is named in `names`, in
/// their order; all of them where `names` is empty.
pub open spec fn selected(contracts: Seq<Seq<char>>, names: Seq<Seq<char>>) -> Seq<Seq<char>>
    decreases contracts.len(),
{
    if names.len() == 0 {
        contracts
    } else if contracts.len() == 0 {
        Seq::<Seq<char>>::empty()
    } else {
        let front = selected(contracts.drop_last(), names);
        if names.contains(fqn_struct_name(contracts.last())) {
            front.push(contracts.last())
        } else {
            front
        }
    }
}

/// The place of the first of `names` that no contract of the registry is
/// called; -1 where each is known.
pub open spec fn first_unknown(contracts: Seq<Seq<char>>, names: Seq<Seq<char>>) -> int
    decreases names.len(),
{
    if names.len() == 0 {
        -1
    } else if !registry_has_contract(contracts, names[0]) {
        0
    } else {
        let rest = first_unknown(contracts, names.subrange(1, names.len() as int));
        if rest < 0 {
            -1
        } else {
            rest + 1
        }
    }
}

/// What the check of a filter against the registry gives: nothing where
/// every name is known, else the failure that names the first unknown one.
pub open spec fn validated(contracts: Seq<Seq<char>>, filter: Seq<char>) -> Result<(), Failure> {
    match parsed_names(filter) {
        Err(e) => Err(e),
        Ok(names) => {
            let i = first_unknown(contracts, names);
            if 0 <= i < names.len() {
                Err((ErrorKind::ContractNotFound, names[i]))
            } else {
                Ok(())
            }
        },
    }
}

/// The contracts that a filter selects from the registry.
pub open spec fn contracts_of(contracts: Seq<Seq<char>>, filter: Seq<char>) -> Result<
    Seq<Seq<char>>,
    Failure,
> {
    match parsed_names(filter) {
        Err(e) => Err(e),
        Ok(names) => Ok(selected(contracts, names)),
    }
}

/// What the place of the first unknown name is: a name that no contract of
/// the registry is called, with each before it known.
pub proof fn lemma_first_unknown(contracts: Seq<Seq<char>>, names: Seq<Seq<char>>)
    ensures
        -1 <= first_unknown(contracts, names) < names.len(),
        first_unknown(contracts, names) >= 0 ==> !registry_has_contract(
            contracts,
            names[first_unknown(contracts, names)],
        ),
        forall|k: int|
            0 <= k < names.len() && (first_unknown(contracts, names) < 0 || k < first_unknown(
                contracts,
                names,
            )) ==> registry_has_contract(contracts, #[trigger] names[k]),
    decreases names.len(),
{
    if names.len() > 0 && registry_has_contract(contracts, names[0]) {
        let rest = names.subrange(1, names.len() as int);
        lemma_first_unknown(contracts, rest);
        assert forall|k: int|
            0 <= k < names.len() && (first_unknown(contracts, names) < 0 || k < first_unknown(
                contracts,
                names,
            )) implies registry_has_contract(contracts, #[trigger] names[k]) by {
            if k > 0 {
                assert(names[k] == rest[k - 1]);
            }
        }
    }
}

/// Every selected contract is a contract of the registry, and where the
/// filter names types, the type of each selected contract is named.
pub proof fn lemma_selected_sound(contracts: Seq<Seq<char>>, names: Seq<Seq<char>>)
    ensures
        forall|i: int|
            0 <= i < selected(contracts, names).len() ==> contracts.contains(
                #[trigger] selected(contracts, names)[i],
            ),
        names.len() > 0 ==> forall|i: int|
            0 <= i < selected(contracts, names).len() ==> names.contains(
                fqn_struct_name(#[trigger] selected(contracts, names)[i]),
            ),
    decreases contracts.len(),
{
    let sel = selected(contracts, names);
    if names.len() == 0 {
        assert forall|i: int| 0 <= i < sel.len() implies contracts.contains(#[trigger] sel[i]) by {
            assert(contracts[i] == sel[i]);
        }
    } else if contracts.len() > 0 {
        let front = contracts.drop_last();
        lemma_selected_sound(front, names);
        let fsel = selected(front, names);
        assert forall|i: int| 0 <= i < sel.len() implies contracts.contains(#[trigger] sel[i])
            && names.contains(fqn_struct_name(sel[i])) by {
            if i < fsel.len() {
                assert(sel[i] == fsel[i]);
                let j = choose|j: int| 0 <= j < front.len() && front[j] == fsel[i];
                assert(contracts[j] == front[j]);
            } else {
                assert(sel[i] == contracts.last());
                assert(contracts[contracts.len() - 1] == contracts.last());
            }
        }
    }
}

/// Whether the compilation target for contracts is among the installed
/// ones, which `installed` lists as the toolchain printed them.
pub fn check_target_requirements(installed: &str) -> (r: Result<(), Error>)
    ensures
        contains_text(installed@, WASM_TARGET@) ==> r is Ok,
        !contains_text(installed@, WASM_TARGET@) ==> r is Err && r->Err_0@ == (
            ErrorKind::WasmTargetNotInstalled,
            Seq::<char>::empty(),
        ),
{
    if contains(installed, WASM_TARGET) {
        Ok(())
    } else {
        Err(Error::WasmTargetNotInstalled)
    }
}

/// Whether `input` holds a whitespace character other than the space.
pub fn holds_foreign_whitespace(input: &str) -> (r: bool)
    ensures
        r == has_foreign_whitespace(input@),
{
    let v = chars_of(input);
    let mut i: usize = 0;
    while i < v.len()
        invariant
            v@ == input@,
            i <= v.len(),
            forall|k: int| 0 <= k < i ==> !(is_whitespace_char(#[trigger] v@[k]) && v@[k] != ' '),
        decreases v.len() - i,
    {
        if is_whitespace(v[i]) && v[i] != ' ' {
            return true;
        }
        i = i + 1;
    }
    false
}

/// `input` with one space between its words and none around them; an
/// input that holds whitespace other than the space is refused.
pub fn remove_extra_spaces(input: &str) -> (r: Result<String, Error>)
    ensures
        has_foreign_whitespace(input@) ==> r is Err && r->Err_0@ == filter_failure(),
        !has_foreign_whitespace(input@) ==> r is Ok && r->Ok_0@ == crate::command::spaced(
            fields(input@, ' '),
        ),
{
    if holds_foreign_whitespace(input) {
        return Err(Error::FailedToParseArgument(String::from_str("contracts_names")));
    }
    let words = split_fields(input, ' ');
    Ok(crate::command::join_spaced(&words))
}

/// The names that the filter `names_string` lists.
pub fn parse_contracts_names(names_string: &str) -> (r: Result<Vec<String>, Error>)
    ensures
        match r {
            Ok(names) => parsed_names(names_string@) == Ok::<Seq<Seq<char>>, Failure>(
                names.deep_view(),
            ),
            Err(e) => parsed_names(names_string@) == Err::<Seq<Seq<char>>, Failure>(e@),
        },
{
    if holds_foreign_whitespace(names_string) {
        return Err(Error::FailedToParseArgument(String::from_str("contracts_names")));
    }
    Ok(split_fields(names_string, ' '))
}

/// The contracts of `contracts` that `names` selects.
pub fn select_contracts(contracts: &Vec<Contract>, names: &Vec<String>) -> (r: Vec<Contract>)
    ensures
        r.deep_view() == selected(contracts.deep_view(), names.deep_view()),
{
    let ghost all = contracts.deep_view();
    let ghost ns = names.deep_view();
    let mut out: Vec<Contract> = Vec::new();
    let mut i: usize = 0;
    if names.len() == 0 {
        while i < contracts.len()
            invariant
                all == contracts.deep_view(),
                i <= contracts.len(),
                out.len() == i,
                forall|k: int| 0 <= k < i ==> (#[trigger] out[k])@ == all[k],
            decreases contracts.len() - i,
        {
            assert(all[i as int] == contracts[i as int]@);
            out.push(contracts[i].clone());
            i = i + 1;
        }
        assert(out.deep_view() =~= all);
        return out;
    }
    assert(all.subrange(0, 0) =~= Seq::<Seq<char>>::empty());
    assert(out.deep_view() =~= Seq::<Seq<char>>::empty());
    while i < contracts.len()
        invariant
            all == contracts.deep_view(),
            ns == names.deep_view(),
            ns.len() > 0,
            i <= contracts.len(),
            out.deep_view() == selected(all.subrange(0, i as int), ns),
        decreases contracts.len() - i,
    {
        proof {
            let next = all.subrange(0, i + 1);
            assert(next.drop_last() =~= all.subrange(0, i as int));
            assert(next.last() == contracts[i as int]@);
        }
        let name = contracts[i].struct_name();
        if holds_name(names, name.as_str()) {
            let ghost before = out.deep_view();
            let c = contracts[i].clone();
            out.push(c);
            assert(out.deep_view() =~= before.push(contracts[i as int]@));
        }
        i = i + 1;
    }
    assert(all.subrange(0, i as int) =~= all);
    out
}

/// The contracts to process: those of `registry` that the filter
/// `names_string` selects.
pub fn contracts(registry: &OdraToml, names_string: &str) -> (r: Result<Vec<Contract>, Error>)
    ensures
        match r {
            Ok(list) => contracts_of(registry.contracts.deep_view(), names_string@) == Ok::<
                Seq<Seq<char>>,
                Failure,
            >(list.deep_view()),
            Err(e) => contracts_of(registry.contracts.deep_view(), names_string@) == Err::<
                Seq<Seq<char>>,
                Failure,
            >(e@),
        },
{
    let names = parse_contracts_names(names_string)?;
    Ok(select_contracts(&registry.contracts, &names))
}

/// Checks that every contract that the filter `names_string` names is in
/// `registry`.
pub fn validate_contract_name_argument(registry: &OdraToml, names_string: &str) -> (r: Result<
    (),
    Error,
>)
    ensures
        match r {
            Ok(_) => validated(registry.contracts.deep_view(), names_string@) is Ok,
            Err(e) => validated(registry.contracts.deep_view(), names_string@) == Err::<
                (),
                Failure,
            >(e@),
        },
{
    let names = parse_contracts_names(names_string)?;
    let ghost ns = names.deep_view();
    let ghost all = registry.contracts.deep_view();
    let mut i: usize = 0;
    while i < names.len()
        invariant
            ns == names.deep_view(),
            all == registry.contracts.deep_view(),
            parsed_names(names_string@) == Ok::<Seq<Seq<char>>, Failure>(ns),
            i <= names.len(),
            forall|k: int| 0 <= k < i ==> registry_has_contract(all, #[trigger] ns[k]),
        decreases names.len() - i,
    {
        assert(ns[i as int] == names[i as int]@);
        if !registry.has_contract(names[i].as_str()) {
            proof {
                lemma_first_unknown(all, ns);
            }
            return Err(Error::ContractNotFound(names[i].clone()));
        }
        i = i + 1;
    }
    proof {
        lemma_first_unknown(all, ns);
    }
    Ok(())
}

} // verus!
