//! What holds across calls of the use cases, proved from their contracts.
use vstd::prelude::*;

use crate::domain::{
    create_pokemon, delete_pokemon, fetch_all_pokemons, fetch_pokemon, fetch_pokemons_by_name,
};
use crate::entities::PokemonView;
use crate::repositories::pokemon::{has_number, unique_numbers, Repository};

verus! {

/// The records that keep their place when the one numbered `n` leaves.
pub open spec fn without_number(s: Seq<PokemonView>, n: u16) -> Seq<PokemonView> {
    s.filter(|p: PokemonView| p.number != n)
}

proof fn lemma_filter_keeps_all(s: Seq<PokemonView>, pred: spec_fn(PokemonView) -> bool)
    requires
        forall|i: int| 0 <= i < s.len() ==> pred(#[trigger] s[i]),
    ensures
        s.filter(pred) == s,
    decreases s.len(),
{
    reveal(Seq::filter);
    if s.len() > 0 {
        lemma_filter_keeps_all(s.drop_last(), pred);
        assert(s.drop_last().push(s.last()) =~= s);
    }
}

/// In a store without repeated numbers, removing the record numbered `n`
/// is filtering it out.
pub proof fn lemma_remove_is_without(s: Seq<PokemonView>, i: int, n: u16)
    requires
        unique_numbers(s),
        0 <= i < s.len(),
        s[i].number == n,
    ensures
        s.remove(i) == without_number(s, n),
{
    let pred = |p: PokemonView| p.number != n;
    let a = s.subrange(0, i);
    let x = seq![s[i]];
    let b = s.subrange(i + 1, s.len() as int);
    assert(s =~= a + x + b);
    assert(s.remove(i) =~= a + b);
    assert forall|k: int| 0 <= k < a.len() implies pred(#[trigger] a[k]) by {
        assert(s[k].number != s[i].number);
    }
    assert forall|k: int| 0 <= k < b.len() implies pred(#[trigger] b[k]) by {
        assert(s[k + i + 1].number != s[i].number);
    }
    lemma_filter_keeps_all(a, pred);
    lemma_filter_keeps_all(b, pred);
    lemma_filter_keeps_all(Seq::<PokemonView>::empty(), pred);
    Seq::<PokemonView>::empty().lemma_filter_push(s[i], pred);
    assert(Seq::<PokemonView>::empty().push(s[i]) =~= x);
    Seq::filter_distributes_over_add(a + x, b, pred);
    Seq::filter_distributes_over_add(a, x, pred);
    assert(a + b =~= a + Seq::<PokemonView>::empty() + b);
}

/// Creating a valid record whose number is free, then fetching that number,
/// gives back the record as it was given, unless the backend failed; a
/// backend that never fails gives it back for sure.
pub proof fn create_then_fetch<R: Repository>(
    before: R,
    req: create_pokemon::Request,
    created: Result<create_pokemon::Response, create_pokemon::Error>,
    after: R,
    fetched: Result<fetch_pokemon::Response, fetch_pokemon::Error>,
)
    requires
        create_pokemon::valid_request(req@),
        !has_number(before.records(), req.number),
        create_pokemon::outcome(before, req, created, after),
        fetch_pokemon::outcome(after, (fetch_pokemon::Request { number: req.number }), fetched),
    ensures
        created is Ok || created->Err_0 is Unknown,
        created is Ok ==> created->Ok_0@ == req@,
        created is Ok ==> fetched is Ok && fetched->Ok_0@ == req@ || fetched->Err_0 is Unknown,
        before.dependable() ==> created is Ok && fetched is Ok && fetched->Ok_0@ == req@,
{
    if created is Ok {
        let s = after.records();
        assert(s[s.len() - 1] == req@);
        assert(has_number(s, req.number));
        if fetched is Ok {
            let i = choose|i: int| 0 <= i < s.len() && #[trigger] s[i] == fetched->Ok_0@;
            if i != s.len() - 1 {
                assert(s[i] == before.records()[i]);
                assert(has_number(before.records(), req.number));
            }
        }
    }
}

/// Creating a record under a number that a successful creation has just
/// taken is refused as a conflict (or fails in the backend), and the store
/// keeps the first record.
pub proof fn create_twice<R: Repository>(
    before: R,
    first: create_pokemon::Request,
    r1: Result<create_pokemon::Response, create_pokemon::Error>,
    middle: R,
    second: create_pokemon::Request,
    r2: Result<create_pokemon::Response, create_pokemon::Error>,
    after: R,
)
    requires
        create_pokemon::valid_request(second@),
        first.number == second.number,
        create_pokemon::outcome(before, first, r1, middle),
        r1 is Ok,
        create_pokemon::outcome(middle, second, r2, after),
    ensures
        r2 is Err,
        r2->Err_0 is Conflict || r2->Err_0 is Unknown,
        middle.dependable() ==> r2->Err_0 is Conflict,
        after.records() == before.records().push(first@),
{
    let s = middle.records();
    assert(s[s.len() - 1].number == second.number);
    assert(has_number(s, second.number));
}

/// Deleting a number that no stored record has reports it missing (or fails
/// in the backend), and changes nothing.
pub proof fn delete_missing<R: Repository>(
    before: R,
    req: delete_pokemon::Request,
    r: Result<(), delete_pokemon::Error>,
    after: R,
)
    requires
        req.number > 0,
        !has_number(before.records(), req.number),
        delete_pokemon::outcome(before, req, r, after),
    ensures
        r is Err,
        r->Err_0 is NotFound || r->Err_0 is Unknown,
        before.dependable() ==> r->Err_0 is NotFound,
        after.records() == before.records(),
{
}

/// Deleting the same number again, right after it was deleted, reports it
/// missing (or fails in the backend).
pub proof fn delete_twice<R: Repository>(
    before: R,
    req: delete_pokemon::Request,
    r1: Result<(), delete_pokemon::Error>,
    middle: R,
    again: delete_pokemon::Request,
    r2: Result<(), delete_pokemon::Error>,
    after: R,
)
    requires
        again.number == req.number,
        delete_pokemon::outcome(before, req, r1, middle),
        r1 is Ok,
        delete_pokemon::outcome(middle, again, r2, after),
    ensures
        r2 is Err,
        r2->Err_0 is NotFound || r2->Err_0 is Unknown,
        middle.dependable() ==> r2->Err_0 is NotFound,
        after.records() == middle.records(),
{
    let s = before.records();
    let i = choose|i: int|
        0 <= i < s.len() && (#[trigger] s[i]).number == req.number && middle.records()
            == s.remove(i);
    assert forall|k: int| 0 <= k < middle.records().len() implies (#[trigger] middle.records()[
        k
    ]).number != req.number by {
        if k < i {
            assert(middle.records()[k] == s[k]);
        } else {
            assert(middle.records()[k] == s[k + 1]);
        }
    }
}

/// After a successful creation, fetching everything lists the records that
/// were there, in their order, then the new one.
pub proof fn create_then_fetch_all<R: Repository>(
    before: R,
    req: create_pokemon::Request,
    created: Result<create_pokemon::Response, create_pokemon::Error>,
    after: R,
    all: Result<Vec<fetch_all_pokemons::Response>, fetch_all_pokemons::Error>,
)
    requires
        create_pokemon::outcome(before, req, created, after),
        created is Ok,
        fetch_all_pokemons::outcome(after, all),
    ensures
        all is Ok ==> fetch_all_pokemons::responses_view(all->Ok_0@) == before.records().push(
            req@,
        ),
        after.dependable() ==> all is Ok,
{
}

/// After a successful deletion, fetching everything lists the other records
/// in the order they had.
pub proof fn delete_then_fetch_all<R: Repository>(
    before: R,
    req: delete_pokemon::Request,
    deleted: Result<(), delete_pokemon::Error>,
    after: R,
    all: Result<Vec<fetch_all_pokemons::Response>, fetch_all_pokemons::Error>,
)
    requires
        delete_pokemon::outcome(before, req, deleted, after),
        deleted is Ok,
        fetch_all_pokemons::outcome(after, all),
    ensures
        all is Ok ==> fetch_all_pokemons::responses_view(all->Ok_0@) == without_number(
            before.records(),
            req.number,
        ),
        has_number(before.records(), req.number),
        after.records().len() == before.records().len() - 1,
        after.dependable() ==> all is Ok,
{
    let s = before.records();
    let i = choose|i: int|
        0 <= i < s.len() && (#[trigger] s[i]).number == req.number && after.records()
            == s.remove(i);
    lemma_remove_is_without(s, i, req.number);
}

/// Fetching everything twice from an unchanged store gives the same list.
pub proof fn fetch_all_twice<R: Repository>(
    repo: R,
    first: Result<Vec<fetch_all_pokemons::Response>, fetch_all_pokemons::Error>,
    second: Result<Vec<fetch_all_pokemons::Response>, fetch_all_pokemons::Error>,
)
    requires
        fetch_all_pokemons::outcome(repo, first),
        fetch_all_pokemons::outcome(repo, second),
    ensures
        first is Ok && second is Ok ==> fetch_all_pokemons::responses_view(first->Ok_0@)
            == fetch_all_pokemons::responses_view(second->Ok_0@),
        repo.dependable() ==> first is Ok && second is Ok,
{
}

/// A store put in failure mode answers every use case with `Unknown` once
/// the input is valid, and is left as it was.
pub proof fn forced_failure_reports_unknown<R: Repository>(
    repo: R,
    create: create_pokemon::Request,
    created: Result<create_pokemon::Response, create_pokemon::Error>,
    after_create: R,
    delete: delete_pokemon::Request,
    deleted: Result<(), delete_pokemon::Error>,
    after_delete: R,
    fetch: fetch_pokemon::Request,
    fetched: Result<fetch_pokemon::Response, fetch_pokemon::Error>,
    all: Result<Vec<fetch_all_pokemons::Response>, fetch_all_pokemons::Error>,
    by_name: fetch_pokemons_by_name::Request,
    named: Result<Vec<fetch_pokemons_by_name::Response>, fetch_pokemons_by_name::Error>,
)
    requires
        repo.forced_failure(),
        create_pokemon::valid_request(create@),
        delete.number > 0,
        fetch.number > 0,
        create_pokemon::outcome(repo, create, created, after_create),
        delete_pokemon::outcome(repo, delete, deleted, after_delete),
        fetch_pokemon::outcome(repo, fetch, fetched),
        fetch_all_pokemons::outcome(repo, all),
        fetch_pokemons_by_name::outcome(repo, by_name, named),
    ensures
        created is Err && created->Err_0 is Unknown,
        after_create.records() == repo.records(),
        after_create.forced_failure(),
        deleted is Err && deleted->Err_0 is Unknown,
        after_delete.records() == repo.records(),
        after_delete.forced_failure(),
        fetched is Err && fetched->Err_0 is Unknown,
        all is Err,
        named is Err,
{
}

} // verus!
