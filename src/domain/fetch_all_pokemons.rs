//! Fetching every record.
use vstd::prelude::*;

use crate::entities::{strings_view, Pokemon, PokemonView};
use crate::repositories::pokemon::{pokemons_view, FetchAllError, Repository};

verus! {

pub struct Response {
    pub number: u16,
    pub name: String,
    pub types: Vec<String>,
}

impl View for Response {
    type V = PokemonView;

    open spec fn view(&self) -> PokemonView {
        PokemonView { number: self.number, name: self.name@, types: strings_view(self.types@) }
    }
}

/// The views of a list of responses.
pub open spec fn responses_view(v: Seq<Response>) -> Seq<PokemonView> {
    v.map_values(|r: Response| r@)
}

#[derive(Debug)]
pub enum Error {
    Unknown,
}

/// One response for each record, in the same order.
pub fn to_responses(pokemons: &Vec<Pokemon>) -> (r: Vec<Response>)
    ensures
        responses_view(r@) == pokemons_view(pokemons@),
{
    let mut r: Vec<Response> = Vec::new();
    let mut i: usize = 0;
    while i < pokemons.len()
        invariant
            i <= pokemons.len(),
            responses_view(r@) == pokemons_view(pokemons@).subrange(0, i as int),
        decreases pokemons.len() - i,
    {
        let p = &pokemons[i];
        let res = Response { number: p.number.value(), name: p.name.value(), types: p.types.value() };
        let ghost before = r@;
        r.push(res);
        assert(responses_view(r@) =~= responses_view(before).push(p@));
        assert(pokemons_view(pokemons@).subrange(0, i + 1) =~= pokemons_view(pokemons@).subrange(
            0,
            i as int,
        ).push(p@));
        i = i + 1;
    }
    assert(pokemons_view(pokemons@).subrange(0, i as int) =~= pokemons_view(pokemons@));
    r
}

/// What a call of `execute` on `repo` may return: every stored record in
/// storage order, or a failure of the backend.
pub open spec fn outcome<R: Repository>(repo: R, r: Result<Vec<Response>, Error>) -> bool {
    match r {
        Ok(v) => !repo.forced_failure() && responses_view(v@) == repo.records(),
        Err(Error::Unknown) => !repo.dependable(),
    }
}

/// Every stored record, in storage order.
pub fn execute<R: Repository>(repo: &R) -> (r: Result<Vec<Response>, Error>)
    ensures
        outcome(*repo, r),
        repo.forced_failure() ==> r is Err,
{
    match repo.fetch_all() {
        Ok(pokemons) => Ok(to_responses(&pokemons)),
        Err(FetchAllError::Unknown) => Err(Error::Unknown),
    }
}

} // verus!
