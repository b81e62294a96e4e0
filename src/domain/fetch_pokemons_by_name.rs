//! Fetching the records whose name contains a given text.
use vstd::prelude::*;

use crate::entities::{strings_view, Pokemon, PokemonView};
use crate::repositories::pokemon::{named_like, pokemons_view, FetchAllError, Repository};

verus! {

pub struct Response {
    pub number: u16,
    pub name: String,
    pub types: Vec<String>,
}

impl View for Response {
    type V = PokemonView;

    open spec fn view(&self) -> PokemonView {
        PokemonView { number: self.number, name: self.name@, types: strings_view(self.types@) }
    }
}

/// The views of a list of responses.
pub open spec fn responses_view(v: Seq<Response>) -> Seq<PokemonView> {
    v.map_values(|r: Response| r@)
}

pub struct Request {
    pub name: String,
}

#[derive(Debug)]
pub enum Error {
    Unknown,
}

/// One response for each record, in the same order.
pub fn to_responses(pokemons: &Vec<Pokemon>) -> (r: Vec<Response>)
    ensures
        responses_view(r@) == pokemons_view(pokemons@),
{
    let mut r: Vec<Response> = Vec::new();
    let mut i: usize = 0;
    while i < pokemons.len()
        invariant
            i <= pokemons.len(),
            responses_view(r@) == pokemons_view(pokemons@).subrange(0, i as int),
        decreases pokemons.len() - i,
    {
        let p = &pokemons[i];
        let res = Response { number: p.number.value(), name: p.name.value(), types: p.types.value() };
        let ghost before = r@;
        r.push(res);
        assert(responses_view(r@) =~= responses_view(before).push(p@));
        assert(pokemons_view(pokemons@).subrange(0, i + 1) =~= pokemons_view(pokemons@).subrange(
            0,
            i as int,
        ).push(p@));
        i = i + 1;
    }
    assert(pokemons_view(pokemons@).subrange(0, i as int) =~= pokemons_view(pokemons@));
    r
}

/// What a call of `execute` on `repo` may return: the stored records whose
/// name contains the requested text (case-sensitive), in storage order, or a
/// failure of the backend.
pub open spec fn outcome<R: Repository>(repo: R, req: Request, r: Result<Vec<Response>, Error>) -> bool {
    match r {
        Ok(v) => !repo.forced_failure() && responses_view(v@) == named_like(repo.records(), req.name@),
        Err(Error::Unknown) => !repo.dependable(),
    }
}

/// The stored records whose name contains the requested text, in storage
/// order.
pub fn execute<R: Repository>(repo: &R, req: Request) -> (r: Result<Vec<Response>, Error>)
    ensures
        outcome(*repo, req, r),
        repo.forced_failure() ==> r is Err,
{
    match repo.fetch_by_name(req.name.as_str()) {
        Ok(pokemons) => Ok(to_responses(&pokemons)),
        Err(FetchAllError::Unknown) => Err(Error::Unknown),
    }
}

} // verus!
