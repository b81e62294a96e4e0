//! Creating a record.
use vstd::prelude::*;

use crate::entities::{
    blank, strings_view, valid_types, PokemonName, PokemonNumber, PokemonTypes, PokemonView,
};
use crate::repositories::pokemon::{has_number, InsertError, Repository, unique_numbers};

verus! {

pub struct Request {
    pub number: u16,
    pub name: String,
    pub types: Vec<String>,
}

impl View for Request {
    type V = PokemonView;

    open spec fn view(&self) -> PokemonView {
        PokemonView { number: self.number, name: self.name@, types: strings_view(self.types@) }
    }
}

pub struct Response {
    pub number: u16,
    pub name: String,
    pub types: Vec<String>,
}

impl View for Response {
    type V = PokemonView;

    open spec fn view(&self) -> PokemonView {
        PokemonView { number: self.number, name: self.name@, types: strings_view(self.types@) }
    }
}

#[derive(Debug)]
pub enum Error {
    BadRequest,
    Conflict,
    Unknown,
}

/// Every part of the record would pass validation.
pub open spec fn valid_request(r: PokemonView) -> bool {
    r.number > 0 && !blank(r.name) && valid_types(r.types)
}

/// What a call of `execute` on a store `before` may return and leave: a
/// request that fails validation is refused before the store is touched;
/// otherwise the record is added at the end, or refused because its number
/// is taken, or the backend fails and nothing changes.
pub open spec fn outcome<R: Repository>(
    before: R,
    req: Request,
    r: Result<Response, Error>,
    after: R,
) -> bool {
    &&& after.forced_failure() == before.forced_failure()
    &&& after.dependable() == before.dependable()
    &&& if !valid_request(req@) {
        r is Err && r->Err_0 is BadRequest && after.records() == before.records()
    } else {
        &&& unique_numbers(before.records())
        &&& unique_numbers(after.records())
        &&& match r {
            Ok(res) => {
                &&& !before.forced_failure()
                &&& !has_number(before.records(), req.number)
                &&& res@ == req@
                &&& after.records() == before.records().push(req@)
            },
            Err(Error::Conflict) => {
                &&& !before.forced_failure()
                &&& has_number(before.records(), req.number)
                &&& after.records() == before.records()
            },
            Err(Error::Unknown) => {
                &&& !before.dependable()
                &&& after.records() == before.records()
            },
            Err(Error::BadRequest) => false,
        }
    }
}

/// Validates the request and stores it as a new record.
pub fn execute<R: Repository>(repo: &mut R, req: Request) -> (r: Result<Response, Error>)
    ensures
        outcome(*old(repo), req, r, *final(repo)),
        old(repo).forced_failure() && valid_request(req@) ==> r is Err && r->Err_0 is Unknown
            && final(repo).records() == old(repo).records(),
{
    match (
        PokemonNumber::try_from(req.number),
        PokemonName::try_from(req.name),
        PokemonTypes::try_from(req.types),
    ) {
        (Ok(number), Ok(name), Ok(types)) => match repo.insert(number, name, types) {
            Ok(p) => Ok(Response {
                number: p.number.value(),
                name: p.name.value(),
                types: p.types.value(),
            }),
            Err(InsertError::Conflict) => Err(Error::Conflict),
            Err(InsertError::Unknown) => Err(Error::Unknown),
        },
        _ => Err(Error::BadRequest),
    }
}

} // verus!
