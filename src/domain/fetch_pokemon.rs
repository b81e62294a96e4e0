//! Fetching one record by its number.
use vstd::prelude::*;

use crate::entities::{strings_view, PokemonNumber, PokemonView};
use crate::repositories::pokemon::{has_number, unique_numbers, FetchOneError, Repository};

verus! {

pub struct Request {
    pub number: u16,
}

pub struct Response {
    pub number: u16,
    pub name: String,
    pub types: Vec<String>,
}

impl View for Response {
    type V = PokemonView;

    open spec fn view(&self) -> PokemonView {
        PokemonView { number: self.number, name: self.name@, types: strings_view(self.types@) }
    }
}

#[derive(Debug)]
pub enum Error {
    BadRequest,
    NotFound,
    Unknown,
}

/// What a call of `execute` on `repo` may return: zero is refused before
/// the store is asked; otherwise the stored record with that number, or a
/// report that none is stored, or a failure of the backend.
pub open spec fn outcome<R: Repository>(repo: R, req: Request, r: Result<Response, Error>) -> bool {
    if req.number == 0 {
        r is Err && r->Err_0 is BadRequest
    } else {
        &&& unique_numbers(repo.records())
        &&& match r {
            Ok(res) => {
                &&& !repo.forced_failure()
                &&& res@.number == req.number
                &&& exists|i: int| 0 <= i < repo.records().len() && #[trigger] repo.records()[i] == res@
            },
            Err(Error::NotFound) => !repo.forced_failure() && !has_number(repo.records(), req.number),
            Err(Error::Unknown) => !repo.dependable(),
            Err(Error::BadRequest) => false,
        }
    }
}

/// The stored record with the requested number.
pub fn execute<R: Repository>(repo: &R, req: Request) -> (r: Result<Response, Error>)
    ensures
        outcome(*repo, req, r),
        repo.forced_failure() && req.number > 0 ==> r is Err && r->Err_0 is Unknown,
{
    match PokemonNumber::try_from(req.number) {
        Ok(number) => match repo.fetch_one(number) {
            Ok(p) => Ok(Response {
                number: p.number.value(),
                name: p.name.value(),
                types: p.types.value(),
            }),
            Err(FetchOneError::NotFound) => Err(Error::NotFound),
            Err(FetchOneError::Unknown) => Err(Error::Unknown),
        },
        Err(()) => Err(Error::BadRequest),
    }
}

} // verus!
