//! Deleting a record by its number.
use vstd::prelude::*;

use crate::entities::PokemonNumber;
use crate::repositories::pokemon::{has_number, DeleteError, Repository, unique_numbers};

verus! {

pub struct Request {
    pub number: u16,
}

#[derive(Debug)]
pub enum Error {
    BadRequest,
    NotFound,
    Unknown,
}

/// What a call of `execute` on a store `before` may return and leave: zero
/// is refused before the store is touched; otherwise the record with that
/// number is removed, or reported missing, or the backend fails and nothing
/// changes.
pub open spec fn outcome<R: Repository>(
    before: R,
    req: Request,
    r: Result<(), Error>,
    after: R,
) -> bool {
    &&& after.forced_failure() == before.forced_failure()
    &&& after.dependable() == before.dependable()
    &&& if req.number == 0 {
        r is Err && r->Err_0 is BadRequest && after.records() == before.records()
    } else {
        &&& unique_numbers(before.records())
        &&& unique_numbers(after.records())
        &&& match r {
            Ok(()) => {
                &&& !before.forced_failure()
                &&& exists|i: int|
                    0 <= i < before.records().len() && (#[trigger] before.records()[i]).number
                        == req.number && after.records() == before.records().remove(i)
            },
            Err(Error::NotFound) => {
                &&& !before.forced_failure()
                &&& !has_number(before.records(), req.number)
                &&& after.records() == before.records()
            },
            Err(Error::Unknown) => {
                &&& !before.dependable()
                &&& after.records() == before.records()
            },
            Err(Error::BadRequest) => false,
        }
    }
}

/// Removes the record with the requested number.
pub fn execute<R: Repository>(repo: &mut R, req: Request) -> (r: Result<(), Error>)
    ensures
        outcome(*old(repo), req, r, *final(repo)),
        old(repo).forced_failure() && req.number > 0 ==> r is Err && r->Err_0 is Unknown
            && final(repo).records() == old(repo).records(),
{
    match PokemonNumber::try_from(req.number) {
        Ok(number) => match repo.delete(number) {
            Ok(()) => Ok(()),
            Err(DeleteError::NotFound) => Err(Error::NotFound),
            Err(DeleteError::Unknown) => Err(Error::Unknown),
        },
        Err(()) => Err(Error::BadRequest),
    }
}

} // verus!
