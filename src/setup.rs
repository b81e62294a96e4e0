//! Choosing the backend a process runs with.
use vstd::prelude::*;

use crate::repositories::pokemon::{InMemoryRepository, Repository};
use crate::entities::PokemonView;

verus! {

/// The backend picked from the command line: a remote table, a SQLite file,
/// or (by default) an empty in-memory store.
pub enum Backend {
    Airtable { api_key: String, workspace_id: String },
    Sqlite { path: String },
    InMemory(InMemoryRepository),
}

/// Airtable credentials win over a SQLite path; with neither, the store is
/// kept in memory.
pub fn build_repo(sqlite_value: Option<&str>, airtable_values: Option<(&str, &str)>) -> (r: Backend)
    ensures
        match airtable_values {
            Some((key, workspace)) => r matches Backend::Airtable { api_key, workspace_id }
                && api_key@ == key@ && workspace_id@ == workspace@,
            None => match sqlite_value {
                Some(p) => r matches Backend::Sqlite { path } && path@ == p@,
                None => r matches Backend::InMemory(repo) && repo.records() == Seq::<
                    PokemonView,
                >::empty() && repo.dependable() && !repo.forced_failure(),
            },
        },
{
    if let Some(values) = airtable_values {
        return Backend::Airtable { api_key: values.0.to_owned(), workspace_id: values.1.to_owned() };
    }
    if let Some(path) = sqlite_value {
        return Backend::Sqlite { path: path.to_owned() };
    }
    Backend::InMemory(InMemoryRepository::new())
}

} // verus!
