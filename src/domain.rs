//! The use cases: each validates its raw input, makes one call to the
//! storage contract and maps the outcome.
pub mod create_pokemon;
pub mod delete_pokemon;
pub mod fetch_all_pokemons;
pub mod fetch_pokemon;
pub mod fetch_pokemons_by_name;
