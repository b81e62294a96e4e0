use pokedex::domain::fetch_pokemons_by_name::{execute, Error, Request};
use pokedex::entities::{PokemonName, PokemonNumber, PokemonTypes};
use pokedex::repositories::pokemon::{contains_str, InMemoryRepository, Repository};

fn number(n: u16) -> PokemonNumber {
    PokemonNumber::try_from(n).unwrap()
}

fn name(s: &str) -> PokemonName {
    PokemonName::try_from(String::from(s)).unwrap()
}

fn types(t: &str) -> PokemonTypes {
    PokemonTypes::try_from(vec![String::from(t)]).unwrap()
}

fn three_records() -> InMemoryRepository {
    let mut repo = InMemoryRepository::new();
    repo.insert(number(1), name("Apikachu"), types("Fire")).ok();
    repo.insert(number(25), name("Pikachu"), types("Electric")).ok();
    repo.insert(number(4), name("Charmander"), types("Fire")).ok();
    repo
}

#[test]
fn it_should_return_an_unknown_error_when_an_unexpected_error_happens() {
    let repo = InMemoryRepository::new().with_error();

    let res = execute(&repo, Request { name: String::from("Pikachu") });

    match res {
        Err(Error::Unknown) => {}
        _ => unreachable!(),
    }
}

#[test]
fn it_should_return_all_the_pokemons_fetched_by_name_otherwise() {
    let repo = three_records();
    let req = Request { name: String::from("chu") };

    let res = execute(&repo, req);

    match res {
        Ok(res) => {
            assert_eq!(res.len(), 2);
            assert_eq!(res[0].name, String::from("Apikachu"));
        }
        _ => unreachable!(),
    }
}

#[test]
fn fetch_by_name_keeps_insertion_order_and_excludes_non_matches() {
    let repo = three_records();
    let res = execute(&repo, Request { name: String::from("chu") }).ok().unwrap();
    let names: Vec<String> = res.iter().map(|r| r.name.clone()).collect();
    assert_eq!(names, vec![String::from("Apikachu"), String::from("Pikachu")]);
    assert_eq!(res[0].number, 1);
    assert_eq!(res[1].number, 25);
    assert_eq!(res[1].types, vec![String::from("Electric")]);
}

#[test]
fn fetch_by_name_is_case_sensitive() {
    let repo = three_records();
    let res = execute(&repo, Request { name: String::from("CHU") }).ok().unwrap();
    assert_eq!(res.len(), 0);
    let res = execute(&repo, Request { name: String::from("Char") }).ok().unwrap();
    assert_eq!(res.len(), 1);
    assert_eq!(res[0].name, String::from("Charmander"));
}

#[test]
fn fetch_by_name_with_empty_text_returns_everything() {
    let repo = three_records();
    let res = execute(&repo, Request { name: String::new() }).ok().unwrap();
    assert_eq!(res.len(), 3);
    assert_eq!(res[2].name, String::from("Charmander"));
}

#[test]
fn fetch_by_name_on_an_empty_store_is_no_error() {
    let repo = InMemoryRepository::new();
    let res = execute(&repo, Request { name: String::from("chu") }).ok().unwrap();
    assert_eq!(res.len(), 0);
}

#[test]
fn substring_search_finds_runs_of_characters() {
    assert!(contains_str("Apikachu", "chu"));
    assert!(contains_str("Apikachu", "Apikachu"));
    assert!(contains_str("Apikachu", ""));
    assert!(contains_str("", ""));
    assert!(!contains_str("chu", "Apikachu"));
    assert!(!contains_str("Apikachu", "cu"));
    assert!(contains_str("Évoli", "vo"));
}
