use pokedex::domain::{
    create_pokemon, delete_pokemon, fetch_all_pokemons, fetch_pokemon, fetch_pokemons_by_name,
};
use pokedex::entities::{is_blank, PokemonName, PokemonNumber, PokemonTypes};
use pokedex::repositories::pokemon::InMemoryRepository;
use pokedex::setup::{build_repo, Backend};

fn create(repo: &mut InMemoryRepository, number: u16, name: &str, kind: &str) {
    let req = create_pokemon::Request {
        number,
        name: String::from(name),
        types: vec![String::from(kind)],
    };
    assert!(create_pokemon::execute(repo, req).is_ok());
}

fn numbers(repo: &InMemoryRepository) -> Vec<u16> {
    fetch_all_pokemons::execute(repo).ok().unwrap().iter().map(|r| r.number).collect()
}

#[test]
fn created_record_is_fetched_back_equal() {
    let mut repo = InMemoryRepository::new();
    create(&mut repo, 25, "Pikachu", "Electric");
    let res = fetch_pokemon::execute(&repo, fetch_pokemon::Request { number: 25 }).ok().unwrap();
    assert_eq!(res.number, 25);
    assert_eq!(res.name, String::from("Pikachu"));
    assert_eq!(res.types, vec![String::from("Electric")]);
}

#[test]
fn fetch_one_rejects_zero_and_reports_missing() {
    let repo = InMemoryRepository::new();
    assert!(matches!(
        fetch_pokemon::execute(&repo, fetch_pokemon::Request { number: 0 }),
        Err(fetch_pokemon::Error::BadRequest)
    ));
    assert!(matches!(
        fetch_pokemon::execute(&repo, fetch_pokemon::Request { number: 7 }),
        Err(fetch_pokemon::Error::NotFound)
    ));
}

#[test]
fn delete_of_a_number_never_inserted_is_not_found() {
    let mut repo = InMemoryRepository::new();
    create(&mut repo, 25, "Pikachu", "Electric");
    assert!(matches!(
        delete_pokemon::execute(&mut repo, delete_pokemon::Request { number: 4 }),
        Err(delete_pokemon::Error::NotFound)
    ));
    assert_eq!(numbers(&repo), vec![25]);
}

#[test]
fn delete_twice_is_not_found_the_second_time() {
    let mut repo = InMemoryRepository::new();
    create(&mut repo, 25, "Pikachu", "Electric");
    assert!(delete_pokemon::execute(&mut repo, delete_pokemon::Request { number: 25 }).is_ok());
    assert!(matches!(
        delete_pokemon::execute(&mut repo, delete_pokemon::Request { number: 25 }),
        Err(delete_pokemon::Error::NotFound)
    ));
    assert_eq!(numbers(&repo), Vec::<u16>::new());
}

#[test]
fn delete_rejects_zero() {
    let mut repo = InMemoryRepository::new();
    assert!(matches!(
        delete_pokemon::execute(&mut repo, delete_pokemon::Request { number: 0 }),
        Err(delete_pokemon::Error::BadRequest)
    ));
}

#[test]
fn fetch_all_keeps_insertion_order_and_delete_removes_exactly_one() {
    let mut repo = InMemoryRepository::new();
    create(&mut repo, 25, "Pikachu", "Electric");
    create(&mut repo, 4, "Charmander", "Fire");
    create(&mut repo, 7, "Squirtle", "Water");
    create(&mut repo, 1, "Bulbasaur", "Grass");
    assert_eq!(numbers(&repo), vec![25, 4, 7, 1]);
    assert!(delete_pokemon::execute(&mut repo, delete_pokemon::Request { number: 4 }).is_ok());
    assert_eq!(numbers(&repo), vec![25, 7, 1]);
    let all = fetch_all_pokemons::execute(&repo).ok().unwrap();
    assert_eq!(all[1].name, String::from("Squirtle"));
    assert_eq!(all[1].types, vec![String::from("Water")]);
}

#[test]
fn fetch_all_twice_gives_the_same_list() {
    let mut repo = InMemoryRepository::new();
    create(&mut repo, 25, "Pikachu", "Electric");
    create(&mut repo, 4, "Charmander", "Fire");
    let first = fetch_all_pokemons::execute(&repo).ok().unwrap();
    let second = fetch_all_pokemons::execute(&repo).ok().unwrap();
    assert_eq!(first.len(), second.len());
    for (a, b) in first.iter().zip(second.iter()) {
        assert_eq!(a.number, b.number);
        assert_eq!(a.name, b.name);
        assert_eq!(a.types, b.types);
    }
}

#[test]
fn failure_mode_makes_every_use_case_report_unknown() {
    let mut repo = InMemoryRepository::new();
    create(&mut repo, 25, "Pikachu", "Electric");
    let mut repo = repo.with_error();
    let req = create_pokemon::Request {
        number: 4,
        name: String::from("Charmander"),
        types: vec![String::from("Fire")],
    };
    assert!(matches!(
        create_pokemon::execute(&mut repo, req),
        Err(create_pokemon::Error::Unknown)
    ));
    assert!(matches!(
        delete_pokemon::execute(&mut repo, delete_pokemon::Request { number: 25 }),
        Err(delete_pokemon::Error::Unknown)
    ));
    assert!(matches!(
        fetch_pokemon::execute(&repo, fetch_pokemon::Request { number: 25 }),
        Err(fetch_pokemon::Error::Unknown)
    ));
    assert!(matches!(fetch_all_pokemons::execute(&repo), Err(fetch_all_pokemons::Error::Unknown)));
    assert!(matches!(
        fetch_pokemons_by_name::execute(&repo, fetch_pokemons_by_name::Request {
            name: String::from("chu"),
        }),
        Err(fetch_pokemons_by_name::Error::Unknown)
    ));
}

#[test]
fn value_objects_validate_their_input() {
    assert!(PokemonNumber::try_from(0).is_err());
    assert_eq!(PokemonNumber::try_from(1).unwrap().value(), 1);
    assert_eq!(PokemonNumber::try_from(u16::MAX).unwrap().value(), u16::MAX);
    assert!(PokemonName::try_from(String::new()).is_err());
    assert!(PokemonName::try_from(String::from("  \r\n")).is_err());
    assert_eq!(PokemonName::try_from(String::from(" a ")).unwrap().value(), String::from(" a "));
    assert!(PokemonTypes::try_from(Vec::new()).is_err());
    assert!(PokemonTypes::try_from(vec![String::from("")]).is_err());
    assert_eq!(
        PokemonTypes::try_from(vec![String::from("Fire"), String::from("Flying")]).unwrap().value(),
        vec![String::from("Fire"), String::from("Flying")]
    );
}

#[test]
fn blank_text_is_whitespace_only() {
    assert!(is_blank(""));
    assert!(is_blank(" \t\n\r\u{b}\u{c}\u{85}\u{2000}\u{200a}\u{2028}\u{202f}\u{3000}"));
    assert!(!is_blank(" x "));
    assert!(!is_blank("\u{200b}"));
}

#[test]
fn backend_choice_prefers_airtable_then_sqlite() {
    match build_repo(Some("db.sqlite"), Some(("key", "app"))) {
        Backend::Airtable { api_key, workspace_id } => {
            assert_eq!(api_key, String::from("key"));
            assert_eq!(workspace_id, String::from("app"));
        }
        _ => unreachable!(),
    }
    match build_repo(Some("db.sqlite"), None) {
        Backend::Sqlite { path } => assert_eq!(path, String::from("db.sqlite")),
        _ => unreachable!(),
    }
    match build_repo(None, None) {
        Backend::InMemory(repo) => assert_eq!(numbers(&repo), Vec::<u16>::new()),
        _ => unreachable!(),
    }
}
