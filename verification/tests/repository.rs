use pokedex::domain::entities::{Pokemon, PokemonName, PokemonNumber, PokemonTypes};
use pokedex::repositories::pokemon::{
    DeleteError, FetchAllError, FetchError, InMemoryRepository, InsertError, Pokemons, Repository,
};

fn number(n: u16) -> PokemonNumber {
    PokemonNumber::try_from(n).unwrap()
}

fn name(s: &str) -> PokemonName {
    PokemonName::try_from(String::from(s)).unwrap()
}

fn types(list: &[&str]) -> PokemonTypes {
    PokemonTypes::try_from(list.iter().map(|s| String::from(*s)).collect::<Vec<String>>()).unwrap()
}

fn plain(pokemon: Pokemon) -> (u16, String, Vec<String>) {
    (u16::from(pokemon.number), String::from(pokemon.name), Vec::<String>::from(pokemon.types))
}

fn numbers(list: Vec<Pokemon>) -> Vec<u16> {
    list.into_iter().map(|p| u16::from(p.number)).collect()
}

#[test]
fn collection_insert_answers_a_copy_of_what_it_stored() {
    let mut pokemons = Pokemons::new();
    let inserted = pokemons.insert(number(25), name("Pikachu"), types(&["Electric"]));
    assert_eq!(
        plain(inserted.ok().unwrap()),
        (25, String::from("Pikachu"), vec![String::from("Electric")])
    );
    let fetched = pokemons.fetch(number(25));
    assert_eq!(
        plain(fetched.ok().unwrap()),
        (25, String::from("Pikachu"), vec![String::from("Electric")])
    );
}

#[test]
fn collection_insert_of_a_number_in_use_is_a_conflict_and_changes_nothing() {
    let mut pokemons = Pokemons::new();
    assert!(pokemons.insert(number(25), name("Pikachu"), types(&["Electric"])).is_ok());
    let again = pokemons.insert(number(25), name("Raichu"), types(&["Fire"]));
    assert!(matches!(again, Err(InsertError::Conflict)));
    let third = pokemons.insert(number(25), name("Pikachu"), types(&["Electric"]));
    assert!(matches!(third, Err(InsertError::Conflict)));
    let all = pokemons.fetch_all();
    assert_eq!(all.len(), 1);
    assert_eq!(
        plain(pokemons.fetch(number(25)).ok().unwrap()),
        (25, String::from("Pikachu"), vec![String::from("Electric")])
    );
}

#[test]
fn collection_fetch_all_ascends_by_number() {
    let mut pokemons = Pokemons::new();
    assert!(pokemons.fetch_all().is_empty());
    for n in [500u16, 4, 898, 25, 1, 499, 501] {
        assert!(pokemons.insert(number(n), name("x"), types(&["Fire"])).is_ok());
    }
    assert_eq!(numbers(pokemons.fetch_all()), vec![1, 4, 25, 499, 500, 501, 898]);
    assert_eq!(numbers(pokemons.fetch_all()), vec![1, 4, 25, 499, 500, 501, 898]);
}

#[test]
fn collection_fetch_all_lists_charmander_before_pikachu() {
    let mut pokemons = Pokemons::new();
    assert!(pokemons.insert(number(4), name("Charmander"), types(&["Fire"])).is_ok());
    assert!(pokemons.insert(number(25), name("Pikachu"), types(&["Electric"])).is_ok());
    let all: Vec<(u16, String, Vec<String>)> = pokemons.fetch_all().into_iter().map(plain).collect();
    assert_eq!(
        all,
        vec![
            (4, String::from("Charmander"), vec![String::from("Fire")]),
            (25, String::from("Pikachu"), vec![String::from("Electric")]),
        ]
    );
}

#[test]
fn collection_fetch_of_a_number_not_in_use_finds_nothing() {
    let mut pokemons = Pokemons::new();
    assert!(matches!(pokemons.fetch(number(25)), Err(FetchError::NotFound)));
    assert!(pokemons.insert(number(4), name("Charmander"), types(&["Fire"])).is_ok());
    assert!(matches!(pokemons.fetch(number(25)), Err(FetchError::NotFound)));
    assert!(pokemons.fetch(number(4)).is_ok());
}

#[test]
fn collection_delete_answers_the_pokemon_and_takes_it_out() {
    let mut pokemons = Pokemons::new();
    for n in [3u16, 4, 5] {
        assert!(pokemons.insert(number(n), name("Charmander"), types(&["Fire"])).is_ok());
    }
    let deleted = pokemons.delete(number(4));
    assert_eq!(
        plain(deleted.ok().unwrap()),
        (4, String::from("Charmander"), vec![String::from("Fire")])
    );
    assert!(matches!(pokemons.fetch(number(4)), Err(FetchError::NotFound)));
    assert!(matches!(pokemons.delete(number(4)), Err(DeleteError::NotFound)));
    assert_eq!(numbers(pokemons.fetch_all()), vec![3, 5]);
    assert!(pokemons.insert(number(4), name("Other"), types(&["Electric"])).is_ok());
    assert_eq!(numbers(pokemons.fetch_all()), vec![3, 4, 5]);
    assert_eq!(
        plain(pokemons.fetch(number(4)).ok().unwrap()),
        (4, String::from("Other"), vec![String::from("Electric")])
    );
}

#[test]
fn collection_delete_on_an_empty_store_finds_nothing() {
    let mut pokemons = Pokemons::new();
    assert!(matches!(pokemons.delete(number(1)), Err(DeleteError::NotFound)));
    assert!(pokemons.fetch_all().is_empty());
}

#[test]
fn collection_holds_every_valid_number_at_once() {
    let mut pokemons = Pokemons::new();
    for n in (1u16..899).rev() {
        assert!(pokemons.insert(number(n), name("x"), types(&["Fire"])).is_ok());
    }
    let all = numbers(pokemons.fetch_all());
    assert_eq!(all, (1u16..899).collect::<Vec<u16>>());
}

#[test]
fn repository_insert_twice_succeeds_then_conflicts() {
    let repo = InMemoryRepository::new();
    let first = repo.insert(number(25), name("Pikachu"), types(&["Electric"]));
    assert_eq!(
        plain(first.ok().unwrap()),
        (25, String::from("Pikachu"), vec![String::from("Electric")])
    );
    let second = repo.insert(number(25), name("Pikachu"), types(&["Electric"]));
    assert!(matches!(second, Err(InsertError::Conflict)));
}

#[test]
fn repository_fetch_all_ascends_by_number() {
    let repo = InMemoryRepository::new();
    assert!(repo.fetch_all().ok().unwrap().is_empty());
    assert!(repo.insert(number(25), name("Pikachu"), types(&["Electric"])).is_ok());
    assert!(repo.insert(number(4), name("Charmander"), types(&["Fire"])).is_ok());
    let all: Vec<(u16, String, Vec<String>)> =
        repo.fetch_all().ok().unwrap().into_iter().map(plain).collect();
    assert_eq!(
        all,
        vec![
            (4, String::from("Charmander"), vec![String::from("Fire")]),
            (25, String::from("Pikachu"), vec![String::from("Electric")]),
        ]
    );
}

#[test]
fn repository_fetch_on_an_empty_store_finds_nothing() {
    let repo = InMemoryRepository::new();
    assert!(matches!(repo.fetch(number(25)), Err(FetchError::NotFound)));
}

#[test]
fn repository_delete_then_fetch_finds_nothing() {
    let repo = InMemoryRepository::new();
    assert!(repo.insert(number(4), name("Charmander"), types(&["Fire"])).is_ok());
    let deleted = repo.delete(number(4));
    assert_eq!(
        plain(deleted.ok().unwrap()),
        (4, String::from("Charmander"), vec![String::from("Fire")])
    );
    assert!(matches!(repo.fetch(number(4)), Err(FetchError::NotFound)));
    assert!(matches!(repo.delete(number(4)), Err(DeleteError::NotFound)));
}

#[test]
fn repository_out_of_order_fails_every_operation() {
    let repo = InMemoryRepository::new().with_error();
    assert!(matches!(
        repo.insert(number(25), name("Pikachu"), types(&["Electric"])),
        Err(InsertError::Unknown)
    ));
    assert!(matches!(repo.fetch(number(25)), Err(FetchError::Unknown)));
    assert!(matches!(repo.fetch_all(), Err(FetchAllError::Unknown)));
    assert!(matches!(repo.delete(number(25)), Err(DeleteError::Unknown)));
}

#[test]
fn repository_put_out_of_order_after_use_still_fails_every_operation() {
    let repo = InMemoryRepository::new();
    assert!(repo.insert(number(25), name("Pikachu"), types(&["Electric"])).is_ok());
    let repo = repo.with_error();
    assert!(matches!(
        repo.insert(number(4), name("Charmander"), types(&["Fire"])),
        Err(InsertError::Unknown)
    ));
    assert!(matches!(
        repo.insert(number(25), name("Pikachu"), types(&["Electric"])),
        Err(InsertError::Unknown)
    ));
    assert!(matches!(repo.fetch(number(25)), Err(FetchError::Unknown)));
    assert!(matches!(repo.fetch_all(), Err(FetchAllError::Unknown)));
    assert!(matches!(repo.delete(number(25)), Err(DeleteError::Unknown)));
}

#[test]
fn repository_is_used_through_the_trait_object() {
    let repo: std::sync::Arc<dyn Repository> = std::sync::Arc::new(InMemoryRepository::new());
    assert!(repo.insert(number(25), name("Pikachu"), types(&["Electric"])).is_ok());
    let other = repo.clone();
    assert!(matches!(
        other.insert(number(25), name("Pikachu"), types(&["Electric"])),
        Err(InsertError::Conflict)
    ));
    let res = pokedex::domain::fetch_pokemon::execute(
        repo,
        pokedex::domain::fetch_pokemon::Request { number: 25 },
    );
    assert!(res.is_ok());
}
