use pokedex::domain::entities::{Pokemon, PokemonName, PokemonNumber, PokemonTypes};
use pokedex::domain::fetch_all_pokemons::{execute, respond, Error};
use pokedex::repositories::pokemon::{FetchAllError, InMemoryRepository, Repository};
use std::sync::Arc;

#[test]
fn fetch_all_pokemons_it_should_return_an_unknown_error_when_an_unexpected_error_happens() {
    let repo = Arc::new(InMemoryRepository::new().with_error());
    let res = execute(repo);

    match res {
        Err(Error::Unknown) => {}
        _ => unreachable!(),
    }
}

#[test]
fn it_should_return_all_pokemons_ordered_by_number_otherwise() {
    let repo = Arc::new(InMemoryRepository::new());

    assert!(repo
        .insert(
            PokemonNumber::pikachu(),
            PokemonName::pikachu(),
            PokemonTypes::pikachu(),
        )
        .is_ok());
    assert!(repo
        .insert(
            PokemonNumber::charmander(),
            PokemonName::charmander(),
            PokemonTypes::charmander(),
        )
        .is_ok());
    let res = execute(repo);

    match res {
        Ok(res) => {
            assert_eq!(res[0].number, u16::from(PokemonNumber::charmander()));
            assert_eq!(res[0].name, String::from(PokemonName::charmander()));
            assert_eq!(
                res[0].types,
                Vec::<String>::from(PokemonTypes::charmander())
            );
            assert_eq!(res[1].number, u16::from(PokemonNumber::pikachu()));
            assert_eq!(res[1].name, String::from(PokemonName::pikachu()));
            assert_eq!(res[1].types, Vec::<String>::from(PokemonTypes::pikachu()));
        }
        _ => unreachable!(),
    }
}

#[test]
fn fetch_all_of_an_empty_store_is_an_empty_list() {
    let repo = Arc::new(InMemoryRepository::new());
    match execute(repo) {
        Ok(res) => assert!(res.is_empty()),
        _ => unreachable!(),
    }
}

#[test]
fn fetch_all_ascends_whatever_the_order_of_the_inserts() {
    let orders: Vec<Vec<u16>> = vec![
        vec![1, 2, 3, 898],
        vec![898, 3, 2, 1],
        vec![3, 898, 1, 2],
        vec![2, 1, 898, 3],
    ];
    for order in orders {
        let repo = Arc::new(InMemoryRepository::new());
        for n in order {
            let inserted = repo.insert(
                PokemonNumber::try_from(n).unwrap(),
                PokemonName::try_from(format!("number {}", n)).unwrap(),
                PokemonTypes::charmander(),
            );
            assert!(inserted.is_ok());
        }
        let res = execute(repo).ok().unwrap();
        let numbers: Vec<u16> = res.iter().map(|r| r.number).collect();
        let names: Vec<String> = res.iter().map(|r| r.name.clone()).collect();
        assert_eq!(numbers, vec![1, 2, 3, 898]);
        assert_eq!(names, vec!["number 1", "number 2", "number 3", "number 898"]);
    }
}

#[test]
fn fetch_all_respond_keeps_the_order_of_the_store() {
    let listed = vec![
        Pokemon::new(
            PokemonNumber::charmander(),
            PokemonName::charmander(),
            PokemonTypes::charmander(),
        ),
        Pokemon::new(PokemonNumber::pikachu(), PokemonName::pikachu(), PokemonTypes::pikachu()),
    ];
    let res = respond(Ok(listed)).ok().unwrap();
    assert_eq!(res.len(), 2);
    assert_eq!(res[0].number, 4);
    assert_eq!(res[0].name, "Charmander");
    assert_eq!(res[0].types, vec![String::from("Fire")]);
    assert_eq!(res[1].number, 25);
    assert_eq!(res[1].name, "Pikachu");
    assert_eq!(res[1].types, vec![String::from("Electric")]);
    assert!(matches!(respond(Err(FetchAllError::Unknown)), Err(Error::Unknown)));
}
