use pokedex::domain::entities::{Pokemon, PokemonName, PokemonNumber, PokemonType, PokemonTypes};

#[test]
fn number_accepts_what_lies_strictly_between_the_bounds() {
    for n in 1u16..899 {
        let number = PokemonNumber::try_from(n);
        assert!(number.is_ok());
        let number = number.unwrap();
        assert_eq!(number.value(), n);
        assert_eq!(u16::from(number), n);
    }
}

#[test]
fn number_refuses_the_bounds_and_what_lies_beyond() {
    assert!(PokemonNumber::try_from(0).is_err());
    assert!(PokemonNumber::try_from(899).is_err());
    assert!(PokemonNumber::try_from(900).is_err());
    assert!(PokemonNumber::try_from(u16::MAX).is_err());
    for n in 899u16..=u16::MAX {
        assert!(PokemonNumber::try_from(n).is_err());
    }
}

#[test]
fn number_is_ordered_and_compared_by_its_value() {
    let four = PokemonNumber::charmander();
    let twenty_five = PokemonNumber::pikachu();
    assert!(four < twenty_five);
    assert!(four != twenty_five);
    assert_eq!(four, PokemonNumber::try_from(4).unwrap());
    assert_eq!(twenty_five.clone(), twenty_five);
    assert_eq!(four.max(twenty_five), PokemonNumber::try_from(25).unwrap());
}

#[test]
fn name_accepts_what_is_not_empty_and_gives_it_back() {
    for s in ["Pikachu", "a", " ", "Mr. Mime", "Nidoran\u{2640}", "\u{30d4}\u{30ab}\u{30c1}\u{30e5}\u{30a6}"] {
        let name = PokemonName::try_from(String::from(s));
        assert!(name.is_ok());
        let name = name.unwrap();
        assert_eq!(name.as_str(), s);
        assert_eq!(String::from(name.clone()), s);
        assert_eq!(String::from(name), s);
    }
}

#[test]
fn name_refuses_the_empty_string() {
    assert!(PokemonName::try_from(String::new()).is_err());
    assert!(PokemonName::try_from(String::from("")).is_err());
    assert!(PokemonName::try_from(PokemonName::bad()).is_err());
}

#[test]
fn type_is_read_from_its_name_only() {
    assert_eq!(PokemonType::parse("Electric"), Some(PokemonType::Electric));
    assert_eq!(PokemonType::parse("Fire"), Some(PokemonType::Fire));
    for s in ["", "fire", "FIRE", "Fire ", " Fire", "Water", "Electri", "Electricc", "ElectricFire"] {
        assert_eq!(PokemonType::parse(s), None);
        assert!(PokemonType::try_from(String::from(s)).is_err());
    }
    assert_eq!(PokemonType::try_from(String::from("Electric")), Ok(PokemonType::Electric));
    assert_eq!(PokemonType::try_from(String::from("Fire")), Ok(PokemonType::Fire));
}

#[test]
fn type_is_written_as_its_name() {
    assert_eq!(PokemonType::Electric.name(), "Electric");
    assert_eq!(PokemonType::Fire.name(), "Fire");
    assert_eq!(String::from(PokemonType::Electric), "Electric");
    assert_eq!(String::from(PokemonType::Fire), "Fire");
    for t in [PokemonType::Electric, PokemonType::Fire] {
        assert_eq!(PokemonType::parse(t.name().as_str()), Some(t));
    }
}

#[test]
fn types_keep_the_order_in_which_they_were_given() {
    let lists: Vec<Vec<&str>> = vec![
        vec!["Electric"],
        vec!["Fire"],
        vec!["Electric", "Fire"],
        vec!["Fire", "Electric"],
        vec!["Fire", "Fire", "Electric", "Fire"],
    ];
    for list in lists {
        let names: Vec<String> = list.iter().map(|s| String::from(*s)).collect();
        let types = PokemonTypes::try_from(names.clone());
        assert!(types.is_ok());
        let types = types.unwrap();
        assert_eq!(types.names(), names);
        assert_eq!(Vec::<String>::from(types.clone()), names);
        assert_eq!(Vec::<String>::from(types), names);
    }
}

#[test]
fn types_refuse_the_empty_list() {
    assert!(PokemonTypes::try_from(Vec::<String>::new()).is_err());
}

#[test]
fn types_refuse_the_whole_list_for_one_unknown_name() {
    let lists: Vec<Vec<&str>> = vec![
        vec!["Water"],
        vec![""],
        vec!["Water", "Fire"],
        vec!["Fire", "Water"],
        vec!["Fire", "Electric", "fire"],
        vec!["Fire", "Water", "Electric"],
    ];
    for list in lists {
        let names: Vec<String> = list.iter().map(|s| String::from(*s)).collect();
        assert!(PokemonTypes::try_from(names).is_err());
    }
}

#[test]
fn the_sample_values_are_what_they_say() {
    assert_eq!(u16::from(PokemonNumber::pikachu()), 25);
    assert_eq!(u16::from(PokemonNumber::charmander()), 4);
    assert_eq!(PokemonNumber::bad(), 0);
    assert!(PokemonNumber::try_from(PokemonNumber::bad()).is_err());
    assert_eq!(String::from(PokemonName::pikachu()), "Pikachu");
    assert_eq!(String::from(PokemonName::charmander()), "Charmander");
    assert_eq!(PokemonName::bad(), "");
    assert_eq!(Vec::<String>::from(PokemonTypes::pikachu()), vec![String::from("Electric")]);
    assert_eq!(Vec::<String>::from(PokemonTypes::charmander()), vec![String::from("Fire")]);
}

#[test]
fn a_pokemon_holds_its_three_parts_and_its_copy_holds_the_same() {
    let pokemon = Pokemon::new(
        PokemonNumber::pikachu(),
        PokemonName::pikachu(),
        PokemonTypes::pikachu(),
    );
    let copy = pokemon.clone();
    assert_eq!(u16::from(pokemon.number), 25);
    assert_eq!(String::from(pokemon.name), "Pikachu");
    assert_eq!(Vec::<String>::from(pokemon.types), vec![String::from("Electric")]);
    assert_eq!(u16::from(copy.number), 25);
    assert_eq!(String::from(copy.name), "Pikachu");
    assert_eq!(Vec::<String>::from(copy.types), vec![String::from("Electric")]);
}

#[test]
fn a_number_is_shown_in_base_ten() {
    assert_eq!(PokemonNumber::pikachu().to_string(), "number: 25");
    assert_eq!(PokemonNumber::charmander().to_string(), "number: 4");
    assert_eq!(PokemonNumber::try_from(100).unwrap().to_string(), "number: 100");
    assert_eq!(PokemonNumber::try_from(898).unwrap().to_string(), "number: 898");
    for n in 1u16..899 {
        assert_eq!(PokemonNumber::try_from(n).unwrap().to_string(), format!("number: {}", n));
    }
}

#[test]
fn a_name_is_shown_as_it_is() {
    assert_eq!(PokemonName::pikachu().to_string(), "name: Pikachu");
    assert_eq!(PokemonName::try_from(String::from(" ")).unwrap().to_string(), "name:  ");
}

#[test]
fn types_are_shown_with_commas_between_them() {
    assert_eq!(PokemonTypes::pikachu().to_string(), "types: Electric");
    assert_eq!(PokemonTypes::charmander().to_string(), "types: Fire");
    let both = PokemonTypes::try_from(vec![String::from("Electric"), String::from("Fire")]).unwrap();
    assert_eq!(both.to_string(), "types: Electric,Fire");
    let three = PokemonTypes::try_from(vec![
        String::from("Fire"),
        String::from("Fire"),
        String::from("Electric"),
    ])
    .unwrap();
    assert_eq!(three.to_string(), "types: Fire,Fire,Electric");
}

#[test]
fn a_pokemon_is_shown_by_its_three_parts() {
    let pokemon = Pokemon::new(
        PokemonNumber::pikachu(),
        PokemonName::pikachu(),
        PokemonTypes::pikachu(),
    );
    assert_eq!(
        pokemon.to_string(),
        "pokemon number: number: 25, name: name: Pikachu, types: types: Electric"
    );
}
