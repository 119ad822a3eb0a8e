//! The value types of the catalog. Each one can only be made from a primitive
//! through a conversion that checks it, so a value that exists is valid.

use vstd::prelude::*;
use vstd::std_specs::convert::{FromSpec, TryFromSpec};
use vstd::string::StringExecFns;

verus! {

/// The character that stands for a digit.
pub open spec fn digit(d: int) -> Seq<char> {
    if d == 0 {
        "0"@
    } else if d == 1 {
        "1"@
    } else if d == 2 {
        "2"@
    } else if d == 3 {
        "3"@
    } else if d == 4 {
        "4"@
    } else if d == 5 {
        "5"@
    } else if d == 6 {
        "6"@
    } else if d == 7 {
        "7"@
    } else if d == 8 {
        "8"@
    } else {
        "9"@
    }
}

/// A number as it is written in base ten, without leading zeros.
pub open spec fn decimal(n: nat) -> Seq<char>
    decreases n,
{
    if n < 10 {
        digit(n as int)
    } else {
        decimal(n / 10) + digit((n % 10) as int)
    }
}

/// Writes a digit.
fn digit_str(d: u16) -> (r: &'static str)
    requires
        d < 10,
    ensures
        r@ == digit(d as int),
{
    if d == 0 {
        "0"
    } else if d == 1 {
        "1"
    } else if d == 2 {
        "2"
    } else if d == 3 {
        "3"
    } else if d == 4 {
        "4"
    } else if d == 5 {
        "5"
    } else if d == 6 {
        "6"
    } else if d == 7 {
        "7"
    } else if d == 8 {
        "8"
    } else {
        "9"
    }
}

/// Writes a number in base ten.
fn decimal_string(n: u16) -> (r: String)
    ensures
        r@ == decimal(n as nat),
    decreases n,
{
    if n < 10 {
        digit_str(n).to_owned()
    } else {
        let mut text = decimal_string(n / 10);
        text.append(digit_str(n % 10));
        text
    }
}

/// The numbers that identify a pokemon: strictly between 0 and 899.
pub open spec fn valid_number(n: int) -> bool {
    0 < n < 899
}

/// The number that identifies a pokemon.
#[derive(Debug, PartialEq, Eq, PartialOrd, Ord)]
pub struct PokemonNumber(u16);

impl View for PokemonNumber {
    type V = int;

    closed spec fn view(&self) -> int {
        self.0 as int
    }
}

impl PokemonNumber {
    #[verifier::type_invariant]
    spec fn within_range(&self) -> bool {
        valid_number(self.0 as int)
    }

    /// The value that holds `n`.
    pub closed spec fn of(n: u16) -> PokemonNumber {
        PokemonNumber(n)
    }

    /// What every executable value satisfies: its number is a valid one.
    pub open spec fn wf(&self) -> bool {
        valid_number(self@)
    }

    /// The number as a primitive. Never fails.
    pub fn value(&self) -> (n: u16)
        ensures
            n == self@,
            self.wf(),
    {
        proof {
            use_type_invariant(self);
        }
        self.0
    }

    /// How the number is shown: `number: ` and the number in base ten.
    pub open spec fn text(&self) -> Seq<char> {
        "number: "@ + decimal(self@ as nat)
    }

    /// Shows the number.
    pub fn to_string(&self) -> (r: String)
        ensures
            r@ == self.text(),
    {
        let mut text = "number: ".to_owned();
        text.append(decimal_string(self.0).as_str());
        text
    }
}

impl Clone for PokemonNumber {
    fn clone(&self) -> (r: Self)
        ensures
            r@ == self@,
            r.wf(),
    {
        proof {
            use_type_invariant(self);
        }
        PokemonNumber(self.0)
    }
}

impl TryFrom<u16> for PokemonNumber {
    type Error = ();

    /// Accepts exactly the valid numbers.
    fn try_from(n: u16) -> (r: Result<Self, ()>)
        ensures
            valid_number(n as int) <==> r is Ok,
            r matches Ok(number) ==> number@ == n && number.wf(),
    {
        if n > 0 && n < 899 {
            Ok(PokemonNumber(n))
        } else {
            Err(())
        }
    }
}

impl vstd::std_specs::convert::TryFromSpecImpl<u16> for PokemonNumber {
    open spec fn obeys_try_from_spec() -> bool {
        true
    }

    open spec fn try_from_spec(n: u16) -> Result<Self, ()> {
        if valid_number(n as int) {
            Ok(PokemonNumber::of(n))
        } else {
            Err(())
        }
    }
}

impl vstd::std_specs::convert::FromSpecImpl<PokemonNumber> for u16 {
    open spec fn obeys_from_spec() -> bool {
        true
    }

    open spec fn from_spec(n: PokemonNumber) -> u16 {
        n@ as u16
    }
}

impl From<PokemonNumber> for u16 {
    /// Gives the primitive back.
    fn from(n: PokemonNumber) -> (r: u16)
        ensures
            r == n@,
            valid_number(r as int),
    {
        n.value()
    }
}

/// A number strictly between 0 and 899 makes a pokemon number that gives the
/// same number back; no other number makes one.
pub proof fn lemma_number_round_trip(n: u16)
    ensures
        valid_number(n as int) <==> PokemonNumber::try_from_spec(n) is Ok,
        valid_number(n as int) ==> u16::from_spec(PokemonNumber::try_from_spec(n).unwrap()) == n,
{
}

/// The names that a pokemon can have: all but the empty one.
pub open spec fn valid_name(s: Seq<char>) -> bool {
    s.len() > 0
}

/// The name of a pokemon.
#[derive(Debug)]
pub struct PokemonName(String);

impl View for PokemonName {
    type V = Seq<char>;

    closed spec fn view(&self) -> Seq<char> {
        self.0@
    }
}

impl PokemonName {
    #[verifier::type_invariant]
    spec fn not_empty(&self) -> bool {
        valid_name(self.0@)
    }

    /// The value that holds `s`.
    pub closed spec fn of(s: String) -> PokemonName {
        PokemonName(s)
    }

    /// What every executable value satisfies: its name is a valid one.
    pub open spec fn wf(&self) -> bool {
        valid_name(self@)
    }

    /// The name as a string slice. Never fails.
    pub fn as_str(&self) -> (s: &str)
        ensures
            s@ == self@,
            self.wf(),
    {
        proof {
            use_type_invariant(self);
        }
        self.0.as_str()
    }

    /// How the name is shown: `name: ` and the name.
    pub open spec fn text(&self) -> Seq<char> {
        "name: "@ + self@
    }

    /// Shows the name.
    pub fn to_string(&self) -> (r: String)
        ensures
            r@ == self.text(),
    {
        let mut text = "name: ".to_owned();
        text.append(self.0.as_str());
        text
    }
}

impl Clone for PokemonName {
    fn clone(&self) -> (r: Self)
        ensures
            r@ == self@,
            r.wf(),
    {
        proof {
            use_type_invariant(self);
        }
        PokemonName(self.0.clone())
    }
}

impl vstd::std_specs::convert::TryFromSpecImpl<String> for PokemonName {
    open spec fn obeys_try_from_spec() -> bool {
        true
    }

    open spec fn try_from_spec(s: String) -> Result<Self, ()> {
        if valid_name(s@) {
            Ok(PokemonName::of(s))
        } else {
            Err(())
        }
    }
}

impl TryFrom<String> for PokemonName {
    type Error = ();

    /// Accepts exactly the strings that are not empty.
    fn try_from(s: String) -> (r: Result<Self, ()>)
        ensures
            valid_name(s@) <==> r is Ok,
            r matches Ok(name) ==> name@ == s@ && name.wf(),
    {
        if s.as_str().is_empty() {
            Err(())
        } else {
            Ok(PokemonName(s))
        }
    }
}

impl vstd::std_specs::convert::FromSpecImpl<PokemonName> for String {
    open spec fn obeys_from_spec() -> bool {
        true
    }

    open spec fn from_spec(n: PokemonName) -> String {
        n.into_string()
    }
}

impl PokemonName {
    /// The string that the name holds.
    pub closed spec fn into_string(self) -> String {
        self.0
    }
}

impl From<PokemonName> for String {
    /// Gives the string back.
    fn from(n: PokemonName) -> (r: String)
        ensures
            r@ == n@,
            valid_name(r@),
    {
        proof {
            use_type_invariant(&n);
        }
        n.0
    }
}

/// A string that is not empty makes a pokemon name that gives the same
/// string back; the empty string makes none.
pub proof fn lemma_name_round_trip(s: String)
    ensures
        valid_name(s@) <==> PokemonName::try_from_spec(s) is Ok,
        valid_name(s@) ==> String::from_spec(PokemonName::try_from_spec(s).unwrap()) == s,
{
}

/// The types that a pokemon can be of. The set is closed: a string that
/// names none of them is refused.
#[derive(Clone, Copy, Debug, PartialEq, Eq, Structural)]
pub enum PokemonType {
    Electric,
    Fire,
}

/// The name under which a type is written.
pub open spec fn name_of_type(t: PokemonType) -> Seq<char> {
    match t {
        PokemonType::Electric => "Electric"@,
        PokemonType::Fire => "Fire"@,
    }
}

/// The type that a string names, if it names one.
pub open spec fn type_named(s: Seq<char>) -> Option<PokemonType> {
    if s == "Electric"@ {
        Some(PokemonType::Electric)
    } else if s == "Fire"@ {
        Some(PokemonType::Fire)
    } else {
        None
    }
}

/// A type is found again under its own name.
pub proof fn lemma_name_is_read_back(t: PokemonType)
    ensures
        type_named(name_of_type(t)) == Some(t),
{
    reveal_strlit("Electric");
    reveal_strlit("Fire");
    assert("Fire"@.len() != "Electric"@.len());
}

/// A string that names a type is the name of that type.
pub proof fn lemma_name_is_written_back(s: Seq<char>)
    requires
        type_named(s) is Some,
    ensures
        name_of_type(type_named(s).unwrap()) == s,
{
}

impl PokemonType {
    /// Reads a type from its name.
    pub fn parse(s: &str) -> (r: Option<PokemonType>)
        ensures
            r == type_named(s@),
    {
        let given = s.to_owned();
        if given == "Electric".to_owned() {
            Some(PokemonType::Electric)
        } else if given == "Fire".to_owned() {
            Some(PokemonType::Fire)
        } else {
            None
        }
    }

    /// Writes the type's name.
    pub fn name(self) -> (r: String)
        ensures
            r@ == name_of_type(self),
    {
        match self {
            PokemonType::Electric => "Electric".to_owned(),
            PokemonType::Fire => "Fire".to_owned(),
        }
    }
}

impl vstd::std_specs::convert::TryFromSpecImpl<String> for PokemonType {
    open spec fn obeys_try_from_spec() -> bool {
        true
    }

    open spec fn try_from_spec(s: String) -> Result<Self, ()> {
        match type_named(s@) {
            Some(t) => Ok(t),
            None => Err(()),
        }
    }
}

impl TryFrom<String> for PokemonType {
    type Error = ();

    /// Accepts exactly the names of the types.
    fn try_from(s: String) -> (r: Result<Self, ()>)
        ensures
            r is Ok <==> type_named(s@) is Some,
            r matches Ok(t) ==> type_named(s@) == Some(t),
    {
        match PokemonType::parse(s.as_str()) {
            Some(t) => Ok(t),
            None => Err(()),
        }
    }
}

impl vstd::std_specs::convert::FromSpecImpl<PokemonType> for String {
    open spec fn obeys_from_spec() -> bool {
        false
    }

    open spec fn from_spec(t: PokemonType) -> String {
        arbitrary()
    }
}

impl From<PokemonType> for String {
    /// Writes the type's name.
    fn from(t: PokemonType) -> (r: String)
        ensures
            r@ == name_of_type(t),
    {
        t.name()
    }
}

/// Whether every string of `names` names a type.
pub open spec fn all_named(names: Seq<Seq<char>>) -> bool {
    forall|i: int| 0 <= i < names.len() ==> (#[trigger] type_named(names[i])) is Some
}

/// The lists of names that make the types of a pokemon: at least one name,
/// and each of them the name of a type.
pub open spec fn valid_types(names: Seq<Seq<char>>) -> bool {
    names.len() > 0 && all_named(names)
}

/// The types that `names` names, in the same order.
pub open spec fn types_named(names: Seq<Seq<char>>) -> Seq<PokemonType>
    recommends
        all_named(names),
{
    Seq::new(names.len(), |i: int| type_named(names[i]).unwrap())
}

/// The names of `types`, in the same order.
pub open spec fn names_of_types(types: Seq<PokemonType>) -> Seq<Seq<char>> {
    Seq::new(types.len(), |i: int| name_of_type(types[i]))
}

/// Names that are read as types and written again are the same names, in the
/// same order.
pub proof fn lemma_names_are_written_back(names: Seq<Seq<char>>)
    requires
        all_named(names),
    ensures
        names_of_types(types_named(names)) == names,
{
    assert forall|i: int| 0 <= i < names.len() implies names_of_types(types_named(names))[i]
        == names[i] by {
        assert(type_named(names[i]) is Some);
    }
    assert(names_of_types(types_named(names)) =~= names);
}

/// Types that are written as names and read again are the same types, in the
/// same order.
pub proof fn lemma_types_are_read_back(types: Seq<PokemonType>)
    ensures
        all_named(names_of_types(types)),
        types_named(names_of_types(types)) == types,
{
    assert forall|i: int| 0 <= i < types.len() implies type_named(
        #[trigger] names_of_types(types)[i],
    ) == Some(types[i]) by {
        lemma_name_is_read_back(types[i]);
    }
    assert(types_named(names_of_types(types)) =~= types);
}

/// The strings of `parts` in a row, with a comma between each two.
pub open spec fn joined(parts: Seq<Seq<char>>) -> Seq<char>
    decreases parts.len(),
{
    if parts.len() == 0 {
        Seq::empty()
    } else if parts.len() == 1 {
        parts[0]
    } else {
        joined(parts.drop_last()) + ","@ + parts.last()
    }
}

/// The types of a pokemon: one at least, in the order in which they were
/// given.
#[derive(Debug)]
pub struct PokemonTypes(Vec<PokemonType>);

impl View for PokemonTypes {
    type V = Seq<PokemonType>;

    closed spec fn view(&self) -> Seq<PokemonType> {
        self.0@
    }
}

impl PokemonTypes {
    #[verifier::type_invariant]
    spec fn not_empty(&self) -> bool {
        self.0@.len() > 0
    }

    /// What every executable value satisfies: it holds one type at least.
    pub open spec fn wf(&self) -> bool {
        self@.len() > 0
    }

    /// The names of the types, in their order. Never fails.
    pub fn names(&self) -> (r: Vec<String>)
        ensures
            r.deep_view() == names_of_types(self@),
            self.wf(),
    {
        proof {
            use_type_invariant(self);
        }
        let mut names: Vec<String> = Vec::new();
        let mut i: usize = 0;
        while i < self.0.len()
            invariant
                i <= self.0@.len(),
                names@.len() == i,
                forall|j: int| 0 <= j < i ==> (#[trigger] names@[j])@ == name_of_type(self.0@[j]),
            decreases self.0@.len() - i,
        {
            names.push(self.0[i].name());
            i += 1;
        }
        assert(names.deep_view() =~= names_of_types(self@));
        names
    }

    /// How the types are shown: `types: ` and their names, with a comma
    /// between each two.
    pub open spec fn text(&self) -> Seq<char> {
        "types: "@ + joined(names_of_types(self@))
    }

    /// Shows the types.
    pub fn to_string(&self) -> (r: String)
        ensures
            r@ == self.text(),
    {
        proof {
            use_type_invariant(self);
        }
        let mut list = self.0[0].name();
        let mut i: usize = 1;
        assert(names_of_types(self@).take(1) =~= seq![name_of_type(self.0@[0])]);
        while i < self.0.len()
            invariant
                1 <= i <= self.0@.len(),
                list@ == joined(names_of_types(self.0@).take(i as int)),
            decreases self.0@.len() - i,
        {
            list.append(",");
            list.append(self.0[i].name().as_str());
            proof {
                let names = names_of_types(self.0@);
                assert(names.take(i + 1).drop_last() =~= names.take(i as int));
                assert(names.take(i + 1).last() == name_of_type(self.0@[i as int]));
            }
            i += 1;
        }
        assert(names_of_types(self.0@).take(i as int) =~= names_of_types(self.0@));
        let mut text = "types: ".to_owned();
        text.append(list.as_str());
        text
    }
}

impl Clone for PokemonTypes {
    fn clone(&self) -> (r: Self)
        ensures
            r@ == self@,
            r.wf(),
    {
        proof {
            use_type_invariant(self);
        }
        let mut types: Vec<PokemonType> = Vec::new();
        let mut i: usize = 0;
        while i < self.0.len()
            invariant
                i <= self.0@.len(),
                types@ == self.0@.take(i as int),
            decreases self.0@.len() - i,
        {
            types.push(self.0[i]);
            assert(self.0@.take(i + 1) =~= self.0@.take(i as int).push(self.0@[i as int]));
            i += 1;
        }
        assert(self.0@.take(i as int) =~= self.0@);
        PokemonTypes(types)
    }
}

impl vstd::std_specs::convert::TryFromSpecImpl<Vec<String>> for PokemonTypes {
    open spec fn obeys_try_from_spec() -> bool {
        false
    }

    open spec fn try_from_spec(names: Vec<String>) -> Result<Self, ()> {
        arbitrary()
    }
}

impl TryFrom<Vec<String>> for PokemonTypes {
    type Error = ();

    /// Accepts a list that is not empty and holds only names of types, and
    /// refuses the whole list otherwise.
    fn try_from(names: Vec<String>) -> (r: Result<Self, ()>)
        ensures
            valid_types(names.deep_view()) <==> r is Ok,
            r matches Ok(types) ==> types@ == types_named(names.deep_view()) && types.wf(),
    {
        if names.len() == 0 {
            return Err(());
        }
        let mut types: Vec<PokemonType> = Vec::new();
        let mut i: usize = 0;
        while i < names.len()
            invariant
                i <= names@.len(),
                types@.len() == i,
                forall|j: int| 0 <= j < i ==> type_named(#[trigger] names@[j]@) == Some(types@[j]),
            decreases names@.len() - i,
        {
            match PokemonType::parse(names[i].as_str()) {
                Some(t) => {
                    types.push(t);
                },
                None => {
                    assert(type_named(names.deep_view()[i as int]) is None);
                    return Err(());
                },
            }
            i += 1;
        }
        proof {
            assert forall|j: int| 0 <= j < names.deep_view().len() implies (#[trigger] type_named(
                names.deep_view()[j],
            )) is Some by {
                assert(type_named(names@[j]@) == Some(types@[j]));
            }
            assert(types@ =~= types_named(names.deep_view())) by {
                assert forall|j: int| 0 <= j < types@.len() implies types@[j] == types_named(
                    names.deep_view(),
                )[j] by {
                    assert(type_named(names@[j]@) == Some(types@[j]));
                }
            }
        }
        Ok(PokemonTypes(types))
    }
}

impl vstd::std_specs::convert::FromSpecImpl<PokemonTypes> for Vec<String> {
    open spec fn obeys_from_spec() -> bool {
        false
    }

    open spec fn from_spec(types: PokemonTypes) -> Vec<String> {
        arbitrary()
    }
}

impl From<PokemonTypes> for Vec<String> {
    /// Gives the names back, in their order.
    fn from(types: PokemonTypes) -> (r: Vec<String>)
        ensures
            r.deep_view() == names_of_types(types@),
            valid_types(r.deep_view()),
    {
        let names = types.names();
        proof {
            lemma_types_are_read_back(types@);
        }
        names
    }
}

/// What a pokemon is, as plain values.
pub struct PokemonView {
    pub number: int,
    pub name: Seq<char>,
    pub types: Seq<PokemonType>,
}

/// A pokemon of the catalog. It is made of three valid values and is never
/// changed afterwards.
#[derive(Debug)]
pub struct Pokemon {
    pub number: PokemonNumber,
    pub name: PokemonName,
    pub types: PokemonTypes,
}

impl View for Pokemon {
    type V = PokemonView;

    open spec fn view(&self) -> PokemonView {
        PokemonView { number: self.number@, name: self.name@, types: self.types@ }
    }
}

impl Pokemon {
    /// What every executable value satisfies: its three parts are valid.
    pub open spec fn wf(&self) -> bool {
        self.number.wf() && self.name.wf() && self.types.wf()
    }

    pub fn new(number: PokemonNumber, name: PokemonName, types: PokemonTypes) -> (r: Self)
        ensures
            r.number == number,
            r.name == name,
            r.types == types,
    {
        Self { number, name, types }
    }

    /// How the pokemon is shown: its three parts, each as it is shown.
    pub open spec fn text(&self) -> Seq<char> {
        "pokemon number: "@ + self.number.text() + ", name: "@ + self.name.text() + ", types: "@
            + self.types.text()
    }

    /// Shows the pokemon.
    pub fn to_string(&self) -> (r: String)
        ensures
            r@ == self.text(),
    {
        let mut text = "pokemon number: ".to_owned();
        text.append(self.number.to_string().as_str());
        text.append(", name: ");
        text.append(self.name.to_string().as_str());
        text.append(", types: ");
        text.append(self.types.to_string().as_str());
        text
    }
}

impl Clone for Pokemon {
    fn clone(&self) -> (r: Self)
        ensures
            r@ == self@,
            r.wf(),
    {
        Pokemon { number: self.number.clone(), name: self.name.clone(), types: self.types.clone() }
    }
}

impl PokemonNumber {
    /// The number of Pikachu, 25.
    pub fn pikachu() -> (r: Self)
        ensures
            r@ == 25,
    {
        PokemonNumber(25)
    }

    /// The number of Charmander, 4.
    pub fn charmander() -> (r: Self)
        ensures
            r@ == 4,
    {
        PokemonNumber(4)
    }

    /// A primitive that is no valid number: 0.
    pub fn bad() -> (r: u16)
        ensures
            r == 0,
            !valid_number(r as int),
    {
        0
    }
}

impl PokemonName {
    /// The name of Pikachu.
    pub fn pikachu() -> (r: Self)
        ensures
            r@ == "Pikachu"@,
    {
        proof {
            reveal_strlit("Pikachu");
        }
        PokemonName("Pikachu".to_owned())
    }

    /// The name of Charmander.
    pub fn charmander() -> (r: Self)
        ensures
            r@ == "Charmander"@,
    {
        proof {
            reveal_strlit("Charmander");
        }
        PokemonName("Charmander".to_owned())
    }

    /// A string that is no valid name: the empty one.
    pub fn bad() -> (r: String)
        ensures
            r@ == Seq::<char>::empty(),
            !valid_name(r@),
    {
        String::new()
    }
}

impl PokemonTypes {
    /// The types of Pikachu: electric.
    pub fn pikachu() -> (r: Self)
        ensures
            r@ == seq![PokemonType::Electric],
    {
        let mut types: Vec<PokemonType> = Vec::new();
        types.push(PokemonType::Electric);
        assert(types@ =~= seq![PokemonType::Electric]);
        PokemonTypes(types)
    }

    /// The types of Charmander: fire.
    pub fn charmander() -> (r: Self)
        ensures
            r@ == seq![PokemonType::Fire],
    {
        let mut types: Vec<PokemonType> = Vec::new();
        types.push(PokemonType::Fire);
        assert(types@ =~= seq![PokemonType::Fire]);
        PokemonTypes(types)
    }
}

} // verus!
