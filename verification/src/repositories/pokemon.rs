//! The store of pokemons. `Pokemons` is the collection itself, with one
//! pokemon at most for each number and an exact contract for each operation.
//! `InMemoryRepository` shares one such collection among threads behind a
//! lock.

use crate::domain::entities::{Pokemon, PokemonName, PokemonNumber, PokemonTypes, PokemonView};
use std::sync::{Mutex, MutexGuard};
use vstd::prelude::*;

verus! {

#[derive(Clone, Copy, Debug, PartialEq, Eq)]
pub enum InsertError {
    Conflict,
    Unknown,
}

#[derive(Clone, Copy, Debug, PartialEq, Eq)]
pub enum FetchAllError {
    Unknown,
}

#[derive(Clone, Copy, Debug, PartialEq, Eq)]
pub enum FetchError {
    Unknown,
    NotFound,
}

#[derive(Clone, Copy, Debug, PartialEq, Eq)]
pub enum DeleteError {
    Unknown,
    NotFound,
}

/// What a store holds: for each number in use, the pokemon of that number.
pub type Records = Map<int, PokemonView>;

/// The outcome of an operation as plain values.
pub open spec fn seen<E>(r: Result<Pokemon, E>) -> Result<PokemonView, E> {
    match r {
        Ok(p) => Ok(p@),
        Err(e) => Err(e),
    }
}

/// The plain values of a list of pokemons, in the same order.
pub open spec fn views(l: Seq<Pokemon>) -> Seq<PokemonView> {
    Seq::new(l.len(), |i: int| l[i]@)
}

/// What inserting `p` into `m` answers: a conflict where the number is in
/// use, the pokemon itself otherwise.
pub open spec fn insert_outcome(m: Records, p: PokemonView) -> Result<PokemonView, InsertError> {
    if m.contains_key(p.number) {
        Err(InsertError::Conflict)
    } else {
        Ok(p)
    }
}

/// What `m` holds after inserting `p`: `m` itself where the number is in use.
pub open spec fn after_insert(m: Records, p: PokemonView) -> Records {
    if m.contains_key(p.number) {
        m
    } else {
        m.insert(p.number, p)
    }
}

/// What fetching the number `n` from `m` answers.
pub open spec fn fetch_outcome(m: Records, n: int) -> Result<PokemonView, FetchError> {
    if m.contains_key(n) {
        Ok(m[n])
    } else {
        Err(FetchError::NotFound)
    }
}

/// What deleting the number `n` from `m` answers.
pub open spec fn delete_outcome(m: Records, n: int) -> Result<PokemonView, DeleteError> {
    if m.contains_key(n) {
        Ok(m[n])
    } else {
        Err(DeleteError::NotFound)
    }
}

/// What `m` holds after deleting the number `n`.
pub open spec fn after_delete(m: Records, n: int) -> Records {
    m.remove(n)
}

/// Whether the numbers of `l` ascend strictly.
pub open spec fn ascending(l: Seq<PokemonView>) -> bool {
    forall|i: int, j: int| 0 <= i < j < l.len() ==> l[i].number < l[j].number
}

/// Whether `l` lists `m`: every pokemon of `m` and no other, by ascending
/// number.
pub open spec fn lists(l: Seq<PokemonView>, m: Records) -> bool {
    &&& ascending(l)
    &&& forall|i: int| 0 <= i < l.len() ==> m.contains_pair((#[trigger] l[i]).number, l[i])
    &&& forall|n: int|
        m.contains_key(n) ==> exists|i: int| 0 <= i < l.len() && (#[trigger] l[i]).number == n
}

/// Once a number is in the store, inserting it again is a conflict: of two
/// inserts of one number the second never succeeds.
pub proof fn lemma_second_insert_conflicts(m: Records, p: PokemonView, q: PokemonView)
    requires
        p.number == q.number,
    ensures
        insert_outcome(after_insert(m, p), q) == Err::<PokemonView, InsertError>(
            InsertError::Conflict,
        ),
        after_insert(after_insert(m, p), q) == after_insert(m, p),
{
}

/// A pokemon that was inserted is the one that a fetch of its number answers.
pub proof fn lemma_fetch_after_insert(m: Records, p: PokemonView)
    requires
        insert_outcome(m, p) is Ok,
    ensures
        fetch_outcome(after_insert(m, p), p.number) == Ok::<PokemonView, FetchError>(p),
{
}

/// After a number was deleted, a fetch of it finds nothing, whether or not
/// the delete found something.
pub proof fn lemma_fetch_after_delete(m: Records, n: int)
    ensures
        fetch_outcome(after_delete(m, n), n) == Err::<PokemonView, FetchError>(
            FetchError::NotFound,
        ),
{
}

/// Two pokemons with different numbers leave the same store behind in
/// whichever order they are inserted.
pub proof fn lemma_insert_order(m: Records, p: PokemonView, q: PokemonView)
    requires
        p.number != q.number,
    ensures
        after_insert(after_insert(m, p), q) == after_insert(after_insert(m, q), p),
{
    assert(after_insert(after_insert(m, p), q) =~= after_insert(after_insert(m, q), p));
}

/// A list without its last pokemon lists the store without that pokemon.
proof fn lemma_lists_drop_last(l: Seq<PokemonView>, m: Records)
    requires
        lists(l, m),
        l.len() > 0,
    ensures
        lists(l.drop_last(), m.remove(l.last().number)),
{
    let short = l.drop_last();
    let rest = m.remove(l.last().number);
    assert forall|i: int| 0 <= i < short.len() implies rest.contains_pair(
        (#[trigger] short[i]).number,
        short[i],
    ) by {
        assert(short[i] == l[i]);
        assert(l[i].number < l[l.len() - 1].number);
    }
    assert forall|n: int| rest.contains_key(n) implies exists|i: int|
        0 <= i < short.len() && (#[trigger] short[i]).number == n by {
        assert(m.contains_key(n));
        let i = choose|i: int| 0 <= i < l.len() && (#[trigger] l[i]).number == n;
        assert(short[i] == l[i]);
    }
}

/// A store has one list only: what a listing answers depends on what the
/// store holds and on nothing else, such as the order of the inserts.
pub proof fn lemma_one_list(l1: Seq<PokemonView>, l2: Seq<PokemonView>, m: Records)
    requires
        lists(l1, m),
        lists(l2, m),
    ensures
        l1 == l2,
    decreases l1.len(),
{
    if l1.len() == 0 {
        if l2.len() > 0 {
            assert(m.contains_pair(l2[0].number, l2[0]));
            let i = choose|i: int| 0 <= i < l1.len() && (#[trigger] l1[i]).number == l2[0].number;
        }
        assert(l1 =~= l2);
    } else {
        let a = l1.last();
        assert(m.contains_pair(a.number, a));
        let j = choose|j: int| 0 <= j < l2.len() && (#[trigger] l2[j]).number == a.number;
        let b = l2.last();
        assert(m.contains_pair(b.number, b));
        let i = choose|i: int| 0 <= i < l1.len() && (#[trigger] l1[i]).number == b.number;
        if i < l1.len() - 1 {
            assert(l1[i].number < l1[l1.len() - 1].number);
        }
        if j < l2.len() - 1 {
            assert(l2[j].number < l2[l2.len() - 1].number);
        }
        assert(a.number == b.number);
        assert(a == b);
        lemma_lists_drop_last(l1, m);
        lemma_lists_drop_last(l2, m);
        lemma_one_list(l1.drop_last(), l2.drop_last(), m.remove(a.number));
        assert(l1 =~= l1.drop_last().push(a));
        assert(l2 =~= l2.drop_last().push(b));
    }
}

/// The number of the pokemon at place `i` of `items`.
spec fn number_at(items: Seq<Pokemon>, i: int) -> int {
    items[i].number@
}

/// Whether no two of `items` have the same number.
spec fn distinct(items: Seq<Pokemon>) -> bool {
    forall|i: int, j: int|
        0 <= i < j < items.len() ==> #[trigger] number_at(items, i) != #[trigger] number_at(
            items,
            j,
        )
}

/// Whether one of `items` has the number `n`.
spec fn holds(items: Seq<Pokemon>, n: int) -> bool {
    exists|i: int| 0 <= i < items.len() && #[trigger] number_at(items, i) == n
}

/// A place of `items` where the number `n` stands.
spec fn place(items: Seq<Pokemon>, n: int) -> int {
    choose|i: int| 0 <= i < items.len() && #[trigger] number_at(items, i) == n
}

/// The records that `items` stand for.
spec fn records(items: Seq<Pokemon>) -> Records {
    Map::new(|n: int| holds(items, n), |n: int| items[place(items, n)]@)
}

/// Among distinct items, a number is found at the place where it stands.
proof fn lemma_place(items: Seq<Pokemon>, i: int)
    requires
        distinct(items),
        0 <= i < items.len(),
    ensures
        holds(items, number_at(items, i)),
        place(items, number_at(items, i)) == i,
        records(items).contains_pair(items[i]@.number, items[i]@),
{
    let n = number_at(items, i);
    assert(holds(items, n));
    let k = place(items, n);
    assert(0 <= k < items.len() && number_at(items, k) == n);
    if k < i {
        assert(number_at(items, k) != number_at(items, i));
    } else if i < k {
        assert(number_at(items, i) != number_at(items, k));
    }
}

/// A pokemon with a new number, put at the end, is one more record.
proof fn lemma_push(items: Seq<Pokemon>, p: Pokemon)
    requires
        distinct(items),
        !holds(items, p.number@),
    ensures
        distinct(items.push(p)),
        records(items.push(p)) == records(items).insert(p.number@, p@),
{
    let grown = items.push(p);
    assert forall|i: int, j: int| 0 <= i < j < grown.len() implies #[trigger] number_at(grown, i)
        != #[trigger] number_at(grown, j) by {
        if j < items.len() {
            assert(number_at(items, i) != number_at(items, j));
        } else {
            assert(number_at(items, i) == number_at(grown, i));
        }
    }
    let m = records(items).insert(p.number@, p@);
    assert forall|n: int| #[trigger] records(grown).dom().contains(n) implies m.dom().contains(n) by {
        let i = place(grown, n);
        assert(0 <= i < grown.len() && number_at(grown, i) == n);
        if i < items.len() {
            assert(number_at(items, i) == n);
        }
    }
    assert forall|n: int| #[trigger] m.dom().contains(n) implies records(grown).dom().contains(n)
        && records(grown)[n] == m[n] by {
        if n == p.number@ {
            assert(number_at(grown, items.len() as int) == n);
            lemma_place(grown, items.len() as int);
        } else {
            let i = place(items, n);
            assert(0 <= i < items.len() && number_at(items, i) == n);
            assert(number_at(grown, i) == n);
            lemma_place(grown, i);
            lemma_place(items, i);
        }
    }
    assert(records(grown) =~= m);
}

/// Taking the pokemon at place `k` away takes its record away.
proof fn lemma_remove(items: Seq<Pokemon>, k: int)
    requires
        distinct(items),
        0 <= k < items.len(),
    ensures
        distinct(items.remove(k)),
        records(items.remove(k)) == records(items).remove(number_at(items, k)),
{
    let rest = items.remove(k);
    assert forall|i: int| 0 <= i < rest.len() implies #[trigger] number_at(rest, i) == number_at(
        items,
        if i < k {
            i
        } else {
            i + 1
        },
    ) by {}
    assert forall|i: int, j: int| 0 <= i < j < rest.len() implies #[trigger] number_at(rest, i)
        != #[trigger] number_at(rest, j) by {
        let a = if i < k {
            i
        } else {
            i + 1
        };
        let b = if j < k {
            j
        } else {
            j + 1
        };
        assert(number_at(items, a) != number_at(items, b));
    }
    let m = records(items).remove(number_at(items, k));
    assert forall|n: int| #[trigger] records(rest).dom().contains(n) implies m.dom().contains(n)
        && records(rest)[n] == m[n] by {
        let i = place(rest, n);
        assert(0 <= i < rest.len() && number_at(rest, i) == n);
        let a = if i < k {
            i
        } else {
            i + 1
        };
        assert(number_at(items, a) == n);
        if a < k {
            assert(number_at(items, a) != number_at(items, k));
        } else {
            assert(number_at(items, k) != number_at(items, a));
        }
        lemma_place(items, a);
        lemma_place(rest, i);
    }
    assert forall|n: int| #[trigger] m.dom().contains(n) implies records(rest).dom().contains(n) by {
        let a = place(items, n);
        assert(0 <= a < items.len() && number_at(items, a) == n);
        let i = if a < k {
            a
        } else {
            a - 1
        };
        assert(number_at(rest, i) == n);
    }
    assert(records(rest) =~= m);
}

/// Whether one of `items` is the pokemon `v`.
spec fn among(items: Seq<Pokemon>, v: PokemonView) -> bool {
    exists|j: int| 0 <= j < items.len() && (#[trigger] items[j])@ == v
}

/// Whether `items` and `sorted` hold the same pokemons.
spec fn matches(items: Seq<Pokemon>, sorted: Seq<Pokemon>) -> bool {
    &&& forall|i: int| 0 <= i < sorted.len() ==> among(items, (#[trigger] sorted[i])@)
    &&& forall|j: int| 0 <= j < items.len() ==> among(sorted, (#[trigger] items[j])@)
}

/// A list that ascends and holds the same pokemons as the items lists their
/// records.
proof fn lemma_lists(items: Seq<Pokemon>, sorted: Seq<Pokemon>)
    requires
        distinct(items),
        ascending(views(sorted)),
        matches(items, sorted),
    ensures
        lists(views(sorted), records(items)),
{
    let l = views(sorted);
    let m = records(items);
    assert forall|i: int| 0 <= i < l.len() implies m.contains_pair((#[trigger] l[i]).number, l[i]) by {
        assert(among(items, sorted[i]@));
        let j = choose|j: int| 0 <= j < items.len() && (#[trigger] items[j])@ == sorted[i]@;
        lemma_place(items, j);
    }
    assert forall|n: int| m.contains_key(n) implies exists|i: int|
        0 <= i < l.len() && (#[trigger] l[i]).number == n by {
        let j = place(items, n);
        assert(0 <= j < items.len() && number_at(items, j) == n);
        assert(among(sorted, items[j]@));
        let i = choose|i: int| 0 <= i < sorted.len() && (#[trigger] sorted[i])@ == items[j]@;
        assert(l[i].number == n);
    }
}

/// What matches the first `k` of distinct items holds no pokemon with the
/// number of the next one.
proof fn lemma_not_among(items: Seq<Pokemon>, k: int, sorted: Seq<Pokemon>, next: Pokemon)
    requires
        distinct(items),
        0 <= k < items.len(),
        matches(items.take(k), sorted),
        next@ == items[k]@,
    ensures
        forall|i: int| 0 <= i < sorted.len() ==> (#[trigger] sorted[i]).number@ != next.number@,
{
    assert forall|i: int| 0 <= i < sorted.len() implies (#[trigger] sorted[i]).number@
        != next.number@ by {
        assert(among(items.take(k), sorted[i]@));
        let j = choose|j: int| 0 <= j < k && (#[trigger] items.take(k)[j])@ == sorted[i]@;
        assert(number_at(items, j) != number_at(items, k));
    }
}

/// With the next item put into it at any place, what matched the first `k`
/// items matches the first `k + 1`.
proof fn lemma_matches_insert(
    items: Seq<Pokemon>,
    k: int,
    sorted: Seq<Pokemon>,
    at: int,
    next: Pokemon,
)
    requires
        0 <= k < items.len(),
        0 <= at <= sorted.len(),
        matches(items.take(k), sorted),
        next@ == items[k]@,
    ensures
        matches(items.take(k + 1), sorted.insert(at, next)),
{
    let short = items.take(k);
    let long = items.take(k + 1);
    let after = sorted.insert(at, next);
    assert forall|i: int| 0 <= i < after.len() implies among(long, (#[trigger] after[i])@) by {
        if i == at {
            assert(long[k]@ == next@);
        } else {
            let b = if i < at {
                i
            } else {
                i - 1
            };
            assert(after[i] == sorted[b]);
            assert(among(short, sorted[b]@));
            let j = choose|j: int| 0 <= j < k && (#[trigger] short[j])@ == sorted[b]@;
            assert(long[j]@ == after[i]@);
        }
    }
    assert forall|j: int| 0 <= j < long.len() implies among(after, (#[trigger] long[j])@) by {
        if j == k {
            assert(after[at]@ == long[j]@);
        } else {
            assert(long[j] == short[j]);
            assert(among(sorted, short[j]@));
            let b = choose|b: int| 0 <= b < sorted.len() && (#[trigger] sorted[b])@ == short[j]@;
            let i = if b < at {
                b
            } else {
                b + 1
            };
            assert(after[i] == sorted[b]);
        }
    }
}

/// Puts `pokemon` into an ascending list, before the first pokemon with a
/// greater number, and answers the place.
fn insert_by_number(sorted: &mut Vec<Pokemon>, pokemon: Pokemon) -> (at: usize)
    requires
        ascending(views(old(sorted)@)),
        forall|i: int|
            0 <= i < old(sorted)@.len() ==> (#[trigger] old(sorted)@[i]).number@ != pokemon.number@,
    ensures
        at <= old(sorted)@.len(),
        final(sorted)@ == old(sorted)@.insert(at as int, pokemon),
        ascending(views(final(sorted)@)),
{
    let n: u16 = pokemon.number.value();
    let mut at: usize = 0;
    while at < sorted.len() && sorted[at].number.value() < n
        invariant
            at <= sorted@.len(),
            forall|i: int| 0 <= i < at ==> (#[trigger] sorted@[i]).number@ < n,
        decreases sorted@.len() - at,
    {
        at += 1;
    }
    let ghost before = sorted@;
    sorted.insert(at, pokemon);
    proof {
        let after = sorted@;
        assert forall|i: int, j: int| 0 <= i < j < after.len() implies views(after)[i].number
            < views(after)[j].number by {
            let a = if i < at {
                i
            } else {
                i - 1
            };
            let b = if j < at {
                j
            } else {
                j - 1
            };
            if i != at {
                assert(after[i] == before[a]);
            }
            if j != at {
                assert(after[j] == before[b]);
            }
            if i != at && j != at {
                assert(views(before)[a].number < views(before)[b].number);
            } else if j == at {
                assert(before[a].number@ < n);
            } else {
                assert(before[at as int].number@ != n);
                if at < b {
                    assert(views(before)[at as int].number < views(before)[b].number);
                }
            }
        }
    }
    at
}

/// The pokemons of a store: one at most for each number.
pub struct Pokemons {
    items: Vec<Pokemon>,
}

impl View for Pokemons {
    type V = Records;

    closed spec fn view(&self) -> Records {
        records(self.items@)
    }
}

impl Pokemons {
    #[verifier::type_invariant]
    spec fn one_per_number(&self) -> bool {
        distinct(self.items@)
    }

    /// A store that holds nothing.
    pub fn new() -> (r: Self)
        ensures
            r@ == Map::<int, PokemonView>::empty(),
    {
        let r = Pokemons { items: Vec::new() };
        assert(r@ =~= Map::<int, PokemonView>::empty());
        r
    }

    /// The place of the pokemon with the number `n`, if there is one.
    fn position(&self, n: u16) -> (r: Option<usize>)
        ensures
            match r {
                Some(i) => i < self.items@.len() && number_at(self.items@, i as int) == n,
                None => !holds(self.items@, n as int),
            },
    {
        let mut i: usize = 0;
        while i < self.items.len()
            invariant
                i <= self.items@.len(),
                forall|j: int| 0 <= j < i ==> #[trigger] number_at(self.items@, j) != n,
            decreases self.items@.len() - i,
        {
            if self.items[i].number.value() == n {
                return Some(i);
            }
            i += 1;
        }
        None
    }

    /// Stores a pokemon made of the three values and answers a copy of it,
    /// unless the number is in use: then it answers a conflict and the store
    /// stays as it is.
    pub fn insert(&mut self, number: PokemonNumber, name: PokemonName, types: PokemonTypes) -> (r:
        Result<Pokemon, InsertError>)
        ensures
            seen(r) == insert_outcome(
                old(self)@,
                PokemonView { number: number@, name: name@, types: types@ },
            ),
            final(self)@ == after_insert(
                old(self)@,
                PokemonView { number: number@, name: name@, types: types@ },
            ),
    {
        proof {
            use_type_invariant(&*self);
        }
        match self.position(number.value()) {
            Some(i) => {
                proof {
                    lemma_place(self.items@, i as int);
                }
                Err(InsertError::Conflict)
            },
            None => {
                let pokemon = Pokemon::new(number, name, types);
                let copy = pokemon.clone();
                proof {
                    lemma_push(self.items@, copy);
                }
                let mut items: Vec<Pokemon> = Vec::new();
                core::mem::swap(&mut self.items, &mut items);
                items.push(copy);
                core::mem::swap(&mut self.items, &mut items);
                Ok(pokemon)
            },
        }
    }

    /// Answers a copy of every pokemon, by ascending number.
    pub fn fetch_all(&self) -> (r: Vec<Pokemon>)
        ensures
            lists(views(r@), self@),
    {
        proof {
            use_type_invariant(self);
        }
        let mut sorted: Vec<Pokemon> = Vec::new();
        let mut k: usize = 0;
        while k < self.items.len()
            invariant
                k <= self.items@.len(),
                distinct(self.items@),
                ascending(views(sorted@)),
                matches(self.items@.take(k as int), sorted@),
            decreases self.items@.len() - k,
        {
            let pokemon = self.items[k].clone();
            proof {
                lemma_not_among(self.items@, k as int, sorted@, pokemon);
            }
            let ghost before = sorted@;
            let at: usize = insert_by_number(&mut sorted, pokemon);
            proof {
                lemma_matches_insert(self.items@, k as int, before, at as int, pokemon);
            }
            k += 1;
        }
        proof {
            assert(self.items@.take(k as int) =~= self.items@);
            lemma_lists(self.items@, sorted@);
        }
        sorted
    }

    /// Answers a copy of the pokemon with the given number.
    pub fn fetch(&self, number: PokemonNumber) -> (r: Result<Pokemon, FetchError>)
        ensures
            seen(r) == fetch_outcome(self@, number@),
            r matches Ok(p) ==> p@.number == number@,
    {
        proof {
            use_type_invariant(self);
        }
        match self.position(number.value()) {
            Some(i) => {
                proof {
                    lemma_place(self.items@, i as int);
                }
                Ok(self.items[i].clone())
            },
            None => Err(FetchError::NotFound),
        }
    }

    /// Takes the pokemon with the given number out of the store and answers
    /// it.
    pub fn delete(&mut self, number: PokemonNumber) -> (r: Result<Pokemon, DeleteError>)
        ensures
            seen(r) == delete_outcome(old(self)@, number@),
            r matches Ok(p) ==> p@.number == number@,
            final(self)@ == after_delete(old(self)@, number@),
    {
        proof {
            use_type_invariant(&*self);
        }
        match self.position(number.value()) {
            Some(i) => {
                proof {
                    lemma_place(self.items@, i as int);
                    lemma_remove(self.items@, i as int);
                }
                let mut items: Vec<Pokemon> = Vec::new();
                core::mem::swap(&mut self.items, &mut items);
                let pokemon = items.remove(i);
                core::mem::swap(&mut self.items, &mut items);
                Ok(pokemon)
            },
            None => {
                assert(after_delete(self@, number@) =~= self@);
                Err(DeleteError::NotFound)
            },
        }
    }
}

/// The lock of the standard library, `std::sync::Mutex`. What it guards does
/// not show in contracts: another thread may change it between two calls.
#[verifier::external_type_specification]
#[verifier::external_body]
#[verifier::reject_recursive_types(T)]
pub struct ExMutex<T: ?Sized>(Mutex<T>);

/// The guard of a held lock, `std::sync::MutexGuard`.
#[verifier::external_type_specification]
#[verifier::external_body]
#[verifier::reject_recursive_types(T)]
pub struct ExMutexGuard<'a, T: ?Sized + 'a>(MutexGuard<'a, T>);

/// `Mutex::new`: a lock that guards `t`. Nothing is stated of the lock.
pub assume_specification<T>[ Mutex::<T>::new ](t: T) -> (m: Mutex<T>);

/// `Mutex::lock`: waits for the lock and answers its guard, or `None` where
/// the lock is poisoned. Nothing is stated of the outcome: whether the lock is
/// poisoned, and what it holds by then, depends on the other threads. The
/// thread that calls must not hold the lock already, or the call may never
/// return; every operation of the repository takes the lock once and gives it
/// up at its end.
#[verifier::external_body]
fn acquire<'a>(pokemons: &'a Mutex<Pokemons>) -> (guard: Option<MutexGuard<'a, Pokemons>>) {
    pokemons.lock().ok()
}

/// `DerefMut::deref_mut` of `MutexGuard`: the collection that the lock
/// holds, to read and to change for as long as the guard is borrowed. Nothing
/// is stated of what the collection holds.
#[verifier::external_body]
fn guarded<'a, 'b>(guard: &'a mut MutexGuard<'b, Pokemons>) -> (pokemons: &'a mut Pokemons) {
    &mut **guard
}

/// A store of pokemons that several threads can share.
pub trait Repository: Send + Sync {
    /// Whether the store is out of order. A store that is answers every
    /// operation with the unknown error.
    spec fn fails(&self) -> bool;

    /// Stores a pokemon made of the three values and answers a copy of it.
    /// Where the number is in use it answers a conflict.
    fn insert(&self, number: PokemonNumber, name: PokemonName, types: PokemonTypes) -> (r: Result<
        Pokemon,
        InsertError,
    >)
        ensures
            self.fails() ==> r == Err::<Pokemon, InsertError>(InsertError::Unknown),
            r matches Ok(p) ==> p@ == (PokemonView {
                number: number@,
                name: name@,
                types: types@,
            }),
    ;

    /// Answers every pokemon, by ascending number.
    fn fetch_all(&self) -> (r: Result<Vec<Pokemon>, FetchAllError>)
        ensures
            self.fails() ==> r == Err::<Vec<Pokemon>, FetchAllError>(FetchAllError::Unknown),
            r matches Ok(l) ==> ascending(views(l@)),
    ;

    /// Answers the pokemon with the given number, or that there is none.
    fn fetch(&self, number: PokemonNumber) -> (r: Result<Pokemon, FetchError>)
        ensures
            self.fails() ==> r == Err::<Pokemon, FetchError>(FetchError::Unknown),
            r matches Ok(p) ==> p@.number == number@,
    ;

    /// Takes the pokemon with the given number out and answers it, or that
    /// there is none.
    fn delete(&self, number: PokemonNumber) -> (r: Result<Pokemon, DeleteError>)
        ensures
            self.fails() ==> r == Err::<Pokemon, DeleteError>(DeleteError::Unknown),
            r matches Ok(p) ==> p@.number == number@,
    ;
}

/// A store in memory: one collection behind one lock, which every operation
/// holds from its start to its end.
pub struct InMemoryRepository {
    pokemons: Mutex<Pokemons>,
    error: bool,
}

impl InMemoryRepository {
    /// A store in working order.
    pub fn new() -> (r: Self)
        ensures
            !r.fails(),
    {
        Self { pokemons: Mutex::new(Pokemons::new()), error: false }
    }

    /// The same store, out of order from now on.
    pub fn with_error(self) -> (r: Self)
        ensures
            r.fails(),
    {
        Self { pokemons: self.pokemons, error: true }
    }
}

impl Repository for InMemoryRepository {
    closed spec fn fails(&self) -> bool {
        self.error
    }

    fn insert(&self, number: PokemonNumber, name: PokemonName, types: PokemonTypes) -> (r: Result<
        Pokemon,
        InsertError,
    >) {
        if self.error {
            return Err(InsertError::Unknown);
        }
        let mut guard = match acquire(&self.pokemons) {
            Some(guard) => guard,
            None => return Err(InsertError::Unknown),
        };
        guarded(&mut guard).insert(number, name, types)
    }

    fn fetch_all(&self) -> (r: Result<Vec<Pokemon>, FetchAllError>) {
        if self.error {
            return Err(FetchAllError::Unknown);
        }
        let mut guard = match acquire(&self.pokemons) {
            Some(guard) => guard,
            None => return Err(FetchAllError::Unknown),
        };
        Ok(guarded(&mut guard).fetch_all())
    }

    fn fetch(&self, number: PokemonNumber) -> (r: Result<Pokemon, FetchError>) {
        if self.error {
            return Err(FetchError::Unknown);
        }
        let mut guard = match acquire(&self.pokemons) {
            Some(guard) => guard,
            None => return Err(FetchError::Unknown),
        };
        guarded(&mut guard).fetch(number)
    }

    fn delete(&self, number: PokemonNumber) -> (r: Result<Pokemon, DeleteError>) {
        if self.error {
            return Err(DeleteError::Unknown);
        }
        let mut guard = match acquire(&self.pokemons) {
            Some(guard) => guard,
            None => return Err(DeleteError::Unknown),
        };
        guarded(&mut guard).delete(number)
    }
}

} // verus!
