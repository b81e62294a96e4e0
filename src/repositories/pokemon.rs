//! The storage contract that every backend meets, and the in-memory backend.
use vstd::prelude::*;

use crate::entities::{Pokemon, PokemonName, PokemonNumber, PokemonTypes, PokemonView};

verus! {

/// The views of a list of records.
pub open spec fn pokemons_view(v: Seq<Pokemon>) -> Seq<PokemonView> {
    v.map_values(|p: Pokemon| p@)
}

/// Some record of `s` has the number `n`.
pub open spec fn has_number(s: Seq<PokemonView>, n: u16) -> bool {
    exists|i: int| 0 <= i < s.len() && (#[trigger] s[i]).number == n
}

/// No two records of `s` share a number.
pub open spec fn unique_numbers(s: Seq<PokemonView>) -> bool {
    forall|i: int, j: int|
        0 <= i < s.len() && 0 <= j < s.len() && i != j ==> (#[trigger] s[i]).number
            != (#[trigger] s[j]).number
}

/// `sub` occurs in `s` as a run of consecutive characters.
pub open spec fn contains(s: Seq<char>, sub: Seq<char>) -> bool {
    exists|i: int| 0 <= i && i + sub.len() <= s.len() && #[trigger] s.subrange(i, i + sub.len()) == sub
}

/// The records of `s` whose name contains `sub`, in the order of `s`.
pub open spec fn named_like(s: Seq<PokemonView>, sub: Seq<char>) -> Seq<PokemonView> {
    s.filter(|p: PokemonView| contains(p.name, sub))
}

/// Why `insert` stored nothing.
pub enum InsertError {
    Conflict,
    Unknown,
}

/// Why `delete` removed nothing.
pub enum DeleteError {
    NotFound,
    Unknown,
}

/// Why `fetch_one` found no record.
pub enum FetchOneError {
    NotFound,
    Unknown,
}

/// Why a listing could not be made.
pub enum FetchAllError {
    Unknown,
}

/// What every backend offers. `Unknown` stands for a failure of the backend
/// itself (I/O, connectivity); no operation that reports it changes the
/// stored records. A backend never holds two records with one number.
pub trait Repository {
    /// The stored records, in the order the backend keeps them.
    spec fn records(&self) -> Seq<PokemonView>;

    /// The backend has been put in a state where every operation fails.
    spec fn forced_failure(&self) -> bool;

    /// The backend never fails (it holds everything in memory).
    spec fn dependable(&self) -> bool;

    /// Stores a new record, unless one with the same number is stored.
    fn insert(&mut self, number: PokemonNumber, name: PokemonName, types: PokemonTypes) -> (r:
        Result<Pokemon, InsertError>)
        ensures
            unique_numbers(old(self).records()),
            unique_numbers(final(self).records()),
            final(self).forced_failure() == old(self).forced_failure(),
            final(self).dependable() == old(self).dependable(),
            match r {
                Ok(p) => {
                    &&& !old(self).forced_failure()
                    &&& !has_number(old(self).records(), number@)
                    &&& p@ == (PokemonView { number: number@, name: name@, types: types@ })
                    &&& final(self).records() == old(self).records().push(p@)
                },
                Err(InsertError::Conflict) => {
                    &&& !old(self).forced_failure()
                    &&& has_number(old(self).records(), number@)
                    &&& final(self).records() == old(self).records()
                },
                Err(InsertError::Unknown) => {
                    &&& !old(self).dependable()
                    &&& final(self).records() == old(self).records()
                },
            },
    ;

    /// Removes the record with the given number.
    fn delete(&mut self, number: PokemonNumber) -> (r: Result<(), DeleteError>)
        ensures
            unique_numbers(old(self).records()),
            unique_numbers(final(self).records()),
            final(self).forced_failure() == old(self).forced_failure(),
            final(self).dependable() == old(self).dependable(),
            match r {
                Ok(()) => {
                    &&& !old(self).forced_failure()
                    &&& exists|i: int|
                        0 <= i < old(self).records().len() && (#[trigger] old(
                            self,
                        ).records()[i]).number == number@ && final(self).records() == old(
                            self,
                        ).records().remove(i)
                },
                Err(DeleteError::NotFound) => {
                    &&& !old(self).forced_failure()
                    &&& !has_number(old(self).records(), number@)
                    &&& final(self).records() == old(self).records()
                },
                Err(DeleteError::Unknown) => {
                    &&& !old(self).dependable()
                    &&& final(self).records() == old(self).records()
                },
            },
    ;

    /// The record with the given number.
    fn fetch_one(&self, number: PokemonNumber) -> (r: Result<Pokemon, FetchOneError>)
        ensures
            unique_numbers(self.records()),
            match r {
                Ok(p) => {
                    &&& !self.forced_failure()
                    &&& exists|i: int|
                        0 <= i < self.records().len() && #[trigger] self.records()[i] == p@
                            && p@.number == number@
                },
                Err(FetchOneError::NotFound) => {
                    &&& !self.forced_failure()
                    &&& !has_number(self.records(), number@)
                },
                Err(FetchOneError::Unknown) => !self.dependable(),
            },
    ;

    /// Every stored record.
    fn fetch_all(&self) -> (r: Result<Vec<Pokemon>, FetchAllError>)
        ensures
            unique_numbers(self.records()),
            match r {
                Ok(v) => !self.forced_failure() && pokemons_view(v@) == self.records(),
                Err(FetchAllError::Unknown) => !self.dependable(),
            },
    ;

    /// The stored records whose name contains `name`, in storage order.
    fn fetch_by_name(&self, name: &str) -> (r: Result<Vec<Pokemon>, FetchAllError>)
        ensures
            unique_numbers(self.records()),
            match r {
                Ok(v) => !self.forced_failure() && pokemons_view(v@) == named_like(
                    self.records(),
                    name@,
                ),
                Err(FetchAllError::Unknown) => !self.dependable(),
            },
    ;
}

/// The characters of `s`, one by one.
fn chars_of(s: &str) -> (r: Vec<char>)
    ensures
        r@ == s@,
{
    let n = s.unicode_len();
    let mut r: Vec<char> = Vec::new();
    let mut i: usize = 0;
    while i < n
        invariant
            n == s@.len(),
            i <= n,
            r@ == s@.subrange(0, i as int),
        decreases n - i,
    {
        r.push(s.get_char(i));
        assert(r@ =~= s@.subrange(0, i + 1));
        i = i + 1;
    }
    assert(r@ =~= s@);
    r
}

/// Whether `sub` occurs in `s`.
pub fn contains_str(s: &str, sub: &str) -> (r: bool)
    ensures
        r == contains(s@, sub@),
{
    let t = chars_of(s);
    let u = chars_of(sub);
    if u.len() > t.len() {
        return false;
    }
    let last = t.len() - u.len();
    let mut i: usize = 0;
    loop
        invariant
            t@ == s@,
            u@ == sub@,
            last == t.len() - u.len(),
            i <= last,
            forall|k: int| 0 <= k < i ==> #[trigger] s@.subrange(k, k + sub@.len()) != sub@,
        ensures
            forall|k: int| 0 <= k <= last ==> #[trigger] s@.subrange(k, k + sub@.len()) != sub@,
        decreases last - i,
    {
        let mut j: usize = 0;
        let mut same = true;
        while j < u.len()
            invariant
                t@ == s@,
                u@ == sub@,
                i <= last,
                last == t.len() - u.len(),
                j <= u.len(),
                same ==> forall|l: int| 0 <= l < j ==> t@[i + l] == u@[l],
                !same ==> s@.subrange(i as int, i + sub@.len()) != sub@,
            decreases u.len() - j,
        {
            if t[i + j] != u[j] {
                assert(s@.subrange(i as int, i + sub@.len())[j as int] == t@[i + j]);
                same = false;
            }
            j = j + 1;
        }
        if same {
            assert(s@.subrange(i as int, i + sub@.len()) =~= sub@);
            return true;
        }
        if i == last {
            break;
        }
        i = i + 1;
    }
    assert forall|k: int| 0 <= k && k + sub@.len() <= s@.len() implies #[trigger] s@.subrange(
        k,
        k + sub@.len(),
    ) != sub@ by {
        assert(k <= last);
    }
    false
}

/// The reference backend: records in memory, in insertion order, with a
/// switch that makes every operation fail.
pub struct InMemoryRepository {
    error: bool,
    pokemons: Vec<Pokemon>,
}

impl InMemoryRepository {
    #[verifier::type_invariant]
    closed spec fn inv(self) -> bool {
        unique_numbers(pokemons_view(self.pokemons@))
    }

    /// An empty store that works.
    pub fn new() -> (r: InMemoryRepository)
        ensures
            r.records() == Seq::<PokemonView>::empty(),
            !r.forced_failure(),
            r.dependable(),
    {
        let r = InMemoryRepository { error: false, pokemons: Vec::new() };
        assert(pokemons_view(r.pokemons@) =~= Seq::<PokemonView>::empty());
        r
    }

    /// The same store, put in failure mode.
    pub fn with_error(self) -> (r: InMemoryRepository)
        ensures
            r.records() == self.records(),
            r.forced_failure(),
            !r.dependable(),
    {
        proof {
            use_type_invariant(&self);
        }
        InMemoryRepository { error: true, pokemons: self.pokemons }
    }

    /// Moves the records out, leaving the store empty for the moment.
    fn take_records(&mut self) -> (r: Vec<Pokemon>)
        ensures
            r@ == old(self).pokemons@,
            unique_numbers(pokemons_view(r@)),
            final(self).error == old(self).error,
    {
        let mut other = InMemoryRepository { error: self.error, pokemons: Vec::new() };
        assert(pokemons_view(other.pokemons@) =~= Seq::<PokemonView>::empty());
        core::mem::swap(self, &mut other);
        proof {
            use_type_invariant(&other);
        }
        other.pokemons
    }

    /// Where the record with number `n` stands, if any.
    fn position(&self, n: u16) -> (r: Option<usize>)
        ensures
            match r {
                Some(i) => i < self.records().len() && self.records()[i as int].number == n,
                None => !has_number(self.records(), n),
            },
    {
        let mut i: usize = 0;
        while i < self.pokemons.len()
            invariant
                i <= self.pokemons.len(),
                forall|k: int| 0 <= k < i ==> (#[trigger] self.records()[k]).number != n,
            decreases self.pokemons.len() - i,
        {
            if self.pokemons[i].number.value() == n {
                return Some(i);
            }
            i = i + 1;
        }
        None
    }
}

impl Repository for InMemoryRepository {
    closed spec fn records(&self) -> Seq<PokemonView> {
        pokemons_view(self.pokemons@)
    }

    closed spec fn forced_failure(&self) -> bool {
        self.error
    }

    closed spec fn dependable(&self) -> bool {
        !self.error
    }

    fn insert(&mut self, number: PokemonNumber, name: PokemonName, types: PokemonTypes) -> (r:
        Result<Pokemon, InsertError>) {
        proof {
            use_type_invariant(&*self);
        }
        if self.error {
            return Err(InsertError::Unknown);
        }
        if self.position(number.value()).is_some() {
            return Err(InsertError::Conflict);
        }
        let p = Pokemon::new(number, name, types);
        let mut list = self.take_records();
        list.push(p.duplicate());
        assert(pokemons_view(list@) =~= pokemons_view(old(self).pokemons@).push(p@));
        *self = InMemoryRepository { error: false, pokemons: list };
        Ok(p)
    }

    fn delete(&mut self, number: PokemonNumber) -> (r: Result<(), DeleteError>) {
        proof {
            use_type_invariant(&*self);
        }
        if self.error {
            return Err(DeleteError::Unknown);
        }
        match self.position(number.value()) {
            Some(i) => {
                let mut list = self.take_records();
                list.remove(i);
                assert(pokemons_view(list@) =~= pokemons_view(old(self).pokemons@).remove(
                    i as int,
                ));
                *self = InMemoryRepository { error: false, pokemons: list };
                assert(old(self).records()[i as int].number == number@);
                Ok(())
            },
            None => Err(DeleteError::NotFound),
        }
    }

    fn fetch_one(&self, number: PokemonNumber) -> (r: Result<Pokemon, FetchOneError>) {
        proof {
            use_type_invariant(self);
        }
        if self.error {
            return Err(FetchOneError::Unknown);
        }
        match self.position(number.value()) {
            Some(i) => {
                let p = self.pokemons[i].duplicate();
                assert(self.records()[i as int] == p@);
                Ok(p)
            },
            None => Err(FetchOneError::NotFound),
        }
    }

    fn fetch_all(&self) -> (r: Result<Vec<Pokemon>, FetchAllError>) {
        proof {
            use_type_invariant(self);
        }
        if self.error {
            return Err(FetchAllError::Unknown);
        }
        let mut v: Vec<Pokemon> = Vec::new();
        let mut i: usize = 0;
        while i < self.pokemons.len()
            invariant
                i <= self.pokemons.len(),
                pokemons_view(v@) == self.records().subrange(0, i as int),
            decreases self.pokemons.len() - i,
        {
            let p = self.pokemons[i].duplicate();
            let ghost before = v@;
            assert(self.records()[i as int] == p@);
            v.push(p);
            assert(pokemons_view(v@) =~= pokemons_view(before).push(p@));
            assert(self.records().subrange(0, i + 1) =~= self.records().subrange(0, i as int).push(
                p@,
            ));
            i = i + 1;
        }
        assert(self.records().subrange(0, i as int) =~= self.records());
        Ok(v)
    }

    fn fetch_by_name(&self, name: &str) -> (r: Result<Vec<Pokemon>, FetchAllError>) {
        proof {
            use_type_invariant(self);
        }
        if self.error {
            return Err(FetchAllError::Unknown);
        }
        let mut v: Vec<Pokemon> = Vec::new();
        let mut i: usize = 0;
        while i < self.pokemons.len()
            invariant
                i <= self.pokemons.len(),
                pokemons_view(v@) == named_like(self.records().subrange(0, i as int), name@),
            decreases self.pokemons.len() - i,
        {
            let ghost prefix = self.records().subrange(0, i as int);
            let ghost x = self.records()[i as int];
            assert(self.records().subrange(0, i + 1) =~= prefix.push(x));
            proof {
                prefix.lemma_filter_push(x, |p: PokemonView| contains(p.name, name@));
            }
            if contains_str(self.pokemons[i].name.as_str(), name) {
                let p = self.pokemons[i].duplicate();
                assert(x == p@);
                v.push(p);
                assert(pokemons_view(v@) =~= named_like(self.records().subrange(0, i + 1), name@));
            }
            i = i + 1;
        }
        assert(self.records().subrange(0, i as int) =~= self.records());
        Ok(v)
    }
}

} // verus!
