//! Value objects that validate raw input, and the record built from them.
use vstd::prelude::*;

verus! {

/// A character that `char::is_whitespace` accepts: the Unicode
/// `White_Space` property.
pub open spec fn is_space(c: char) -> bool {
    let u = c as u32;
    (0x09 <= u && u <= 0x0d) || u == 0x20 || u == 0x85 || u == 0xa0 || u == 0x1680 || (0x2000
        <= u && u <= 0x200a) || u == 0x2028 || u == 0x2029 || u == 0x202f || u == 0x205f || u
        == 0x3000
}

/// Nothing is left of `s` once surrounding whitespace is trimmed.
pub open spec fn blank(s: Seq<char>) -> bool {
    forall|i: int| 0 <= i < s.len() ==> is_space(#[trigger] s[i])
}

fn char_is_space(c: char) -> (r: bool)
    ensures
        r == is_space(c),
{
    let u = c as u32;
    (0x09 <= u && u <= 0x0d) || u == 0x20 || u == 0x85 || u == 0xa0 || u == 0x1680 || (0x2000
        <= u && u <= 0x200a) || u == 0x2028 || u == 0x2029 || u == 0x202f || u == 0x205f || u
        == 0x3000
}

/// Whether `s` holds only whitespace (or nothing at all).
pub fn is_blank(s: &str) -> (r: bool)
    ensures
        r == blank(s@),
{
    let n = s.unicode_len();
    let mut i: usize = 0;
    while i < n
        invariant
            n == s@.len(),
            i <= n,
            blank(s@.subrange(0, i as int)),
        decreases n - i,
    {
        let c = s.get_char(i);
        if !char_is_space(c) {
            return false;
        }
        assert(s@.subrange(0, i + 1) =~= s@.subrange(0, i as int).push(c));
        i = i + 1;
    }
    assert(s@.subrange(0, n as int) =~= s@);
    true
}

/// The key of a record: a positive 16-bit number.
pub struct PokemonNumber {
    value: u16,
}

impl View for PokemonNumber {
    type V = u16;

    closed spec fn view(&self) -> u16 {
        self.value
    }
}

impl PokemonNumber {
    #[verifier::type_invariant]
    closed spec fn inv(self) -> bool {
        self.value > 0
    }

    /// Accepts any number but zero.
    pub fn try_from(value: u16) -> (r: Result<PokemonNumber, ()>)
        ensures
            r is Ok <==> value > 0,
            r is Ok ==> r->Ok_0@ == value,
    {
        if value > 0 {
            Ok(PokemonNumber { value })
        } else {
            Err(())
        }
    }

    /// The raw number back.
    pub fn value(&self) -> (r: u16)
        ensures
            r == self@,
            r > 0,
    {
        proof {
            use_type_invariant(self);
        }
        self.value
    }

    /// An equal number.
    pub fn duplicate(&self) -> (r: PokemonNumber)
        ensures
            r@ == self@,
    {
        proof {
            use_type_invariant(self);
        }
        PokemonNumber { value: self.value }
    }
}

/// The display name of a record: not blank.
pub struct PokemonName {
    value: String,
}

impl View for PokemonName {
    type V = Seq<char>;

    closed spec fn view(&self) -> Seq<char> {
        self.value@
    }
}

impl PokemonName {
    #[verifier::type_invariant]
    closed spec fn inv(self) -> bool {
        !blank(self.value@)
    }

    /// Accepts a name that holds something besides whitespace; keeps it as given.
    pub fn try_from(value: String) -> (r: Result<PokemonName, ()>)
        ensures
            r is Ok <==> !blank(value@),
            r is Ok ==> r->Ok_0@ == value@,
    {
        if is_blank(value.as_str()) {
            Err(())
        } else {
            Ok(PokemonName { value })
        }
    }

    /// The name as a `String` again.
    pub fn value(&self) -> (r: String)
        ensures
            r@ == self@,
            !blank(r@),
    {
        proof {
            use_type_invariant(self);
        }
        self.value.clone()
    }

    /// The name, borrowed.
    pub fn as_str(&self) -> (r: &str)
        ensures
            r@ == self@,
    {
        self.value.as_str()
    }

    /// An equal name.
    pub fn duplicate(&self) -> (r: PokemonName)
        ensures
            r@ == self@,
    {
        proof {
            use_type_invariant(self);
        }
        PokemonName { value: self.value.clone() }
    }
}

/// The views of a list of strings.
pub open spec fn strings_view(v: Seq<String>) -> Seq<Seq<char>> {
    v.map_values(|s: String| s@)
}

/// A non-empty list of type tags, none of them empty.
pub open spec fn valid_types(t: Seq<Seq<char>>) -> bool {
    t.len() > 0 && forall|i: int| 0 <= i < t.len() ==> (#[trigger] t[i]).len() > 0
}

/// A copy of `v`, string by string.
fn copy_strings(v: &Vec<String>) -> (r: Vec<String>)
    ensures
        strings_view(r@) == strings_view(v@),
{
    let mut r: Vec<String> = Vec::new();
    let mut i: usize = 0;
    while i < v.len()
        invariant
            i <= v.len(),
            strings_view(r@) == strings_view(v@.subrange(0, i as int)),
        decreases v.len() - i,
    {
        r.push(v[i].clone());
        assert(strings_view(v@.subrange(0, i + 1)) =~= strings_view(v@.subrange(0, i as int)).push(
            v@[i as int]@,
        ));
        assert(strings_view(r@) =~= strings_view(v@.subrange(0, i + 1)));
        i = i + 1;
    }
    assert(v@.subrange(0, v.len() as int) =~= v@);
    r
}

/// The categories of a record: at least one, and none empty.
pub struct PokemonTypes {
    values: Vec<String>,
}

impl View for PokemonTypes {
    type V = Seq<Seq<char>>;

    closed spec fn view(&self) -> Seq<Seq<char>> {
        strings_view(self.values@)
    }
}

impl PokemonTypes {
    #[verifier::type_invariant]
    closed spec fn inv(self) -> bool {
        valid_types(strings_view(self.values@))
    }

    /// Accepts a non-empty list whose strings are all non-empty; keeps its order.
    pub fn try_from(values: Vec<String>) -> (r: Result<PokemonTypes, ()>)
        ensures
            r is Ok <==> valid_types(strings_view(values@)),
            r is Ok ==> r->Ok_0@ == strings_view(values@),
    {
        if values.len() == 0 {
            return Err(());
        }
        let mut i: usize = 0;
        while i < values.len()
            invariant
                i <= values.len(),
                forall|j: int| 0 <= j < i ==> (#[trigger] values@[j])@.len() > 0,
            decreases values.len() - i,
        {
            if values[i].as_str().unicode_len() == 0 {
                assert(strings_view(values@)[i as int] == values@[i as int]@);
                return Err(());
            }
            i = i + 1;
        }
        assert forall|j: int| 0 <= j < strings_view(values@).len() implies (#[trigger] strings_view(
            values@,
        )[j]).len() > 0 by {
            assert(values@[j]@.len() > 0);
        }
        Ok(PokemonTypes { values })
    }

    /// The list back, in its order.
    pub fn value(&self) -> (r: Vec<String>)
        ensures
            strings_view(r@) == self@,
            valid_types(strings_view(r@)),
    {
        proof {
            use_type_invariant(self);
        }
        copy_strings(&self.values)
    }

    /// An equal list.
    pub fn duplicate(&self) -> (r: PokemonTypes)
        ensures
            r@ == self@,
    {
        proof {
            use_type_invariant(self);
        }
        PokemonTypes { values: copy_strings(&self.values) }
    }
}

/// What a record holds, as plain values.
pub struct PokemonView {
    pub number: u16,
    pub name: Seq<char>,
    pub types: Seq<Seq<char>>,
}

/// A valid record: its number is its identity.
pub struct Pokemon {
    pub number: PokemonNumber,
    pub name: PokemonName,
    pub types: PokemonTypes,
}

impl View for Pokemon {
    type V = PokemonView;

    open spec fn view(&self) -> PokemonView {
        PokemonView { number: self.number@, name: self.name@, types: self.types@ }
    }
}

impl Pokemon {
    /// The record made of the three parts.
    pub fn new(number: PokemonNumber, name: PokemonName, types: PokemonTypes) -> (r: Pokemon)
        ensures
            r.number@ == number@,
            r.name@ == name@,
            r.types@ == types@,
    {
        Pokemon { number, name, types }
    }

    /// An equal record.
    pub fn duplicate(&self) -> (r: Pokemon)
        ensures
            r@ == self@,
    {
        Pokemon {
            number: self.number.duplicate(),
            name: self.name.duplicate(),
            types: self.types.duplicate(),
        }
    }
}

} // verus!
