//! The named string arguments of a Nix expression.

use vstd::prelude::*;

verus! {

/// Name and value pairs, as they are passed on.
pub type Pairs = Seq<(Seq<char>, Seq<char>)>;

/// No name occurs twice.
pub open spec fn distinct_names(pairs: Pairs) -> bool {
    forall|i: int, j: int|
        0 <= i < j < pairs.len() ==> (#[trigger] pairs[i]).0 != (#[trigger] pairs[j]).0
}

/// Some pair has the name `name`.
pub open spec fn has_name(pairs: Pairs, name: Seq<char>) -> bool {
    exists|i: int| 0 <= i < pairs.len() && (#[trigger] pairs[i]).0 == name
}

/// The pairs with `name` bound to `value`: a name that is there already keeps
/// its place, a new one goes to the end.
pub open spec fn bind(pairs: Pairs, name: Seq<char>, value: Seq<char>) -> Pairs {
    if has_name(pairs, name) {
        pairs.map_values(
            |pair: (Seq<char>, Seq<char>)|
                if pair.0 == name {
                    (name, value)
                } else {
                    pair
                },
        )
    } else {
        pairs.push((name, value))
    }
}

/// What the pairs bind, whatever their order.
pub open spec fn bindings(pairs: Pairs) -> Map<Seq<char>, Seq<char>> {
    Map::new(
        |name: Seq<char>| has_name(pairs, name),
        |name: Seq<char>|
            pairs[choose|i: int| 0 <= i < pairs.len() && (#[trigger] pairs[i]).0 == name].1,
    )
}

/// Binding a name keeps the names distinct.
pub proof fn lemma_bind_distinct(pairs: Pairs, name: Seq<char>, value: Seq<char>)
    requires
        distinct_names(pairs),
    ensures
        distinct_names(bind(pairs, name, value)),
{
}

/// Binding a name puts the name with its value among the pairs.
pub proof fn lemma_bind_contains(pairs: Pairs, name: Seq<char>, value: Seq<char>)
    ensures
        bind(pairs, name, value).contains((name, value)),
{
    let bound = bind(pairs, name, value);
    let i = if has_name(pairs, name) {
        choose|i: int| 0 <= i < pairs.len() && (#[trigger] pairs[i]).0 == name
    } else {
        pairs.len() as int
    };
    assert(bound[i] == (name, value));
}

/// Name and value pairs in the order in which the names were first bound.
pub struct Argstrs {
    pairs: Vec<(String, String)>,
}

/// What a list of string pairs says.
spec fn texts(pairs: Seq<(String, String)>) -> Pairs {
    pairs.map_values(|pair: (String, String)| (pair.0@, pair.1@))
}

impl View for Argstrs {
    type V = Pairs;

    closed spec fn view(&self) -> Pairs {
        texts(self.pairs@)
    }
}

impl Argstrs {
    /// What holds of all arguments ever made: no name is bound twice.
    #[verifier::type_invariant]
    pub open spec fn names_are_distinct(self) -> bool {
        distinct_names(self@)
    }

    /// No arguments.
    pub fn new() -> (argstrs: Argstrs)
        ensures
            argstrs@ == Pairs::empty(),
            distinct_names(argstrs@),
    {
        Argstrs { pairs: Vec::new() }
    }

    /// Bind `name` to `value`, in place of what it was bound to before.
    pub fn insert(&mut self, name: &str, value: &str)
        ensures
            final(self)@ == bind(old(self)@, name@, value@),
            distinct_names(final(self)@),
    {
        proof {
            use_type_invariant(&*self);
        }
        let ghost before = texts(self.pairs@);
        let mut pairs: Vec<(String, String)> = Vec::new();
        std::mem::swap(&mut pairs, &mut self.pairs);
        let name: String = name.to_string();
        let value: String = value.to_string();
        let mut i: usize = 0;
        while i < pairs.len()
            invariant
                i <= pairs.len(),
                texts(pairs@) == before,
                forall|j: int| 0 <= j < i ==> (#[trigger] before[j]).0 != name@,
            ensures
                i < pairs.len() ==> before[i as int].0 == name@,
            decreases pairs.len() - i,
        {
            assert(before[i as int] == (pairs[i as int].0@, pairs[i as int].1@));
            if pairs[i].0 == name {
                break;
            }
            i = i + 1;
        }
        proof {
            lemma_bind_distinct(before, name@, value@);
        }
        if i < pairs.len() {
            pairs.set(i, (name, value));
            assert(texts(pairs@) =~= bind(before, name@, value@));
        } else {
            pairs.push((name, value));
            assert(texts(pairs@) =~= bind(before, name@, value@));
        }
        self.pairs = pairs;
    }

    /// The number of names bound.
    pub fn len(&self) -> (len: usize)
        ensures
            len == self@.len(),
            distinct_names(self@),
    {
        proof {
            use_type_invariant(self);
        }
        self.pairs.len()
    }

    /// The `i`th name and its value.
    pub fn get(&self, i: usize) -> (pair: (&str, &str))
        requires
            i < self@.len(),
        ensures
            (pair.0@, pair.1@) == self@[i as int],
    {
        (self.pairs[i].0.as_str(), self.pairs[i].1.as_str())
    }
}

impl Clone for Argstrs {
    fn clone(&self) -> (copy: Argstrs)
        ensures
            copy@ == self@,
            distinct_names(copy@),
    {
        proof {
            use_type_invariant(self);
        }
        let mut pairs: Vec<(String, String)> = Vec::new();
        let mut i: usize = 0;
        while i < self.pairs.len()
            invariant
                i <= self.pairs.len(),
                pairs@ =~= self.pairs@.take(i as int),
            decreases self.pairs.len() - i,
        {
            pairs.push((self.pairs[i].0.clone(), self.pairs[i].1.clone()));
            i = i + 1;
        }
        assert(pairs@ == self.pairs@);
        Argstrs { pairs }
    }
}

} // verus!
