//! Finding a name in a list of names. The registries of the library keep
//! their entries in lists in which no name occurs twice.

use vstd::prelude::*;

verus! {

/// The first position at which `names` holds `wanted`, if it holds it.
pub open spec fn spec_index_of(names: Seq<Seq<char>>, wanted: Seq<char>) -> Option<int>
    decreases names.len(),
{
    if names.len() == 0 {
        None
    } else if names.first() == wanted {
        Some(0int)
    } else {
        match spec_index_of(names.drop_first(), wanted) {
            Some(i) => Some(i + 1),
            None => None,
        }
    }
}

/// No name occurs twice.
pub open spec fn spec_distinct(names: Seq<Seq<char>>) -> bool {
    forall|i: int, j: int| 0 <= i < j < names.len() ==> #[trigger] names[i] != #[trigger] names[j]
}

/// What `spec_index_of` finds: the first position of the name, and none where
/// the name does not occur.
pub proof fn lemma_index_of(names: Seq<Seq<char>>, wanted: Seq<char>)
    ensures
        match spec_index_of(names, wanted) {
            Some(i) => 0 <= i < names.len() && names[i] == wanted && forall|j: int|
                0 <= j < i ==> #[trigger] names[j] != wanted,
            None => forall|j: int| 0 <= j < names.len() ==> #[trigger] names[j] != wanted,
        },
    decreases names.len(),
{
    if names.len() > 0 && names.first() != wanted {
        let rest = names.drop_first();
        lemma_index_of(rest, wanted);
        match spec_index_of(rest, wanted) {
            Some(i) => {
                assert forall|j: int| 0 <= j < i + 1 implies #[trigger] names[j] != wanted by {
                    if j > 0 {
                        assert(rest[j - 1] == names[j]);
                    }
                }
            },
            None => {
                assert forall|j: int| 0 <= j < names.len() implies #[trigger] names[j]
                    != wanted by {
                    if j > 0 {
                        assert(rest[j - 1] == names[j]);
                    }
                }
            },
        }
    }
}

/// A position that holds the name, with the name at no earlier position, is
/// the position that `spec_index_of` finds; a list that holds the name
/// nowhere has none.
pub proof fn lemma_index_of_is(names: Seq<Seq<char>>, wanted: Seq<char>, found: Option<int>)
    requires
        match found {
            Some(i) => 0 <= i < names.len() && names[i] == wanted && forall|j: int|
                0 <= j < i ==> #[trigger] names[j] != wanted,
            None => forall|j: int| 0 <= j < names.len() ==> #[trigger] names[j] != wanted,
        },
    ensures
        spec_index_of(names, wanted) == found,
{
    lemma_index_of(names, wanted);
}

/// Putting a name in the place of the same name, adding a name that does not
/// occur, and taking a name out all keep the names distinct; and a name that
/// occurred once occurs no more after it was taken out.
pub proof fn lemma_distinct_kept(names: Seq<Seq<char>>, name: Seq<char>)
    requires
        spec_distinct(names),
    ensures
        match spec_index_of(names, name) {
            Some(i) => spec_distinct(names.update(i, name)) && spec_distinct(names.remove(i))
                && spec_index_of(names.remove(i), name) is None,
            None => spec_distinct(names.push(name)),
        },
{
    lemma_index_of(names, name);
    match spec_index_of(names, name) {
        Some(at) => {
            let gone = names.remove(at);
            assert(names.update(at, name) == names);
            assert forall|i: int, j: int| 0 <= i < j < gone.len() implies #[trigger] gone[i]
                != #[trigger] gone[j] by {
                let a = if i < at {
                    i
                } else {
                    i + 1
                };
                let b = if j < at {
                    j
                } else {
                    j + 1
                };
                assert(gone[i] == names[a] && gone[j] == names[b]);
            }
            assert forall|j: int| 0 <= j < gone.len() implies #[trigger] gone[j] != name by {
                let b = if j < at {
                    j
                } else {
                    j + 1
                };
                assert(gone[j] == names[b]);
                if b < at {
                    assert(names[b] != names[at]);
                } else {
                    assert(names[at] != names[b]);
                }
            }
            lemma_index_of_is(gone, name, None);
        },
        None => {},
    }
}

} // verus!
