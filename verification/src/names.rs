//! Looking a name up in an ordered list of names.
//!
//! The registries keep their records in the order of registration and never
//! merge two records of one name: a lookup answers with the first.

use vstd::prelude::*;

verus! {

/// The place of the first `name` in `names`, or the length of `names` where
/// it holds none.
pub open spec fn first_position(names: Seq<Seq<char>>, name: Seq<char>) -> int
    decreases names.len(),
{
    if names.len() == 0 {
        0
    } else if names[0] == name {
        0
    } else {
        1 + first_position(names.drop_first(), name)
    }
}

/// Whether `i` is the place of the first `name` in `names`.
pub open spec fn is_first(names: Seq<Seq<char>>, name: Seq<char>, i: int) -> bool {
    &&& 0 <= i < names.len()
    &&& names[i] == name
    &&& forall|j: int| 0 <= j < i ==> #[trigger] names[j] != name
}

/// The first position lies within the list exactly when the list holds the
/// name, and then it is the place of its first occurrence.
pub proof fn lemma_first_position(names: Seq<Seq<char>>, name: Seq<char>)
    ensures
        0 <= first_position(names, name) <= names.len(),
        first_position(names, name) < names.len() <==> names.contains(name),
        first_position(names, name) < names.len() ==> is_first(
            names,
            name,
            first_position(names, name),
        ),
    decreases names.len(),
{
    if names.len() == 0 {
    } else if names[0] == name {
        assert(names.contains(name));
    } else {
        let rest = names.drop_first();
        lemma_first_position(rest, name);
        let p = first_position(rest, name);
        if p < rest.len() {
            assert(names[p + 1] == rest[p]);
            assert forall|j: int| 0 <= j < p + 1 implies #[trigger] names[j] != name by {
                if j > 0 {
                    assert(names[j] == rest[j - 1]);
                }
            }
        }
        if names.contains(name) {
            let k = choose|k: int| 0 <= k < names.len() && names[k] == name;
            assert(rest[k - 1] == names[k]);
            assert(rest.contains(name));
        }
    }
}

/// A place that holds the name, with no earlier one that does, is the first
/// position.
pub proof fn lemma_is_first(names: Seq<Seq<char>>, name: Seq<char>, i: int)
    requires
        is_first(names, name, i),
    ensures
        first_position(names, name) == i,
    decreases names.len(),
{
    if i == 0 {
    } else {
        assert(names[0] != name);
        let rest = names.drop_first();
        assert(is_first(rest, name, i - 1)) by {
            assert(rest[i - 1] == names[i]);
            assert forall|j: int| 0 <= j < i - 1 implies #[trigger] rest[j] != name by {
                assert(rest[j] == names[j + 1]);
            }
        }
        lemma_is_first(rest, name, i - 1);
    }
}

/// A list that does not hold the name has its length as first position.
pub proof fn lemma_absent(names: Seq<Seq<char>>, name: Seq<char>)
    requires
        forall|j: int| 0 <= j < names.len() ==> #[trigger] names[j] != name,
    ensures
        first_position(names, name) == names.len(),
        !names.contains(name),
{
    lemma_first_position(names, name);
    if names.contains(name) {
        let k = choose|k: int| 0 <= k < names.len() && names[k] == name;
        assert(names[k] != name);
    }
}

/// Appending a name leaves the first position of every name that the list
/// held already, and puts a new name last.
pub proof fn lemma_first_position_push(names: Seq<Seq<char>>, added: Seq<char>, name: Seq<char>)
    ensures
        names.contains(name) ==> first_position(names.push(added), name) == first_position(
            names,
            name,
        ),
        !names.contains(name) && added == name ==> first_position(names.push(added), name)
            == names.len(),
        !names.contains(name) && added != name ==> first_position(names.push(added), name)
            == names.len() + 1,
        names.push(added).contains(name) <==> names.contains(name) || added == name,
{
    let longer = names.push(added);
    lemma_first_position(names, name);
    lemma_first_position(longer, name);
    if names.contains(name) {
        let p = first_position(names, name);
        assert(is_first(longer, name, p)) by {
            assert(longer[p] == names[p]);
            assert forall|j: int| 0 <= j < p implies #[trigger] longer[j] != name by {
                assert(longer[j] == names[j]);
            }
        }
        lemma_is_first(longer, name, p);
        assert(longer[p] == name);
        assert(longer.contains(name));
    } else {
        assert forall|j: int| 0 <= j < names.len() implies #[trigger] longer[j] != name by {
            assert(longer[j] == names[j]);
            if names[j] == name {
                assert(names.contains(name));
            }
        }
        if added == name {
            assert(longer[names.len() as int] == name);
            assert(is_first(longer, name, names.len() as int));
            lemma_is_first(longer, name, names.len() as int);
            assert(longer.contains(name));
        } else {
            assert forall|j: int| 0 <= j < longer.len() implies #[trigger] longer[j] != name by {
                if j < names.len() {
                } else {
                    assert(longer[j] == added);
                }
            }
            lemma_absent(longer, name);
        }
    }
}

/// The place of the first of `names` that `text` begins with, or the length
/// of `names` where `text` begins with none of them.
pub open spec fn first_prefix_position(names: Seq<Seq<char>>, text: Seq<char>) -> int
    decreases names.len(),
{
    if names.len() == 0 {
        0
    } else if names[0].is_prefix_of(text) {
        0
    } else {
        1 + first_prefix_position(names.drop_first(), text)
    }
}

/// Whether `i` is the place of the first of `names` that `text` begins with.
pub open spec fn is_first_prefix(names: Seq<Seq<char>>, text: Seq<char>, i: int) -> bool {
    &&& 0 <= i < names.len()
    &&& names[i].is_prefix_of(text)
    &&& forall|j: int| 0 <= j < i ==> !(#[trigger] names[j]).is_prefix_of(text)
}

/// The first prefix position lies within the list, or is its length.
pub proof fn lemma_first_prefix_position(names: Seq<Seq<char>>, text: Seq<char>)
    ensures
        0 <= first_prefix_position(names, text) <= names.len(),
        first_prefix_position(names, text) < names.len() ==> is_first_prefix(
            names,
            text,
            first_prefix_position(names, text),
        ),
        first_prefix_position(names, text) == names.len() ==> forall|j: int|
            0 <= j < names.len() ==> !(#[trigger] names[j]).is_prefix_of(text),
    decreases names.len(),
{
    if names.len() == 0 {
    } else if names[0].is_prefix_of(text) {
    } else {
        let rest = names.drop_first();
        lemma_first_prefix_position(rest, text);
        let p = first_prefix_position(rest, text);
        if p < rest.len() {
            assert(names[p + 1] == rest[p]);
            assert forall|j: int| 0 <= j < p + 1 implies !(#[trigger] names[j]).is_prefix_of(
                text,
            ) by {
                if j > 0 {
                    assert(names[j] == rest[j - 1]);
                }
            }
        } else {
            assert forall|j: int| 0 <= j < names.len() implies !(#[trigger] names[j]).is_prefix_of(
                text,
            ) by {
                if j > 0 {
                    assert(names[j] == rest[j - 1]);
                }
            }
        }
    }
}

/// A place whose name `text` begins with, with no earlier one of that kind,
/// is the first prefix position.
pub proof fn lemma_is_first_prefix(names: Seq<Seq<char>>, text: Seq<char>, i: int)
    requires
        is_first_prefix(names, text, i),
    ensures
        first_prefix_position(names, text) == i,
    decreases names.len(),
{
    if i == 0 {
    } else {
        assert(!names[0].is_prefix_of(text));
        let rest = names.drop_first();
        assert(is_first_prefix(rest, text, i - 1)) by {
            assert(rest[i - 1] == names[i]);
            assert forall|j: int| 0 <= j < i - 1 implies !(#[trigger] rest[j]).is_prefix_of(
                text,
            ) by {
                assert(rest[j] == names[j + 1]);
            }
        }
        lemma_is_first_prefix(rest, text, i - 1);
    }
}

/// Where `text` begins with none of `names`, the first prefix position is
/// the length of the list.
pub proof fn lemma_no_prefix(names: Seq<Seq<char>>, text: Seq<char>)
    requires
        forall|j: int| 0 <= j < names.len() ==> !(#[trigger] names[j]).is_prefix_of(text),
    ensures
        first_prefix_position(names, text) == names.len(),
{
    lemma_first_prefix_position(names, text);
}

} // verus!
