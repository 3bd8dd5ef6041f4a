//! Lists of distinct names in the order of their UTF-8 bytes.

use crate::text::{same_text, views};
use vstd::prelude::*;
use vstd::utf8::encode_utf8;

verus! {

/// Lexicographic order of byte strings.
pub open spec fn bytes_lt(a: Seq<u8>, b: Seq<u8>) -> bool
    decreases a.len(),
{
    if b.len() == 0 {
        false
    } else if a.len() == 0 {
        true
    } else if a[0] != b[0] {
        a[0] < b[0]
    } else {
        bytes_lt(a.drop_first(), b.drop_first())
    }
}

/// `a` sorts before `b`.
pub open spec fn name_lt(a: Seq<char>, b: Seq<char>) -> bool {
    bytes_lt(encode_utf8(a), encode_utf8(b))
}

/// The names are distinct and sorted.
pub open spec fn sorted_names(names: Seq<Seq<char>>) -> bool {
    forall|i: int, j: int| 0 <= i < j < names.len() ==> name_lt(#[trigger] names[i], #[trigger] names[j])
}

proof fn lemma_bytes_lt_irreflexive(a: Seq<u8>)
    ensures
        !bytes_lt(a, a),
    decreases a.len(),
{
    if a.len() > 0 {
        lemma_bytes_lt_irreflexive(a.drop_first());
    }
}

proof fn lemma_bytes_lt_transitive(a: Seq<u8>, b: Seq<u8>, c: Seq<u8>)
    requires
        bytes_lt(a, b),
        bytes_lt(b, c),
    ensures
        bytes_lt(a, c),
    decreases a.len(),
{
    if a.len() > 0 && a[0] == b[0] && b[0] == c[0] {
        lemma_bytes_lt_transitive(a.drop_first(), b.drop_first(), c.drop_first());
    }
}

proof fn lemma_bytes_lt_total(a: Seq<u8>, b: Seq<u8>)
    ensures
        bytes_lt(a, b) || a == b || bytes_lt(b, a),
    decreases a.len(),
{
    if a.len() > 0 && b.len() > 0 && a[0] == b[0] {
        lemma_bytes_lt_total(a.drop_first(), b.drop_first());
        if a.drop_first() == b.drop_first() {
            assert forall|i: int| 0 <= i < a.len() implies a[i] == b[i] by {
                if i > 0 {
                    assert(a.drop_first()[i - 1] == b.drop_first()[i - 1]);
                }
            }
            assert(a.len() == a.drop_first().len() + 1);
            assert(b.len() == b.drop_first().len() + 1);
            assert(a =~= b);
        }
    } else if a.len() == 0 && b.len() == 0 {
        assert(a =~= b);
    }
}

/// No name sorts before itself.
pub proof fn name_order_is_irreflexive(a: Seq<char>)
    ensures
        !name_lt(a, a),
{
    lemma_bytes_lt_irreflexive(encode_utf8(a));
}

/// The order of names is transitive.
pub proof fn name_order_is_transitive(a: Seq<char>, b: Seq<char>, c: Seq<char>)
    requires
        name_lt(a, b),
        name_lt(b, c),
    ensures
        name_lt(a, c),
{
    lemma_bytes_lt_transitive(encode_utf8(a), encode_utf8(b), encode_utf8(c));
}

/// Of two distinct names one sorts before the other.
pub proof fn name_order_is_total(a: Seq<char>, b: Seq<char>)
    ensures
        name_lt(a, b) || a == b || name_lt(b, a),
{
    lemma_bytes_lt_total(encode_utf8(a), encode_utf8(b));
    vstd::utf8::encode_utf8_decode_utf8(a);
    vstd::utf8::encode_utf8_decode_utf8(b);
}

/// Whether `a` sorts before `b`.
pub fn name_before(a: &str, b: &str) -> (before: bool)
    ensures
        before == name_lt(a@, b@),
{
    let left: &[u8] = a.as_bytes();
    let right: &[u8] = b.as_bytes();
    let mut i: usize = 0;
    proof {
        assert(left@.skip(0) =~= left@);
        assert(right@.skip(0) =~= right@);
    }
    while i < left.len() && i < right.len() && left[i] == right[i]
        invariant
            left@ == encode_utf8(a@),
            right@ == encode_utf8(b@),
            i <= left.len(),
            i <= right.len(),
            bytes_lt(left@, right@) == bytes_lt(left@.skip(i as int), right@.skip(i as int)),
        decreases left.len() - i,
    {
        proof {
            assert(left@.skip(i as int).drop_first() =~= left@.skip(i as int + 1));
            assert(right@.skip(i as int).drop_first() =~= right@.skip(i as int + 1));
        }
        i = i + 1;
    }
    if i >= right.len() {
        false
    } else if i >= left.len() {
        true
    } else {
        left[i] < right[i]
    }
}

/// Two sorted lists with the same names are the same list.
pub proof fn sorted_names_are_determined_by_their_members(a: Seq<Seq<char>>, b: Seq<Seq<char>>)
    requires
        sorted_names(a),
        sorted_names(b),
        forall|name: Seq<char>| #[trigger] a.contains(name) <==> b.contains(name),
    ensures
        a == b,
    decreases a.len(),
{
    if a.len() == 0 {
        if b.len() > 0 {
            assert(b.contains(b[0]));
            assert(a.contains(b[0]));
        }
        assert(a =~= b);
    } else {
        assert(a.contains(a[0]));
        assert(b.contains(a[0]));
        assert(a.contains(a.last()));
        assert(b.contains(b.last()));
        assert(b.contains(a.last()));
        assert(a.contains(b.last()));
        let i = choose|i: int| 0 <= i < a.len() && a[i] == b.last();
        let j = choose|j: int| 0 <= j < b.len() && b[j] == a.last();
        if a.last() != b.last() {
            assert(name_lt(a[i], a[a.len() - 1]));
            assert(name_lt(b[j], b[b.len() - 1]));
            name_order_is_transitive(a.last(), b.last(), a.last());
            name_order_is_irreflexive(a.last());
        }
        let ra = a.drop_last();
        let rb = b.drop_last();
        assert forall|name: Seq<char>| #[trigger] ra.contains(name) <==> rb.contains(name) by {
            lemma_drop_last_members(a, name);
            lemma_drop_last_members(b, name);
            assert(a.contains(name) <==> b.contains(name));
        }
        sorted_names_are_determined_by_their_members(ra, rb);
        assert(a =~= ra.push(a.last()));
        assert(b =~= rb.push(b.last()));
    }
}

proof fn lemma_drop_last_members(a: Seq<Seq<char>>, name: Seq<char>)
    requires
        sorted_names(a),
        a.len() > 0,
    ensures
        a.drop_last().contains(name) <==> (a.contains(name) && name != a.last()),
{
    let rest = a.drop_last();
    if rest.contains(name) {
        let i = choose|i: int| 0 <= i < rest.len() && rest[i] == name;
        assert(a[i] == name);
        assert(name_lt(a[i], a[a.len() - 1]));
        name_order_is_irreflexive(name);
    }
    if a.contains(name) && name != a.last() {
        let i = choose|i: int| 0 <= i < a.len() && a[i] == name;
        assert(rest[i] == name);
    }
}

/// The place of `name` in a sorted list: every name before it sorts before `name`, and the
/// name that stands there, if any, does not.
pub fn place_of(names: &Vec<String>, name: &str) -> (place: usize)
    requires
        sorted_names(views(names@)),
    ensures
        place <= names.len(),
        forall|i: int| 0 <= i < place ==> name_lt(#[trigger] names@[i]@, name@),
        place < names.len() ==> !name_lt(names@[place as int]@, name@),
{
    let mut i: usize = 0;
    while i < names.len() && name_before(names[i].as_str(), name)
        invariant
            i <= names.len(),
            forall|k: int| 0 <= k < i ==> name_lt(#[trigger] names@[k]@, name@),
        decreases names.len() - i,
    {
        i = i + 1;
    }
    i
}

/// Inserting at the place of an absent name keeps a list sorted.
pub proof fn lemma_insert_keeps_order(names: Seq<Seq<char>>, place: int, name: Seq<char>)
    requires
        sorted_names(names),
        0 <= place <= names.len(),
        forall|i: int| 0 <= i < place ==> name_lt(#[trigger] names[i], name),
        place < names.len() ==> name_lt(name, names[place]),
    ensures
        sorted_names(names.insert(place, name)),
        forall|n: Seq<char>| #[trigger]
            names.insert(place, name).contains(n) <==> (names.contains(n) || n == name),
{
    let after = names.insert(place, name);
    assert forall|i: int, j: int| 0 <= i < j < after.len() implies name_lt(
        #[trigger] after[i],
        #[trigger] after[j],
    ) by {
        let from = |k: int| if k < place { k } else { k - 1 };
        if j == place {
            assert(after[i] == names[i]);
        } else if i == place {
            assert(after[j] == names[j - 1]);
            if j - 1 > place {
                assert(name_lt(names[place], names[j - 1]));
                name_order_is_transitive(name, names[place], names[j - 1]);
            }
        } else {
            assert(after[i] == names[from(i)]);
            assert(after[j] == names[from(j)]);
        }
    }
    assert forall|n: Seq<char>| #[trigger] after.contains(n) <==> (names.contains(n) || n
        == name) by {
        if after.contains(n) {
            let i = choose|i: int| 0 <= i < after.len() && after[i] == n;
            if i < place {
                assert(names[i] == n);
            } else if i > place {
                assert(names[i - 1] == n);
            }
        }
        if names.contains(n) {
            let i = choose|i: int| 0 <= i < names.len() && names[i] == n;
            if i < place {
                assert(after[i] == n);
            } else {
                assert(after[i + 1] == n);
            }
        }
        assert(after[place] == name);
    }
}

/// Adds a name to a sorted list, once.
pub fn insert_name(names: &mut Vec<String>, name: String)
    requires
        sorted_names(views(old(names)@)),
    ensures
        sorted_names(views(final(names)@)),
        forall|n: Seq<char>| #[trigger]
            views(final(names)@).contains(n) <==> (views(old(names)@).contains(n) || n == name@),
{
    let place: usize = place_of(names, name.as_str());
    let ghost before = views(names@);
    if place < names.len() && same_text(names[place].as_str(), name.as_str()) {
        proof {
            assert(before[place as int] == name@);
            assert(before.contains(name@));
        }
    } else {
        proof {
            if place < names.len() {
                name_order_is_total(names@[place as int]@, name@);
            }
            assert forall|i: int| 0 <= i < place implies name_lt(#[trigger] before[i], name@) by {
                assert(before[i] == names@[i]@);
            }
            lemma_insert_keeps_order(before, place as int, name@);
        }
        names.insert(place, name);
        proof {
            assert(views(names@) =~= before.insert(place as int, name@));
        }
    }
}

/// Whether a list holds `name`.
pub fn holds_name(names: &[String], name: &str) -> (holds: bool)
    ensures
        holds == views(names@).contains(name@),
{
    let mut i: usize = 0;
    while i < names.len()
        invariant
            i <= names.len(),
            forall|k: int| 0 <= k < i ==> (#[trigger] names@[k])@ != name@,
        decreases names.len() - i,
    {
        if same_text(names[i].as_str(), name) {
            proof {
                assert(views(names@)[i as int] == name@);
            }
            return true;
        }
        i = i + 1;
    }
    proof {
        assert forall|k: int| 0 <= k < views(names@).len() implies views(names@)[k] != name@ by {
            assert(views(names@)[k] == names@[k]@);
        }
    }
    false
}

/// `a` is before `b` at `k`: up to there the two are the same, and there `a` ends or has the
/// smaller byte.
pub open spec fn before_at(a: Seq<u8>, b: Seq<u8>, k: int) -> bool {
    &&& 0 <= k <= a.len()
    &&& k < b.len()
    &&& forall|i: int| 0 <= i < k ==> a[i] == b[i]
    &&& k < a.len() ==> a[k] < b[k]
}

proof fn lemma_order_is_decided_at_the_first_difference(a: Seq<u8>, b: Seq<u8>)
    ensures
        bytes_lt(a, b) <==> exists|k: int| #[trigger] before_at(a, b, k),
    decreases a.len(),
{
    if b.len() > 0 && a.len() > 0 && a[0] == b[0] {
        let ra = a.drop_first();
        let rb = b.drop_first();
        lemma_order_is_decided_at_the_first_difference(ra, rb);
        if bytes_lt(a, b) {
            let k = choose|k: int| #[trigger] before_at(ra, rb, k);
            assert forall|i: int| 0 <= i < k + 1 implies a[i] == b[i] by {
                if i > 0 {
                    assert(ra[i - 1] == rb[i - 1]);
                }
            }
            if k + 1 < a.len() {
                assert(ra[k] < rb[k]);
            }
            assert(before_at(a, b, k + 1));
        }
        if exists|k: int| #[trigger] before_at(a, b, k) {
            let k = choose|k: int| #[trigger] before_at(a, b, k);
            assert(k > 0);
            assert forall|i: int| 0 <= i < k - 1 implies ra[i] == rb[i] by {
                assert(a[i + 1] == b[i + 1]);
            }
            assert(before_at(ra, rb, k - 1));
        }
    } else if b.len() > 0 && (a.len() == 0 || a[0] < b[0]) {
        assert(before_at(a, b, 0));
    } else if exists|k: int| #[trigger] before_at(a, b, k) {
        let k = choose|k: int| #[trigger] before_at(a, b, k);
        if k > 0 {
            assert(a[0] == b[0]);
        }
    }
}

/// Of two names the one comes first that is a beginning of the other, or whose byte is smaller
/// where their bytes first differ.
pub proof fn names_are_ordered_by_their_bytes(a: &str, b: &str, before: bool)
    requires
        call_ensures(name_before, (a, b), before),
    ensures
        before <==> exists|k: int| #[trigger] before_at(encode_utf8(a@), encode_utf8(b@), k),
{
    lemma_order_is_decided_at_the_first_difference(encode_utf8(a@), encode_utf8(b@));
}

/// The place of a name in a sorted list is where it stands, and else where it would have to be put:
/// all names before it are smaller, and none from there on is.
pub proof fn the_place_of_a_name_parts_the_list(names: Vec<String>, name: &str, place: usize)
    requires
        sorted_names(views(names@)),
        call_ensures(place_of, (&names, name), place),
    ensures
        place <= names@.len(),
        forall|i: int| 0 <= i < place ==> name_lt(#[trigger] names@[i]@, name@),
        forall|i: int| place <= i < names@.len() ==> !name_lt(#[trigger] names@[i]@, name@),
        forall|i: int| 0 <= i < names@.len() && #[trigger] names@[i]@ == name@ ==> i == place,
{
    let list = views(names@);
    assert forall|i: int| place <= i < names@.len() implies !name_lt(
        #[trigger] names@[i]@,
        name@,
    ) by {
        if i > place && name_lt(names@[i]@, name@) {
            assert(name_lt(list[place as int], list[i]));
            name_order_is_transitive(list[place as int], list[i], name@);
        }
    }
    assert forall|i: int| 0 <= i < names@.len() && #[trigger] names@[i]@ == name@ implies i
        == place by {
        if i < place {
            name_order_is_irreflexive(name@);
        } else if i > place {
            assert(name_lt(list[place as int], list[i]));
        }
    }
}

/// A name is added to a sorted list once: the list then holds it and what it held before, sorted,
/// and a list that holds it already stays as it is.
pub proof fn a_name_is_added_once(name: String)
    ensures
        forall|names: &mut Vec<String>|
            sorted_names(views(names@)) && #[trigger] call_ensures(insert_name, (names, name), ())
                ==> {
                &&& forall|i: int, j: int|
                    0 <= i < j < final(names)@.len() ==> name_lt(
                        #[trigger] final(names)@[i]@,
                        #[trigger] final(names)@[j]@,
                    )
                &&& views(final(names)@).contains(name@)
                &&& forall|other: Seq<char>|
                    other != name@ ==> (#[trigger] views(final(names)@).contains(other)
                        <==> views(names@).contains(other))
                &&& views(names@).contains(name@) ==> views(final(names)@) == views(names@)
            },
{
    assert forall|names: &mut Vec<String>|
        sorted_names(views(names@)) && #[trigger] call_ensures(
            insert_name,
            (names, name),
            (),
        ) implies {
        &&& forall|i: int, j: int|
            0 <= i < j < final(names)@.len() ==> name_lt(
                #[trigger] final(names)@[i]@,
                #[trigger] final(names)@[j]@,
            )
        &&& views(final(names)@).contains(name@)
        &&& forall|other: Seq<char>|
            other != name@ ==> (#[trigger] views(final(names)@).contains(other) <==> views(
                names@,
            ).contains(other))
        &&& views(names@).contains(name@) ==> views(final(names)@) == views(names@)
    } by {
        let after = views(final(names)@);
        assert forall|i: int, j: int| 0 <= i < j < final(names)@.len() implies name_lt(
            #[trigger] final(names)@[i]@,
            #[trigger] final(names)@[j]@,
        ) by {
            assert(name_lt(after[i], after[j]));
        }
        if views(names@).contains(name@) {
            sorted_names_are_determined_by_their_members(after, views(names@));
        }
    }
}

/// A list holds a name exactly where the name stands in one of its places.
pub proof fn a_list_holds_what_stands_in_it(names: &[String], name: &str, holds: bool)
    requires
        call_ensures(holds_name, (names, name), holds),
    ensures
        holds <==> exists|i: int| 0 <= i < names@.len() && #[trigger] names@[i]@ == name@,
{
    if holds {
        let i = choose|i: int| 0 <= i < views(names@).len() && views(names@)[i] == name@;
        assert(names@[i]@ == name@);
    }
    if exists|i: int| 0 <= i < names@.len() && #[trigger] names@[i]@ == name@ {
        let i = choose|i: int| 0 <= i < names@.len() && #[trigger] names@[i]@ == name@;
        assert(views(names@)[i] == name@);
    }
}

} // verus!
