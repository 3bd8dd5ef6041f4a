//! The input schemas of the tools, as JSON documents.

use crate::text::same_text;
use vstd::prelude::*;

verus! {

/// A JSON document.
#[derive(Debug, PartialEq, Eq)]
pub enum Json {
    Null,
    Bool(bool),
    /// A number, as it is written.
    Number(String),
    Text(String),
    Array(Vec<Json>),
    Object(Vec<Field>),
}

/// A field of an object.
#[derive(Debug, PartialEq, Eq)]
pub struct Field {
    pub key: String,
    pub value: Json,
}

/// A JSON document, with its texts as sequences of characters.
pub enum Tree {
    Null,
    Bool(bool),
    Number(Seq<char>),
    Text(Seq<char>),
    Array(Seq<Tree>),
    Object(Seq<(Seq<char>, Tree)>),
}

/// The document that `json` holds.
pub open spec fn tree(json: Json) -> Tree
    decreases json,
{
    match json {
        Json::Null => Tree::Null,
        Json::Bool(value) => Tree::Bool(value),
        Json::Number(text) => Tree::Number(text@),
        Json::Text(text) => Tree::Text(text@),
        Json::Array(items) => Tree::Array(trees(items@)),
        Json::Object(fields) => Tree::Object(field_trees(fields@)),
    }
}

/// The documents of a list.
pub open spec fn trees(items: Seq<Json>) -> Seq<Tree>
    decreases items,
{
    if items.len() == 0 {
        Seq::empty()
    } else {
        trees(items.drop_last()).push(tree(items.last()))
    }
}

/// The fields of an object.
pub open spec fn field_trees(fields: Seq<Field>) -> Seq<(Seq<char>, Tree)>
    decreases fields,
{
    if fields.len() == 0 {
        Seq::empty()
    } else {
        field_trees(fields.drop_last()).push((fields.last().key@, tree(fields.last().value)))
    }
}

/// The fields of an object, one by one.
pub proof fn lemma_field_trees_by_place(fields: Seq<Field>)
    ensures
        field_trees(fields).len() == fields.len(),
        forall|i: int|
            0 <= i < fields.len() ==> #[trigger] field_trees(fields)[i] == (
                fields[i].key@,
                tree(fields[i].value),
            ),
    decreases fields.len(),
{
    if fields.len() > 0 {
        lemma_field_trees_by_place(fields.drop_last());
        assert forall|i: int| 0 <= i < fields.len() implies #[trigger] field_trees(fields)[i] == (
            fields[i].key@,
            tree(fields[i].value),
        ) by {
            if i < fields.len() - 1 {
                assert(fields.drop_last()[i] == fields[i]);
            }
        }
    }
}

/// The documents of a list, one by one.
pub proof fn lemma_trees_by_place(items: Seq<Json>)
    ensures
        trees(items).len() == items.len(),
        forall|i: int|
            0 <= i < items.len() ==> #[trigger] trees(items)[i] == tree(items[i]),
    decreases items.len(),
{
    if items.len() > 0 {
        lemma_trees_by_place(items.drop_last());
        assert forall|i: int| 0 <= i < items.len() implies #[trigger] trees(items)[i] == tree(
            items[i],
        ) by {
            if i < items.len() - 1 {
                assert(items.drop_last()[i] == items[i]);
            }
        }
    }
}

/// The first place of a field with this key, or the number of fields where there is none.
pub open spec fn place_of_key(fields: Seq<(Seq<char>, Tree)>, key: Seq<char>) -> int
    decreases fields.len(),
{
    if fields.len() == 0 {
        0
    } else if fields[0].0 == key {
        0
    } else {
        1 + place_of_key(fields.drop_first(), key)
    }
}

/// The object has a field with this key.
pub open spec fn has_key(fields: Seq<(Seq<char>, Tree)>, key: Seq<char>) -> bool {
    place_of_key(fields, key) < fields.len()
}

/// The object with this field, in place of one with the same key.
pub open spec fn with_field(
    fields: Seq<(Seq<char>, Tree)>,
    key: Seq<char>,
    value: Tree,
) -> Seq<(Seq<char>, Tree)> {
    if has_key(fields, key) {
        fields.update(place_of_key(fields, key), (key, value))
    } else {
        fields.push((key, value))
    }
}

/// The object without the field of this key.
pub open spec fn without_field(
    fields: Seq<(Seq<char>, Tree)>,
    key: Seq<char>,
) -> Seq<(Seq<char>, Tree)> {
    if has_key(fields, key) {
        fields.remove(place_of_key(fields, key))
    } else {
        fields
    }
}

proof fn lemma_place_of_key(fields: Seq<(Seq<char>, Tree)>, key: Seq<char>, place: int)
    requires
        0 <= place <= fields.len(),
        forall|i: int| 0 <= i < place ==> (#[trigger] fields[i]).0 != key,
        place < fields.len() ==> fields[place].0 == key,
    ensures
        place_of_key(fields, key) == place,
    decreases fields.len(),
{
    if fields.len() > 0 && place > 0 {
        assert(fields[0].0 != key);
        let rest = fields.drop_first();
        assert forall|i: int| 0 <= i < place - 1 implies (#[trigger] rest[i]).0 != key by {
            assert(rest[i] == fields[i + 1]);
        }
        if place < fields.len() {
            assert(rest[place - 1] == fields[place]);
        }
        lemma_place_of_key(rest, key, place - 1);
    }
}

/// The first place of a field with this key, or the number of fields where there is none.
pub fn find_key(fields: &Vec<Field>, key: &str) -> (place: usize)
    ensures
        place == place_of_key(field_trees(fields@), key@),
        place <= fields@.len(),
        place < fields@.len() <==> has_key(field_trees(fields@), key@),
{
    proof {
        lemma_field_trees_by_place(fields@);
    }
    let mut i: usize = 0;
    while i < fields.len() && !same_text(fields[i].key.as_str(), key)
        invariant
            i <= fields.len(),
            forall|k: int| 0 <= k < i ==> (#[trigger] fields@[k]).key@ != key@,
        decreases fields.len() - i,
    {
        i = i + 1;
    }
    proof {
        let seen = field_trees(fields@);
        assert forall|k: int| 0 <= k < i implies (#[trigger] seen[k]).0 != key@ by {
            assert(seen[k].0 == fields@[k].key@);
        }
        lemma_place_of_key(seen, key@, i as int);
    }
    i
}

/// Sets a field of an object.
pub fn set_field(fields: &mut Vec<Field>, key: &str, value: Json)
    ensures
        field_trees(final(fields)@) == with_field(field_trees(old(fields)@), key@, tree(value)),
{
    let place: usize = find_key(fields, key);
    let ghost before = fields@;
    let ghost set = tree(value);
    proof {
        lemma_field_trees_by_place(before);
    }
    let field: Field = Field { key: key.to_owned(), value };
    if place < fields.len() {
        fields.set(place, field);
    } else {
        fields.push(field);
    }
    proof {
        lemma_field_trees_by_place(fields@);
        assert(field_trees(fields@) =~= with_field(field_trees(before), key@, set));
    }
}

/// Takes a field out of an object.
pub fn take_field(fields: &mut Vec<Field>, key: &str) -> (taken: Option<Json>)
    ensures
        field_trees(final(fields)@) == without_field(field_trees(old(fields)@), key@),
        match taken {
            Some(value) => has_key(field_trees(old(fields)@), key@) && tree(value) == field_trees(
                old(fields)@,
            )[place_of_key(field_trees(old(fields)@), key@)].1,
            None => !has_key(field_trees(old(fields)@), key@),
        },
{
    let place: usize = find_key(fields, key);
    let ghost before = fields@;
    proof {
        lemma_field_trees_by_place(before);
    }
    if place < fields.len() {
        let field: Field = fields.remove(place);
        proof {
            lemma_field_trees_by_place(fields@);
            assert(field_trees(fields@) =~= without_field(field_trees(before), key@));
        }
        Some(field.value)
    } else {
        None
    }
}

/// What the action of a search is described as.
pub open spec fn action_description() -> Tree {
    Tree::Text("Requested search, platform-listing, or lifecycle action."@)
}

/// The document with the action of every object in it described: wherever an object has
/// properties, and these an action, the action gets its description. `is_properties` says that
/// the document stands as the properties of an object, `is_action` that it stands as the action
/// of such properties.
pub open spec fn documented(value: Tree, is_properties: bool, is_action: bool) -> Tree
    decreases value,
{
    match value {
        Tree::Object(fields) => {
            let inside = documented_fields(fields, is_properties);
            Tree::Object(
                if is_action {
                    with_field(inside, "description"@, action_description())
                } else {
                    inside
                },
            )
        },
        Tree::Array(items) => Tree::Array(documented_items(items)),
        _ => value,
    }
}

/// The fields of an object, each documented.
pub open spec fn documented_fields(
    fields: Seq<(Seq<char>, Tree)>,
    are_properties: bool,
) -> Seq<(Seq<char>, Tree)>
    decreases fields,
{
    if fields.len() == 0 {
        Seq::empty()
    } else {
        let key = fields.last().0;
        let value = fields.last().1;
        documented_fields(fields.drop_last(), are_properties).push(
            (
                key,
                documented(value, key == "properties"@, are_properties && key == "action"@),
            ),
        )
    }
}

/// The objects of an array, each documented; what else it holds stays as it is.
pub open spec fn documented_items(items: Seq<Tree>) -> Seq<Tree>
    decreases items,
{
    if items.len() == 0 {
        Seq::empty()
    } else {
        let item = items.last();
        documented_items(items.drop_last()).push(
            if item is Object {
                documented(item, false, false)
            } else {
                item
            },
        )
    }
}

/// Where a document stands in an object.
proof fn lemma_documented_field(
    fields: Seq<(Seq<char>, Tree)>,
    next: (Seq<char>, Tree),
    are_properties: bool,
)
    ensures
        documented_fields(fields.push(next), are_properties) == documented_fields(
            fields,
            are_properties,
        ).push(
            (
                next.0,
                documented(
                    next.1,
                    next.0 == "properties"@,
                    are_properties && next.0 == "action"@,
                ),
            ),
        ),
{
    assert(fields.push(next).drop_last() =~= fields);
}

/// A copy of a document.
pub fn copy_json(value: &Json) -> (copy: Json)
    ensures
        tree(copy) == tree(*value),
    decreases *value,
{
    match value {
        Json::Null => Json::Null,
        Json::Bool(value) => Json::Bool(*value),
        Json::Number(text) => Json::Number(text.clone()),
        Json::Text(text) => Json::Text(text.clone()),
        Json::Array(items) => {
            let mut copies: Vec<Json> = Vec::new();
            let mut i: usize = 0;
            while i < items.len()
                invariant
                    *value == Json::Array(*items),
                    i <= items.len(),
                    trees(copies@) == trees(items@.take(i as int)),
                decreases items.len() - i,
            {
                let ghost before = copies@;
                proof {
                    let list = value->Array_0;
                    assert(decreases_to!(*value => list));
                    assert(decreases_to!(list => list@));
                    assert(decreases_to!(list@ => list@[i as int]));
                }
                copies.push(copy_json(&items[i]));
                proof {
                    assert(copies@.drop_last() =~= before);
                    assert(items@.take(i as int + 1).drop_last() =~= items@.take(i as int));
                }
                i = i + 1;
            }
            proof {
                assert(items@.take(items.len() as int) =~= items@);
            }
            Json::Array(copies)
        },
        Json::Object(fields) => {
            let mut copies: Vec<Field> = Vec::new();
            let mut i: usize = 0;
            while i < fields.len()
                invariant
                    *value == Json::Object(*fields),
                    i <= fields.len(),
                    field_trees(copies@) == field_trees(fields@.take(i as int)),
                decreases fields.len() - i,
            {
                let ghost before = copies@;
                proof {
                    let list = value->Object_0;
                    assert(decreases_to!(*value => list));
                    assert(decreases_to!(list => list@));
                    assert(decreases_to!(list@ => list@[i as int]));
                    assert(decreases_to!(list@[i as int] => list@[i as int].value));
                }
                copies.push(
                    Field { key: fields[i].key.clone(), value: copy_json(&fields[i].value) },
                );
                proof {
                    assert(copies@.drop_last() =~= before);
                    assert(fields@.take(i as int + 1).drop_last() =~= fields@.take(i as int));
                }
                i = i + 1;
            }
            proof {
                assert(fields@.take(fields.len() as int) =~= fields@);
            }
            Json::Object(copies)
        },
    }
}

fn document(value: &Json, is_properties: bool, is_action: bool) -> (described: Json)
    ensures
        tree(described) == documented(tree(*value), is_properties, is_action),
    decreases *value,
{
    match value {
        Json::Array(items) => {
            let mut copies: Vec<Json> = Vec::new();
            let mut i: usize = 0;
            while i < items.len()
                invariant
                    *value == Json::Array(*items),
                    i <= items.len(),
                    trees(copies@) == documented_items(trees(items@.take(i as int))),
                decreases items.len() - i,
            {
                let ghost before = copies@;
                proof {
                    let list = value->Array_0;
                    assert(decreases_to!(*value => list));
                    assert(decreases_to!(list => list@));
                    assert(decreases_to!(list@ => list@[i as int]));
                }
                let copy: Json = match &items[i] {
                    Json::Object(_) => document(&items[i], false, false),
                    _ => copy_json(&items[i]),
                };
                copies.push(copy);
                proof {
                    assert(copies@.drop_last() =~= before);
                    let ahead = items@.take(i as int + 1);
                    assert(ahead.drop_last() =~= items@.take(i as int));
                    assert(trees(ahead).drop_last() =~= trees(items@.take(i as int)));
                }
                i = i + 1;
            }
            proof {
                assert(items@.take(items.len() as int) =~= items@);
            }
            Json::Array(copies)
        },
        Json::Object(fields) => {
            let mut copies: Vec<Field> = Vec::new();
            let mut i: usize = 0;
            while i < fields.len()
                invariant
                    *value == Json::Object(*fields),
                    i <= fields.len(),
                    field_trees(copies@) == documented_fields(
                        field_trees(fields@.take(i as int)),
                        is_properties,
                    ),
                decreases fields.len() - i,
            {
                let ghost before = copies@;
                let properties: bool = same_text(fields[i].key.as_str(), "properties");
                let action: bool = is_properties && same_text(fields[i].key.as_str(), "action");
                proof {
                    let list = value->Object_0;
                    assert(decreases_to!(*value => list));
                    assert(decreases_to!(list => list@));
                    assert(decreases_to!(list@ => list@[i as int]));
                    assert(decreases_to!(list@[i as int] => list@[i as int].value));
                }
                copies.push(
                    Field {
                        key: fields[i].key.clone(),
                        value: document(&fields[i].value, properties, action),
                    },
                );
                proof {
                    assert(copies@.drop_last() =~= before);
                    let ahead = fields@.take(i as int + 1);
                    assert(ahead.drop_last() =~= fields@.take(i as int));
                    lemma_documented_field(
                        field_trees(fields@.take(i as int)),
                        (fields@[i as int].key@, tree(fields@[i as int].value)),
                        is_properties,
                    );
                }
                i = i + 1;
            }
            proof {
                assert(fields@.take(fields.len() as int) =~= fields@);
            }
            if is_action {
                set_field(
                    &mut copies,
                    "description",
                    Json::Text(
                        "Requested search, platform-listing, or lifecycle action.".to_owned(),
                    ),
                );
            }
            Json::Object(copies)
        },
        _ => copy_json(value),
    }
}

/// The schema with the action of every object in it described.
pub fn document_search_action(schema: &Json) -> (described: Json)
    ensures
        tree(described) == documented(tree(*schema), false, false),
{
    document(schema, false, false)
}

proof fn lemma_place_is_the_first(fields: Seq<(Seq<char>, Tree)>, key: Seq<char>)
    ensures
        0 <= place_of_key(fields, key) <= fields.len(),
        forall|i: int| 0 <= i < place_of_key(fields, key) ==> (#[trigger] fields[i]).0 != key,
        has_key(fields, key) ==> fields[place_of_key(fields, key)].0 == key,
    decreases fields.len(),
{
    if fields.len() > 0 && fields[0].0 != key {
        let rest = fields.drop_first();
        lemma_place_is_the_first(rest, key);
        assert forall|i: int| 0 <= i < place_of_key(fields, key) implies (#[trigger] fields[i]).0
            != key by {
            if i > 0 {
                assert(rest[i - 1] == fields[i]);
            }
        }
        if has_key(fields, key) {
            assert(rest[place_of_key(rest, key)] == fields[place_of_key(fields, key)]);
        }
    }
}

/// Setting a field gives it its value and leaves every other field as it is.
pub proof fn a_set_field_has_its_value(
    fields: Seq<(Seq<char>, Tree)>,
    key: Seq<char>,
    value: Tree,
)
    ensures
        has_key(with_field(fields, key, value), key),
        with_field(fields, key, value)[place_of_key(with_field(fields, key, value), key)] == (
            key,
            value,
        ),
        place_of_key(with_field(fields, key, value), key) == place_of_key(fields, key),
        forall|i: int|
            0 <= i < fields.len() && i != place_of_key(fields, key) ==> #[trigger] with_field(
                fields,
                key,
                value,
            )[i] == fields[i],
{
    lemma_place_is_the_first(fields, key);
    let set = with_field(fields, key, value);
    let place = place_of_key(fields, key);
    assert forall|i: int| 0 <= i < place implies (#[trigger] set[i]).0 != key by {
        assert(set[i] == fields[i]);
    }
    lemma_place_of_key(set, key, place);
}

proof fn lemma_documented_fields_by_place(fields: Seq<(Seq<char>, Tree)>, are_properties: bool)
    ensures
        documented_fields(fields, are_properties).len() == fields.len(),
        forall|i: int|
            0 <= i < fields.len() ==> #[trigger] documented_fields(fields, are_properties)[i] == (
                fields[i].0,
                documented(
                    fields[i].1,
                    fields[i].0 == "properties"@,
                    are_properties && fields[i].0 == "action"@,
                ),
            ),
    decreases fields.len(),
{
    if fields.len() > 0 {
        let rest = fields.drop_last();
        lemma_documented_fields_by_place(rest, are_properties);
        assert forall|i: int| 0 <= i < rest.len() implies rest[i] == fields[i] by {}
    }
}

proof fn lemma_documented_items_by_place(items: Seq<Tree>)
    ensures
        documented_items(items).len() == items.len(),
        forall|i: int|
            0 <= i < items.len() ==> #[trigger] documented_items(items)[i] == if items[i] is Object {
                documented(items[i], false, false)
            } else {
                items[i]
            },
    decreases items.len(),
{
    if items.len() > 0 {
        let rest = items.drop_last();
        lemma_documented_items_by_place(rest);
        assert forall|i: int| 0 <= i < rest.len() implies rest[i] == items[i] by {}
    }
}

/// Describing the actions of a schema twice is describing them once.
pub proof fn describing_twice_is_describing_once(value: Tree, is_properties: bool, is_action: bool)
    ensures
        documented(documented(value, is_properties, is_action), is_properties, is_action)
            == documented(value, is_properties, is_action),
    decreases value,
{
    match value {
        Tree::Array(items) => {
            let once = documented_items(items);
            lemma_documented_items_by_place(items);
            lemma_documented_items_by_place(once);
            assert forall|i: int| 0 <= i < items.len() implies documented_items(once)[i]
                == once[i] by {
                if items[i] is Object {
                    assert(decreases_to!(value => value->Array_0));
                    assert(decreases_to!(items => items[i]));
                    describing_twice_is_describing_once(items[i], false, false);
                }
            }
            assert(documented_items(once) =~= once);
        },
        Tree::Object(fields) => {
            let inside = documented_fields(fields, is_properties);
            lemma_documented_fields_by_place(fields, is_properties);
            lemma_documented_fields_by_place(inside, is_properties);
            assert forall|i: int| 0 <= i < fields.len() implies documented_fields(
                inside,
                is_properties,
            )[i] == inside[i] by {
                assert(decreases_to!(value => value->Object_0));
                assert(decreases_to!(fields => fields[i]));
                assert(decreases_to!(fields[i] => fields[i].1));
                describing_twice_is_describing_once(
                    fields[i].1,
                    fields[i].0 == "properties"@,
                    is_properties && fields[i].0 == "action"@,
                );
            }
            assert(documented_fields(inside, is_properties) =~= inside);
            if is_action {
                let key = "description"@;
                let set = with_field(inside, key, action_description());
                a_set_field_has_its_value(inside, key, action_description());
                lemma_place_is_the_first(inside, key);
                lemma_documented_fields_by_place(set, is_properties);
                let place = place_of_key(inside, key);
                assert forall|i: int| 0 <= i < set.len() implies documented_fields(
                    set,
                    is_properties,
                )[i] == set[i] by {
                    if i == place {
                        assert(set[i] == (key, action_description()));
                    } else {
                        assert(set[i] == inside[i]);
                        assert(documented_fields(inside, is_properties)[i] == inside[i]);
                    }
                }
                assert(documented_fields(set, is_properties) =~= set);
                assert(with_field(set, key, action_description()) =~= set);
            }
        },
        _ => {},
    }
}

/// A list of one text.
pub open spec fn one_text(text: Seq<char>) -> Tree {
    Tree::Array(seq![Tree::Text(text)])
}

fn text_list(texts: Vec<&'static str>) -> (list: Json)
    ensures
        tree(list) == Tree::Array(Seq::new(texts@.len(), |i: int| Tree::Text(texts@[i]@))),
{
    let mut items: Vec<Json> = Vec::new();
    let mut i: usize = 0;
    let ghost wanted = Seq::new(texts@.len(), |i: int| Tree::Text(texts@[i]@));
    while i < texts.len()
        invariant
            i <= texts.len(),
            wanted == Seq::new(texts@.len(), |i: int| Tree::Text(texts@[i]@)),
            trees(items@) == wanted.take(i as int),
        decreases texts.len() - i,
    {
        let ghost before = items@;
        items.push(Json::Text(texts[i].to_owned()));
        proof {
            assert(items@.drop_last() =~= before);
            assert(trees(items@) == trees(before).push(tree(items@.last())));
            assert(tree(items@.last()) == wanted[i as int]);
            assert(wanted.take(i as int + 1) =~= wanted.take(i as int).push(wanted[i as int]));
        }
        i = i + 1;
    }
    proof {
        assert(wanted.take(texts.len() as int) =~= wanted);
    }
    Json::Array(items)
}

fn object_of_one(key: &str, value: Json) -> (object: Json)
    ensures
        tree(object) == Tree::Object(seq![(key@, tree(value))]),
{
    let mut fields: Vec<Field> = Vec::new();
    fields.push(Field { key: key.to_owned(), value });
    proof {
        lemma_field_trees_by_place(fields@);
        assert(field_trees(fields@) =~= seq![(key@, tree(value))]);
    }
    Json::Object(fields)
}

/// An object must have these fields.
pub open spec fn requires_fields(names: Seq<Seq<char>>) -> Tree {
    Tree::Object(
        seq![("required"@, Tree::Array(Seq::new(names.len(), |i: int| Tree::Text(names[i]))))],
    )
}

fn required_schema(names: Vec<&'static str>) -> (schema: Json)
    ensures
        tree(schema) == requires_fields(Seq::new(names@.len(), |i: int| names@[i]@)),
{
    let ghost texts = Seq::new(names@.len(), |i: int| names@[i]@);
    proof {
        assert(Seq::new(names@.len(), |i: int| Tree::Text(names@[i]@)) =~= Seq::new(
            texts.len(),
            |i: int| Tree::Text(texts[i]),
        ));
    }
    object_of_one("required", text_list(names))
}

/// The first branch excludes what the second one requires.
pub open spec fn exclusive(branches: Seq<Tree>) -> Seq<Tree> {
    if branches.len() > 0 && branches[0] is Object {
        branches.update(
            0,
            Tree::Object(
                with_field(
                    branches[0]->Object_0,
                    "not"@,
                    requires_fields(seq!["reference_id"@]),
                ),
            ),
        )
    } else {
        branches
    }
}

/// The fields of the schema without its branches, and the branches: those of `anyOf`, or else
/// those of `oneOf`.
pub open spec fn split_branches(fields: Seq<(Seq<char>, Tree)>) -> (
    Seq<(Seq<char>, Tree)>,
    Option<Tree>,
) {
    if has_key(fields, "anyOf"@) {
        (without_field(fields, "anyOf"@), Some(fields[place_of_key(fields, "anyOf"@)].1))
    } else if has_key(fields, "oneOf"@) {
        (without_field(fields, "oneOf"@), Some(fields[place_of_key(fields, "oneOf"@)].1))
    } else {
        (fields, None)
    }
}

/// The schema of a request for help: exactly one of its branches holds.
pub open spec fn xor_schema(fields: Seq<(Seq<char>, Tree)>) -> Seq<(Seq<char>, Tree)> {
    match split_branches(fields) {
        (rest, Some(Tree::Array(branches))) => with_field(
            rest,
            "oneOf"@,
            Tree::Array(exclusive(branches)),
        ),
        (rest, _) => rest,
    }
}

/// Makes the branches of the schema exclude each other; true where it has any.
pub fn syntax_help_xor_schema(fields: &mut Vec<Field>) -> (branched: bool)
    ensures
        field_trees(final(fields)@) == xor_schema(field_trees(old(fields)@)),
        branched == (split_branches(field_trees(old(fields)@)).1 matches Some(branches) && branches
            is Array),
{
    let taken: Option<Json> = match take_field(fields, "anyOf") {
        Some(value) => Some(value),
        None => {
            proof {
                assert(field_trees(fields@) == field_trees(old(fields)@));
            }
            take_field(fields, "oneOf")
        },
    };
    let branches: Vec<Json> = match taken {
        Some(Json::Array(branches)) => branches,
        _ => {
            return false;
        },
    };
    let exclusive_branches: Vec<Json> = exclude_reference_id(branches);
    set_field(fields, "oneOf", Json::Array(exclusive_branches));
    true
}

fn exclude_reference_id(branches: Vec<Json>) -> (result: Vec<Json>)
    ensures
        trees(result@) == exclusive(trees(branches@)),
{
    proof {
        lemma_trees_by_place(branches@);
    }
    if branches.len() == 0 {
        return branches;
    }
    let mut result: Vec<Json> = branches;
    let first: Json = result.remove(0);
    let changed: Json = match first {
        Json::Object(fields) => {
            let mut fields: Vec<Field> = fields;
            let names: Vec<&'static str> = vec!["reference_id"];
            proof {
                assert(Seq::new(names@.len(), |i: int| names@[i]@) =~= seq!["reference_id"@]);
            }
            set_field(&mut fields, "not", required_schema(names));
            Json::Object(fields)
        },
        other => other,
    };
    result.insert(0, changed);
    proof {
        lemma_trees_by_place(result@);
        assert(trees(result@) =~= exclusive(trees(branches@)));
    }
    result
}

/// The branches of a request about a symbol: by its name alone, or by a position.
pub open spec fn symbol_branches() -> Tree {
    Tree::Array(
        seq![
            Tree::Object(
                seq![
                    ("required"@, one_text("symbol"@)),
                    (
                        "not"@,
                        Tree::Object(
                            seq![
                                (
                                    "anyOf"@,
                                    Tree::Array(
                                        seq![
                                            requires_fields(seq!["root_id"@]),
                                            requires_fields(seq!["path"@]),
                                            requires_fields(seq!["line"@]),
                                            requires_fields(seq!["column"@]),
                                        ],
                                    ),
                                ),
                            ],
                        ),
                    ),
                ],
            ),
            requires_fields(seq!["path"@, "line"@]),
        ],
    )
}

fn requires_one(name: &'static str) -> (schema: Json)
    ensures
        tree(schema) == requires_fields(seq![name@]),
{
    let names: Vec<&'static str> = vec![name];
    proof {
        assert(Seq::new(names@.len(), |i: int| names@[i]@) =~= seq![name@]);
    }
    required_schema(names)
}

/// Adds the branches of a request about a symbol to its schema.
pub fn symbol_info_input_schema(fields: &mut Vec<Field>)
    ensures
        field_trees(final(fields)@) == with_field(
            field_trees(old(fields)@),
            "oneOf"@,
            symbol_branches(),
        ),
{
    let position: Vec<Json> = vec![
        requires_one("root_id"),
        requires_one("path"),
        requires_one("line"),
        requires_one("column"),
    ];
    let ghost positions = position@;
    let any_position: Json = object_of_one("anyOf", Json::Array(position));
    let symbol: Vec<&'static str> = vec!["symbol"];
    let ghost wanted = Seq::new(symbol@.len(), |i: int| Tree::Text(symbol@[i]@));
    let mut by_name: Vec<Field> = Vec::new();
    by_name.push(Field { key: "required".to_owned(), value: text_list(symbol) });
    by_name.push(Field { key: "not".to_owned(), value: any_position });
    let ghost name_fields = by_name@;
    let place: Vec<&'static str> = vec!["path", "line"];
    proof {
        assert(Seq::new(place@.len(), |i: int| place@[i]@) =~= seq!["path"@, "line"@]);
    }
    let by_position: Json = required_schema(place);
    let branches: Vec<Json> = vec![Json::Object(by_name), by_position];
    proof {
        lemma_trees_by_place(positions);
        lemma_field_trees_by_place(name_fields);
        lemma_trees_by_place(branches@);
        assert(wanted =~= seq![Tree::Text("symbol"@)]);
        assert(trees(positions) =~= seq![
            requires_fields(seq!["root_id"@]),
            requires_fields(seq!["path"@]),
            requires_fields(seq!["line"@]),
            requires_fields(seq!["column"@]),
        ]);
        let named = symbol_branches()->Array_0[0]->Object_0;
        assert(field_trees(name_fields) =~= named);
        assert(trees(branches@) =~= symbol_branches()->Array_0);
    }
    set_field(fields, "oneOf", Json::Array(branches));
}

/// Which form a request for help has.
#[derive(Debug, Clone, Copy, PartialEq, Eq, Structural)]
pub enum SyntaxHelpBranch {
    ByName,
    ByReferenceId,
}

/// The form of a request for help, from the keys that it has.
pub open spec fn branch_of(params: Tree) -> Result<SyntaxHelpBranch, Seq<char>> {
    match params {
        Tree::Object(fields) => if has_key(fields, "reference_id"@) {
            if has_key(fields, "name"@) || has_key(fields, "type_name"@) {
                Err("reference_id cannot be combined with name or type_name"@)
            } else {
                Ok(SyntaxHelpBranch::ByReferenceId)
            }
        } else {
            Ok(SyntaxHelpBranch::ByName)
        },
        _ => Err("syntax_help params must be an object"@),
    }
}

/// The form of a request for help, from the keys that it has.
pub fn syntax_help_branch(params: &Json) -> (result: Result<SyntaxHelpBranch, &'static str>)
    ensures
        match branch_of(tree(*params)) {
            Ok(branch) => result == Ok::<SyntaxHelpBranch, &'static str>(branch),
            Err(text) => result is Err && result->Err_0@ == text,
        },
{
    match params {
        Json::Object(fields) => {
            if find_key(fields, "reference_id") < fields.len() {
                if find_key(fields, "name") < fields.len() || find_key(fields, "type_name")
                    < fields.len() {
                    Err("reference_id cannot be combined with name or type_name")
                } else {
                    Ok(SyntaxHelpBranch::ByReferenceId)
                }
            } else {
                Ok(SyntaxHelpBranch::ByName)
            }
        },
        _ => Err("syntax_help params must be an object"),
    }
}

/// A request is by its id or by its name, and never both.
pub proof fn the_two_forms_of_help_exclude_each_other(fields: Seq<(Seq<char>, Tree)>)
    ensures
        branch_of(Tree::Object(fields)) == Ok::<SyntaxHelpBranch, Seq<char>>(
            SyntaxHelpBranch::ByReferenceId,
        ) <==> has_key(fields, "reference_id"@) && !has_key(fields, "name"@) && !has_key(
            fields,
            "type_name"@,
        ),
        branch_of(Tree::Object(fields)) == Ok::<SyntaxHelpBranch, Seq<char>>(
            SyntaxHelpBranch::ByName,
        ) <==> !has_key(fields, "reference_id"@),
{
}

/// A copy holds what the original holds, down to the last text.
pub proof fn a_copy_holds_what_the_original_holds(value: Json, copy: Json)
    requires
        call_ensures(copy_json, (&value,), copy),
    ensures
        value is Null <==> copy is Null,
        value matches Json::Bool(held) ==> (copy matches Json::Bool(same) && same == held),
        value matches Json::Number(held) ==> (copy matches Json::Number(same) && same@ == held@),
        value matches Json::Text(held) ==> (copy matches Json::Text(same) && same@ == held@),
        value matches Json::Array(held) ==> (copy matches Json::Array(same) && same@.len()
            == held@.len() && forall|i: int|
            0 <= i < held@.len() ==> tree(#[trigger] same@[i]) == tree(held@[i])),
        value matches Json::Object(held) ==> (copy matches Json::Object(same) && same@.len()
            == held@.len() && forall|i: int|
            0 <= i < held@.len() ==> (#[trigger] same@[i]).key@ == held@[i].key@ && tree(
                same@[i].value,
            ) == tree(held@[i].value)),
{
    if let Json::Array(held) = value {
        let same = copy->Array_0;
        lemma_trees_by_place(held@);
        lemma_trees_by_place(same@);
        assert forall|i: int| 0 <= i < held@.len() implies tree(#[trigger] same@[i]) == tree(
            held@[i],
        ) by {
            assert(trees(same@)[i] == trees(held@)[i]);
        }
    }
    if let Json::Object(held) = value {
        let same = copy->Object_0;
        lemma_field_trees_by_place(held@);
        lemma_field_trees_by_place(same@);
        assert forall|i: int| 0 <= i < held@.len() implies (#[trigger] same@[i]).key@
            == held@[i].key@ && tree(same@[i].value) == tree(held@[i].value) by {
            assert(field_trees(same@)[i] == field_trees(held@)[i]);
        }
    }
}

/// The place of a key is the first field that has it, and past the last field where none has.
pub proof fn a_key_is_found_at_its_first_field(fields: Vec<Field>, key: &str, place: usize)
    requires
        call_ensures(find_key, (&fields, key), place),
    ensures
        place <= fields@.len(),
        forall|i: int| 0 <= i < place ==> (#[trigger] fields@[i]).key@ != key@,
        place < fields@.len() ==> fields@[place as int].key@ == key@,
{
    lemma_field_trees_by_place(fields@);
    lemma_place_is_the_first(field_trees(fields@), key@);
    assert forall|i: int| 0 <= i < place implies (#[trigger] fields@[i]).key@ != key@ by {
        assert(field_trees(fields@)[i].0 != key@);
    }
}

/// A field that is set has its value: in the place of the first field with the key, where there is
/// one, and else at the end. No other field changes.
pub proof fn a_field_is_set_in_its_place(key: &str, value: Json)
    ensures
        forall|fields: &mut Vec<Field>| #[trigger]
            call_ensures(set_field, (fields, key, value), ()) ==> exists|place: int|
                {
                    &&& 0 <= place <= fields@.len()
                    &&& forall|i: int| 0 <= i < place ==> fields@[i].key@ != key@
                    &&& place < fields@.len() ==> fields@[place].key@ == key@
                    &&& final(fields)@.len() == if place < fields@.len() {
                        fields@.len()
                    } else {
                        fields@.len() + 1
                    }
                    &&& (#[trigger] final(fields)@[place]).key@ == key@
                    &&& tree(final(fields)@[place].value) == tree(value)
                    &&& forall|i: int|
                        0 <= i < fields@.len() && i != place ==> final(fields)@[i].key@
                            == fields@[i].key@ && tree(final(fields)@[i].value) == tree(
                            fields@[i].value,
                        )
                },
{
    assert forall|fields: &mut Vec<Field>| #[trigger]
        call_ensures(set_field, (fields, key, value), ()) implies exists|place: int|
        {
            &&& 0 <= place <= fields@.len()
            &&& forall|i: int| 0 <= i < place ==> fields@[i].key@ != key@
            &&& place < fields@.len() ==> fields@[place].key@ == key@
            &&& final(fields)@.len() == if place < fields@.len() {
                fields@.len()
            } else {
                fields@.len() + 1
            }
            &&& (#[trigger] final(fields)@[place]).key@ == key@
            &&& tree(final(fields)@[place].value) == tree(value)
            &&& forall|i: int|
                0 <= i < fields@.len() && i != place ==> final(fields)@[i].key@ == fields@[i].key@
                    && tree(final(fields)@[i].value) == tree(fields@[i].value)
        } by {
        let before = field_trees(fields@);
        let after = field_trees(final(fields)@);
        lemma_field_trees_by_place(fields@);
        lemma_field_trees_by_place(final(fields)@);
        lemma_place_is_the_first(before, key@);
        a_set_field_has_its_value(before, key@, tree(value));
        let place = place_of_key(before, key@);
        assert forall|i: int| 0 <= i < place implies fields@[i].key@ != key@ by {
            assert(before[i].0 != key@);
        }
        assert forall|i: int| 0 <= i < fields@.len() && i != place implies final(fields)@[i].key@
            == fields@[i].key@ && tree(final(fields)@[i].value) == tree(fields@[i].value) by {
            assert(after[i] == before[i]);
        }
        assert(after[place] == (key@, tree(value)));
        assert(final(fields)@[place].key@ == key@);
    }
}

/// A field that is taken out is the first with the key, and the others close up; nothing changes
/// where there is none.
pub proof fn a_field_is_taken_out_once(key: &str, taken: Option<Json>)
    ensures
        forall|fields: &mut Vec<Field>| #[trigger]
            call_ensures(take_field, (fields, key), taken) ==> {
                &&& taken is None <==> forall|i: int|
                    0 <= i < fields@.len() ==> (#[trigger] fields@[i]).key@ != key@
                &&& taken is None ==> field_trees(final(fields)@) == field_trees(fields@)
                &&& taken is Some ==> exists|place: int|
                    {
                        &&& 0 <= place < fields@.len()
                        &&& (#[trigger] fields@[place]).key@ == key@
                        &&& forall|i: int| 0 <= i < place ==> fields@[i].key@ != key@
                        &&& tree(taken->Some_0) == tree(fields@[place].value)
                        &&& field_trees(final(fields)@) == field_trees(fields@).remove(place)
                    }
            },
{
    assert forall|fields: &mut Vec<Field>| #[trigger]
        call_ensures(take_field, (fields, key), taken) implies {
        &&& taken is None <==> forall|i: int|
            0 <= i < fields@.len() ==> (#[trigger] fields@[i]).key@ != key@
        &&& taken is None ==> field_trees(final(fields)@) == field_trees(fields@)
        &&& taken is Some ==> exists|place: int|
            {
                &&& 0 <= place < fields@.len()
                &&& (#[trigger] fields@[place]).key@ == key@
                &&& forall|i: int| 0 <= i < place ==> fields@[i].key@ != key@
                &&& tree(taken->Some_0) == tree(fields@[place].value)
                &&& field_trees(final(fields)@) == field_trees(fields@).remove(place)
            }
    } by {
        let before = field_trees(fields@);
        lemma_field_trees_by_place(fields@);
        lemma_place_is_the_first(before, key@);
        let place = place_of_key(before, key@);
        assert forall|i: int| 0 <= i < place implies fields@[i].key@ != key@ by {
            assert(before[i].0 != key@);
        }
        if taken is Some {
            assert(before[place].0 == key@);
            assert(fields@[place].key@ == key@);
        }
    }
}

/// A schema is described as a document that stands neither as properties nor as an action, and
/// describing it again changes nothing.
pub proof fn a_described_schema_stays_described(schema: Json, described: Json, again: Json)
    requires
        call_ensures(document_search_action, (&schema,), described),
        call_ensures(document_search_action, (&described,), again),
    ensures
        tree(described) == documented(tree(schema), false, false),
        tree(again) == tree(described),
{
    describing_twice_is_describing_once(tree(schema), false, false);
}

/// What is neither object nor array stays as it is. Of an array the objects are described as
/// documents of their own, and everything else in it stays as it is, in its place.
pub proof fn only_objects_are_described(
    value: Tree,
    items: Seq<Tree>,
    is_properties: bool,
    is_action: bool,
)
    ensures
        !(value is Object) && !(value is Array) ==> documented(value, is_properties, is_action)
            == value,
        documented(Tree::Array(items), is_properties, is_action) matches Tree::Array(out)
            && out.len() == items.len() && forall|i: int|
            0 <= i < items.len() ==> #[trigger] out[i] == if items[i] is Object {
                documented(items[i], false, false)
            } else {
                items[i]
            },
{
    lemma_documented_items_by_place(items);
}

/// Each field of an object that is no action keeps its key and its place. Its properties are
/// described as properties, the action of properties as an action, and every other field as a
/// document of its own.
pub proof fn every_field_keeps_its_key_and_its_place(
    fields: Seq<(Seq<char>, Tree)>,
    is_properties: bool,
)
    ensures
        documented(Tree::Object(fields), is_properties, false) matches Tree::Object(out)
            && out.len() == fields.len() && forall|i: int|
            0 <= i < fields.len() ==> (#[trigger] out[i]).0 == fields[i].0 && out[i].1
                == documented(
                fields[i].1,
                fields[i].0 == "properties"@,
                is_properties && fields[i].0 == "action"@,
            ),
{
    lemma_documented_fields_by_place(fields, is_properties);
}

/// An action that is an object gets its description, in the place of one that it has or else at its
/// end, and is in every other field what it would be if it were no action.
pub proof fn an_action_gets_its_description(
    fields: Seq<(Seq<char>, Tree)>,
    is_properties: bool,
    out: Seq<(Seq<char>, Tree)>,
    inside: Seq<(Seq<char>, Tree)>,
)
    requires
        documented(Tree::Object(fields), is_properties, true) == Tree::Object(out),
        documented(Tree::Object(fields), is_properties, false) == Tree::Object(inside),
    ensures
        exists|place: int|
            {
                &&& 0 <= place <= inside.len()
                &&& forall|i: int| 0 <= i < place ==> inside[i].0 != "description"@
                &&& place < inside.len() ==> inside[place].0 == "description"@
                &&& #[trigger] out[place] == (
                    "description"@,
                    Tree::Text("Requested search, platform-listing, or lifecycle action."@),
                )
                &&& out.len() == if place < inside.len() {
                    inside.len()
                } else {
                    inside.len() + 1
                }
                &&& forall|i: int| 0 <= i < inside.len() && i != place ==> out[i] == inside[i]
            },
{
    let key = "description"@;
    let place = place_of_key(inside, key);
    lemma_place_is_the_first(inside, key);
    a_set_field_has_its_value(inside, key, action_description());
    assert(out == with_field(inside, key, action_description()));
    assert forall|i: int| 0 <= i < place implies inside[i].0 != key by {
        assert(inside[i].0 != key);
    }
    assert forall|i: int| 0 <= i < inside.len() && i != place implies out[i] == inside[i] by {
        assert(with_field(inside, key, action_description())[i] == inside[i]);
    }
    assert(out[place] == (key, action_description()));
}

/// The action of the properties of a schema is described, whatever else the schema says.
pub proof fn the_action_of_a_schema_is_described(
    schema: Json,
    described: Json,
    at: int,
    within: int,
)
    requires
        call_ensures(document_search_action, (&schema,), described),
        tree(schema) matches Tree::Object(fields) && 0 <= at < fields.len() && fields[at].0
            == "properties"@ && (fields[at].1 matches Tree::Object(properties) && 0 <= within
            < properties.len() && properties[within].0 == "action"@ && properties[within].1
            is Object),
    ensures
        ({
            let fields = tree(described)->Object_0;
            let properties = fields[at].1->Object_0;
            let action = properties[within].1->Object_0;
            &&& tree(described) is Object && fields[at].0 == "properties"@
            &&& fields[at].1 is Object && properties[within].0 == "action"@
            &&& properties[within].1 is Object
            &&& action.contains(
                (
                    "description"@,
                    Tree::Text("Requested search, platform-listing, or lifecycle action."@),
                ),
            )
        }),
{
    let fields = tree(schema)->Object_0;
    let properties = fields[at].1->Object_0;
    let action = properties[within].1->Object_0;
    lemma_documented_fields_by_place(fields, false);
    lemma_documented_fields_by_place(properties, true);
    let inside = documented_fields(action, false);
    let key = "description"@;
    lemma_place_is_the_first(inside, key);
    a_set_field_has_its_value(inside, key, action_description());
    let out = with_field(inside, key, action_description());
    assert(out[place_of_key(inside, key)] == (key, action_description()));
    assert("properties"@ != "action"@) by {
        reveal_strlit("properties");
        reveal_strlit("action");
        assert("properties"@.len() == 10);
        assert("action"@.len() == 6);
    }
    let described_fields = documented_fields(fields, false);
    let described_properties = documented_fields(properties, true);
    assert(tree(described) == Tree::Object(described_fields));
    assert(described_fields[at].1 == documented(fields[at].1, true, false));
    assert(described_fields[at].1 == Tree::Object(described_properties));
    assert(described_properties[within].1 == documented(properties[within].1, false, true));
    assert(described_properties[within].1 == Tree::Object(out));
    let place = place_of_key(inside, key);
    assert(0 <= place < out.len() && out[place].0 == key && out[place].1 == action_description());
}

/// A schema is branched exactly where it has a list of branches, under `anyOf` or else under
/// `oneOf`. It then has the same branches under `oneOf`, and a first branch that is an object
/// excludes a reference id and keeps all else that it says. What stands there and is no list is
/// taken out, and every other field stays.
pub proof fn the_branches_of_help_exclude_each_other(branched: bool)
    ensures
        forall|fields: &mut Vec<Field>| #[trigger]
            call_ensures(syntax_help_xor_schema, (fields,), branched) ==> {
                let before = field_trees(fields@);
                let after = field_trees(final(fields)@);
                let key = if has_key(before, "anyOf"@) {
                    "anyOf"@
                } else {
                    "oneOf"@
                };
                let given = before[place_of_key(before, key)].1;
                &&& branched <==> has_key(before, key) && given is Array
                &&& branched ==> {
                    &&& has_key(after, "oneOf"@)
                    &&& after[place_of_key(after, "oneOf"@)].1 matches Tree::Array(out) && {
                        let branches = given->Array_0;
                        &&& out.len() == branches.len()
                        &&& forall|i: int| 1 <= i < branches.len() ==> out[i] == branches[i]
                        &&& branches.len() > 0 && !(branches[0] is Object) ==> out[0] == branches[0]
                        &&& branches.len() > 0 && branches[0] is Object ==> (out[0]
                            matches Tree::Object(first) && {
                            let place = place_of_key(branches[0]->Object_0, "not"@);
                            &&& first[place] == (
                                "not"@,
                                Tree::Object(
                                    seq![
                                        (
                                            "required"@,
                                            Tree::Array(seq![Tree::Text("reference_id"@)]),
                                        ),
                                    ],
                                ),
                            )
                            &&& forall|i: int|
                                0 <= i < branches[0]->Object_0.len() && i != place
                                    ==> #[trigger] first[i] == branches[0]->Object_0[i]
                        })
                    }
                }
                &&& !has_key(before, key) ==> after == before
                &&& has_key(before, key) && !branched ==> after == before.remove(
                    place_of_key(before, key),
                )
                &&& forall|i: int|
                    0 <= i < before.len() && (#[trigger] before[i]).0 != "anyOf"@ && before[i].0
                        != "oneOf"@ ==> after.contains(before[i])
            },
{
    let names = seq!["reference_id"@];
    assert(Seq::new(names.len(), |i: int| Tree::Text(names[i])) =~= seq![
        Tree::Text("reference_id"@),
    ]);
    assert forall|fields: &mut Vec<Field>| #[trigger]
        call_ensures(syntax_help_xor_schema, (fields,), branched) implies {
        let before = field_trees(fields@);
        let after = field_trees(final(fields)@);
        let key = if has_key(before, "anyOf"@) {
            "anyOf"@
        } else {
            "oneOf"@
        };
        let given = before[place_of_key(before, key)].1;
        &&& branched <==> has_key(before, key) && given is Array
        &&& branched ==> {
            &&& has_key(after, "oneOf"@)
            &&& after[place_of_key(after, "oneOf"@)].1 matches Tree::Array(out) && {
                let branches = given->Array_0;
                &&& out.len() == branches.len()
                &&& forall|i: int| 1 <= i < branches.len() ==> out[i] == branches[i]
                &&& branches.len() > 0 && !(branches[0] is Object) ==> out[0] == branches[0]
                &&& branches.len() > 0 && branches[0] is Object ==> (out[0] matches Tree::Object(
                    first,
                ) && {
                    let place = place_of_key(branches[0]->Object_0, "not"@);
                    &&& first[place] == (
                        "not"@,
                        Tree::Object(
                            seq![("required"@, Tree::Array(seq![Tree::Text("reference_id"@)]))],
                        ),
                    )
                    &&& forall|i: int|
                        0 <= i < branches[0]->Object_0.len() && i != place ==> #[trigger] first[i]
                            == branches[0]->Object_0[i]
                })
            }
        }
        &&& !has_key(before, key) ==> after == before
        &&& has_key(before, key) && !branched ==> after == before.remove(place_of_key(before, key))
        &&& forall|i: int|
            0 <= i < before.len() && (#[trigger] before[i]).0 != "anyOf"@ && before[i].0
                != "oneOf"@ ==> after.contains(before[i])
    } by {
        let before = field_trees(fields@);
        let after = field_trees(final(fields)@);
        let (rest, found) = split_branches(before);
        let key = if has_key(before, "anyOf"@) {
            "anyOf"@
        } else {
            "oneOf"@
        };
        let place = place_of_key(before, key);
        lemma_place_is_the_first(before, key);
        assert forall|i: int|
            0 <= i < before.len() && (#[trigger] before[i]).0 != "anyOf"@ && before[i].0
                != "oneOf"@ implies after.contains(before[i]) by {
            if has_key(before, key) {
                let moved = if i < place {
                    i
                } else {
                    i - 1
                };
                assert(rest[moved] == before[i]);
                if found->Some_0 is Array {
                    let set = Tree::Array(exclusive(found->Some_0->Array_0));
                    a_set_field_has_its_value(rest, "oneOf"@, set);
                    lemma_place_is_the_first(rest, "oneOf"@);
                    assert(after[moved] == before[i]);
                } else {
                    assert(after[moved] == before[i]);
                }
            } else {
                assert(after[i] == before[i]);
            }
        }
        if branched {
            let branches = found->Some_0->Array_0;
            a_set_field_has_its_value(rest, "oneOf"@, Tree::Array(exclusive(branches)));
            if branches.len() > 0 && branches[0] is Object {
                a_set_field_has_its_value(
                    branches[0]->Object_0,
                    "not"@,
                    requires_fields(names),
                );
            }
        }
    }
}

/// The schema of a request about a symbol has two branches: a name without anything of a position,
/// or a path and a line. Every other field stays as it is.
pub proof fn a_symbol_is_asked_for_by_name_or_by_place()
    ensures
        forall|fields: &mut Vec<Field>| #[trigger]
            call_ensures(symbol_info_input_schema, (fields,), ()) ==> {
                let before = field_trees(fields@);
                let after = field_trees(final(fields)@);
                let place = place_of_key(before, "oneOf"@);
                &&& forall|i: int| 0 <= i < before.len() && i != place ==> after[i] == before[i]
                &&& after[place].0 == "oneOf"@
                &&& after[place].1 matches Tree::Array(branches) && branches.len() == 2 && {
                    &&& branches[0] matches Tree::Object(by_name) && by_name.len() == 2 && {
                        &&& by_name[0] == ("required"@, Tree::Array(seq![Tree::Text("symbol"@)]))
                        &&& by_name[1].0 == "not"@
                        &&& by_name[1].1 matches Tree::Object(excluded) && excluded.len() == 1 && {
                            &&& excluded[0].0 == "anyOf"@
                            &&& excluded[0].1 matches Tree::Array(parts) && parts.len() == 4 && {
                                &&& parts[0] == required_alone("root_id"@)
                                &&& parts[1] == required_alone("path"@)
                                &&& parts[2] == required_alone("line"@)
                                &&& parts[3] == required_alone("column"@)
                            }
                        }
                    }
                    &&& branches[1] == Tree::Object(
                        seq![
                            (
                                "required"@,
                                Tree::Array(seq![Tree::Text("path"@), Tree::Text("line"@)]),
                            ),
                        ],
                    )
                }
            },
{
    lemma_one_required_field("root_id"@);
    lemma_one_required_field("path"@);
    lemma_one_required_field("line"@);
    lemma_one_required_field("column"@);
    let both = seq!["path"@, "line"@];
    assert(Seq::new(both.len(), |i: int| Tree::Text(both[i])) =~= seq![
        Tree::Text("path"@),
        Tree::Text("line"@),
    ]);
    assert forall|fields: &mut Vec<Field>| #[trigger]
        call_ensures(symbol_info_input_schema, (fields,), ()) implies {
        let before = field_trees(fields@);
        let after = field_trees(final(fields)@);
        let place = place_of_key(before, "oneOf"@);
        &&& forall|i: int| 0 <= i < before.len() && i != place ==> after[i] == before[i]
        &&& after[place] == ("oneOf"@, symbol_branches())
    } by {
        let before = field_trees(fields@);
        a_set_field_has_its_value(before, "oneOf"@, symbol_branches());
        let after = field_trees(final(fields)@);
        let place = place_of_key(before, "oneOf"@);
        assert forall|i: int| 0 <= i < before.len() && i != place implies after[i] == before[i] by {
            assert(with_field(before, "oneOf"@, symbol_branches())[i] == before[i]);
        }
    }
}

/// An object must have this field.
pub open spec fn required_alone(name: Seq<char>) -> Tree {
    Tree::Object(seq![("required"@, Tree::Array(seq![Tree::Text(name)]))])
}

proof fn lemma_one_required_field(name: Seq<char>)
    ensures
        requires_fields(seq![name]) == required_alone(name),
{
    let names = seq![name];
    assert(Seq::new(names.len(), |i: int| Tree::Text(names[i])) =~= seq![Tree::Text(name)]);
}

/// A request for help is by its id exactly where it has one and nothing of a name, and by its name
/// where it has no id. It is told so where it has both, or is no object.
pub proof fn a_request_for_help_has_one_form(
    params: Json,
    result: Result<SyntaxHelpBranch, &'static str>,
)
    requires
        call_ensures(syntax_help_branch, (&params,), result),
    ensures
        params matches Json::Object(fields) ==> {
            let by_id = exists|i: int|
                0 <= i < fields@.len() && #[trigger] fields@[i].key@ == "reference_id"@;
            let by_name = exists|i: int|
                0 <= i < fields@.len() && (#[trigger] fields@[i].key@ == "name"@ || fields@[i].key@
                    == "type_name"@);
            &&& by_id && !by_name ==> (result matches Ok(branch) && branch is ByReferenceId)
            &&& !by_id ==> (result matches Ok(branch) && branch is ByName)
            &&& by_id && by_name ==> (result matches Err(text) && text@
                == "reference_id cannot be combined with name or type_name"@)
        },
        !(params is Object) ==> (result matches Err(text) && text@
            == "syntax_help params must be an object"@),
{
    if let Json::Object(fields) = params {
        lemma_a_key_is_there_where_a_field_has_it(fields@, "reference_id"@);
        lemma_a_key_is_there_where_a_field_has_it(fields@, "name"@);
        lemma_a_key_is_there_where_a_field_has_it(fields@, "type_name"@);
    }
}

proof fn lemma_a_key_is_there_where_a_field_has_it(fields: Seq<Field>, key: Seq<char>)
    ensures
        has_key(field_trees(fields), key) <==> exists|i: int|
            0 <= i < fields.len() && #[trigger] fields[i].key@ == key,
{
    let seen = field_trees(fields);
    lemma_field_trees_by_place(fields);
    lemma_place_is_the_first(seen, key);
    let place = place_of_key(seen, key);
    if has_key(seen, key) {
        assert(fields[place].key@ == key);
    } else {
        assert forall|i: int| 0 <= i < fields.len() implies #[trigger] fields[i].key@ != key by {
            assert(seen[i].0 != key);
        }
    }
}

} // verus!
