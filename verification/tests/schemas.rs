use mcp_server::json::{
    copy_json, document_search_action, find_key, set_field, symbol_info_input_schema,
    syntax_help_branch, syntax_help_xor_schema, take_field, Field, Json, SyntaxHelpBranch,
};
use mcp_server::symbol_info::SymbolMemberKindFilter;

fn text(text: &str) -> Json {
    Json::Text(text.to_owned())
}

fn field(key: &str, value: Json) -> Field {
    Field { key: key.to_owned(), value }
}

fn object(fields: Vec<Field>) -> Json {
    Json::Object(fields)
}

fn required(names: &[&str]) -> Json {
    object(vec![field("required", Json::Array(names.iter().map(|name| text(name)).collect()))])
}

const DESCRIBED: &str = "Requested search, platform-listing, or lifecycle action.";

fn tagged(action: Vec<Field>) -> Json {
    object(vec![
        field("type", text("object")),
        field("properties", object(vec![field("action", object(action))])),
    ])
}

#[test]
fn every_action_of_a_schema_is_described() {
    let constant = |name| field("const", text(name));
    let schema = object(vec![
        field(
            "oneOf",
            Json::Array(vec![
                tagged(vec![constant("status")]),
                tagged(vec![field("description", text("old")), constant("find_docs")]),
                Json::Array(vec![tagged(vec![constant("nested")])]),
                Json::Bool(true),
            ]),
        ),
        field("$defs", object(vec![field("Inner", tagged(vec![constant("inner")]))])),
        field("minimum", Json::Number("1".to_owned())),
        field("default", Json::Null),
    ]);
    let described = |action: Vec<Field>| tagged(action);
    let expected = object(vec![
        field(
            "oneOf",
            Json::Array(vec![
                described(vec![constant("status"), field("description", text(DESCRIBED))]),
                described(vec![field("description", text(DESCRIBED)), constant("find_docs")]),
                Json::Array(vec![tagged(vec![constant("nested")])]),
                Json::Bool(true),
            ]),
        ),
        field(
            "$defs",
            object(vec![field(
                "Inner",
                described(vec![constant("inner"), field("description", text(DESCRIBED))]),
            )]),
        ),
        field("minimum", Json::Number("1".to_owned())),
        field("default", Json::Null),
    ]);
    let once = document_search_action(&schema);
    assert_eq!(once, expected);
    assert_eq!(document_search_action(&once), expected);
    assert_eq!(copy_json(&schema), schema);
}

#[test]
fn an_action_outside_of_properties_is_not_described() {
    let schema = object(vec![
        field("action", object(vec![])),
        field("properties", object(vec![field("action", Json::Bool(true))])),
    ]);
    assert_eq!(document_search_action(&schema), schema);
}

#[test]
fn the_branches_of_help_exclude_each_other() {
    for key in ["anyOf", "oneOf"] {
        let by_name = || object(vec![field("type", text("object"))]);
        let by_id = || object(vec![field("additionalProperties", Json::Bool(false))]);
        let mut schema =
            vec![field(key, Json::Array(vec![by_name(), by_id()])), field("title", text("t"))];
        assert!(syntax_help_xor_schema(&mut schema));
        let first = object(vec![
            field("type", text("object")),
            field("not", required(&["reference_id"])),
        ]);
        assert_eq!(
            schema,
            [field("title", text("t")), field("oneOf", Json::Array(vec![first, by_id()]))]
        );
    }
}

#[test]
fn a_schema_without_branches_is_left_alone() {
    let mut plain = vec![field("title", text("t"))];
    assert!(!syntax_help_xor_schema(&mut plain));
    assert_eq!(plain, [field("title", text("t"))]);
    let mut odd = vec![field("anyOf", Json::Null), field("oneOf", Json::Array(vec![]))];
    assert!(!syntax_help_xor_schema(&mut odd));
    assert_eq!(odd, [field("oneOf", Json::Array(vec![]))]);
    let mut first = vec![field("oneOf", Json::Array(vec![Json::Bool(true)]))];
    assert!(syntax_help_xor_schema(&mut first));
    assert_eq!(first, [field("oneOf", Json::Array(vec![Json::Bool(true)]))]);
}

#[test]
fn a_symbol_has_its_name_or_a_position() {
    let mut schema = vec![field("oneOf", Json::Null)];
    symbol_info_input_schema(&mut schema);
    let any = ["root_id", "path", "line", "column"].iter().map(|name| required(&[name])).collect();
    let by_name = object(vec![
        field("required", Json::Array(vec![text("symbol")])),
        field("not", object(vec![field("anyOf", Json::Array(any))])),
    ]);
    assert_eq!(
        schema,
        [field("oneOf", Json::Array(vec![by_name, required(&["path", "line"])]))]
    );
}

#[test]
fn help_is_asked_for_by_name_or_by_id() {
    let params = |keys: &[&str]| {
        syntax_help_branch(&object(keys.iter().map(|key| field(key, text("x"))).collect()))
    };
    assert_eq!(params(&["name", "future"]), Ok(SyntaxHelpBranch::ByName));
    assert_eq!(params(&[]), Ok(SyntaxHelpBranch::ByName));
    assert_eq!(
        params(&["reference_id", "max_output_tokens"]),
        Ok(SyntaxHelpBranch::ByReferenceId)
    );
    let combined = Err("reference_id cannot be combined with name or type_name");
    assert_eq!(params(&["name", "reference_id"]), combined);
    assert_eq!(params(&["reference_id", "type_name"]), combined);
    assert_eq!(
        syntax_help_branch(&Json::Array(vec![])),
        Err("syntax_help params must be an object")
    );
}

#[test]
fn fields_are_found_set_and_taken() {
    let mut fields = vec![field("a", Json::Null), field("b", Json::Bool(true))];
    assert_eq!((find_key(&fields, "b"), find_key(&fields, "c")), (1, 2));
    set_field(&mut fields, "b", Json::Bool(false));
    set_field(&mut fields, "c", text("new"));
    assert_eq!(
        fields,
        [field("a", Json::Null), field("b", Json::Bool(false)), field("c", text("new"))]
    );
    assert_eq!(take_field(&mut fields, "a"), Some(Json::Null));
    assert_eq!(take_field(&mut fields, "a"), None);
    assert_eq!(fields.len(), 2);
}

/// Whether `wanted` stands anywhere in a schema, as a key or as a text.
fn holds(schema: &Json, wanted: &str) -> bool {
    match schema {
        Json::Text(text) => text == wanted,
        Json::Array(values) => values.iter().any(|value| holds(value, wanted)),
        Json::Object(fields) => {
            fields.iter().any(|field| field.key == wanted || holds(&field.value, wanted))
        }
        _ => false,
    }
}

fn get<'a>(fields: &'a [Field], key: &str) -> Option<&'a Json> {
    fields.iter().find(|field| field.key == key).map(|field| &field.value)
}

fn members(schema: &Json) -> &[Field] {
    match schema {
        Json::Object(fields) => fields,
        other => panic!("not an object: {other:?}"),
    }
}

fn branches(fields: &[Field]) -> &[Json] {
    match get(fields, "oneOf") {
        Some(Json::Array(values)) => values,
        other => panic!("no branches: {other:?}"),
    }
}

fn typed(kind: &str) -> Json {
    object(vec![field("type", text(kind))])
}

#[test]
fn syntax_help_input_is_an_xor_with_a_closed_reference_branch() {
    // The two forms as they are declared, before they exclude each other.
    let budget = || field("max_output_tokens", typed("integer"));
    let by_name = object(vec![
        field("type", text("object")),
        field(
            "properties",
            object(vec![
                field("name", typed("string")),
                field("type_name", typed("string")),
                budget(),
            ]),
        ),
        field("required", Json::Array(vec![text("name")])),
    ]);
    let by_id = object(vec![
        field("type", text("object")),
        field("properties", object(vec![field("reference_id", typed("string")), budget()])),
        field("required", Json::Array(vec![text("reference_id")])),
        field("additionalProperties", Json::Bool(false)),
    ]);
    let mut schema = vec![field("anyOf", Json::Array(vec![by_name, copy_json(&by_id)]))];
    assert!(syntax_help_xor_schema(&mut schema));
    assert_eq!(branches(&schema).len(), 2);
    assert_eq!(branches(&schema)[1], by_id, "the closed branch stays closed");
    assert_eq!(get(members(&branches(&schema)[0]), "not"), Some(&required(&["reference_id"])));
    let schema = object(schema);
    assert!(holds(&schema, "reference_id"));
    assert!(holds(&schema, "additionalProperties"));
    assert!(holds(&schema, "max_output_tokens"));

    let params = |fields: Vec<Field>| syntax_help_branch(&object(fields));
    let id = || field("reference_id", text("type::x~digest"));
    assert_eq!(
        params(vec![field("name", text("Массив")), field("future", Json::Bool(true))]),
        Ok(SyntaxHelpBranch::ByName)
    );
    assert_eq!(
        params(vec![id(), field("max_output_tokens", Json::Number("100".to_owned()))]),
        Ok(SyntaxHelpBranch::ByReferenceId)
    );
    assert!(params(vec![field("name", text("Массив")), id()]).is_err());
}

#[test]
fn symbol_info_input_schema_accepts_name_with_optional_complete_position() {
    let kinds = [
        SymbolMemberKindFilter::Attribute,
        SymbolMemberKindFilter::TabularSection,
        SymbolMemberKindFilter::Method,
        SymbolMemberKindFilter::Variable,
        SymbolMemberKindFilter::Property,
        SymbolMemberKindFilter::FormAttribute,
        SymbolMemberKindFilter::FormElement,
        SymbolMemberKindFilter::Handler,
    ];
    let names = kinds.iter().map(|kind| text(kind.as_str())).collect();
    let properties = object(vec![
        field("symbol", typed("string")),
        field("root_id", typed("string")),
        field("path", typed("string")),
        field("line", typed("integer")),
        field("column", typed("integer")),
        field("member_kind", object(vec![field("enum", Json::Array(names))])),
        field("member_name", typed("string")),
    ]);
    let mut schema = vec![field("type", text("object")), field("properties", copy_json(&properties))];
    symbol_info_input_schema(&mut schema);
    assert_eq!(branches(&schema).len(), 2);
    let needs = |branch: usize| get(members(&branches(&schema)[branch]), "required").map(copy_json);
    assert_eq!(needs(0), Some(Json::Array(vec![text("symbol")])));
    assert_eq!(needs(1), Some(Json::Array(vec![text("path"), text("line")])));
    assert_eq!(get(&schema, "properties"), Some(&properties), "the properties stay");
    let listed = members(get(&schema, "properties").expect("properties"));
    assert!(get(listed, "root_id").is_some());
    assert!(get(listed, "column").is_some());
    for kind in [
        "attribute",
        "tabular_section",
        "method",
        "variable",
        "property",
        "form_attribute",
        "form_element",
        "handler",
    ] {
        assert!(schema.iter().any(|field| holds(&field.value, kind)), "missing {kind}");
    }
    assert!(get(listed, "member_name").is_some());
}
