use gql_cli::client::{dispatch, Gql, Mutation, Query, QueryName, Variables};
use gql_cli::emit::{emit_dispatch, rust_type};
use gql_cli::error::GenError;
use gql_cli::extract::{extract_operations, extract_scalars};
use gql_cli::generate::generate;
use gql_cli::mapping::{map_scalar, map_variable_type, same_text, ScalarAlias, ScalarKind, TargetType};
use gql_cli::model::{Definition, TypeRef, VariableDef};
use gql_cli::reshape::{find_colon, vec_to_json_string};

fn named(n: &str) -> TypeRef {
    TypeRef::Named(n.to_string())
}

fn non_null(t: TypeRef) -> TypeRef {
    TypeRef::NonNull(Box::new(t))
}

fn list(t: TypeRef) -> TypeRef {
    TypeRef::List(Box::new(t))
}

fn var(name: &str, ty: TypeRef) -> VariableDef {
    VariableDef { name: name.to_string(), ty }
}

fn op(name: &str, variables: Vec<VariableDef>) -> Definition {
    Definition::Operation { name: Some(name.to_string()), variables }
}

fn scalar(name: &str) -> Definition {
    Definition::Scalar { name: name.to_string() }
}

fn strings(v: &[&str]) -> Vec<String> {
    v.iter().map(|s| s.to_string()).collect()
}

#[test]
fn foo_command_has_optional_int_and_required_string() {
    let ops = vec![op("Foo", vec![var("a", named("Int")), var("b", non_null(named("String")))])];
    let g = generate(&vec![], &ops, "http://localhost:3000/graphql").unwrap();
    assert!(g.arg_schema.contains("    Foo { a: MaybeStdin<Option<i64>>, b: MaybeStdin<String>, },\n"));
    assert!(g.arg_schema.contains("#[command(rename_all = \"snake_case\")]\npub enum QueryName {\n"));
    let vars = &g.operations[0].variables;
    assert_eq!(vars.len(), 2);
    assert_eq!(vars[0].name, "a");
    assert_eq!(vars[0].ty, TargetType { kind: ScalarKind::Int, required: false });
    assert_eq!(vars[1].name, "b");
    assert_eq!(vars[1].ty, TargetType { kind: ScalarKind::Str, required: true });
}

#[test]
fn json_scalar_is_string_list_and_others_are_strings() {
    assert_eq!(map_scalar("JSON"), ScalarAlias::StringList);
    assert_eq!(map_scalar("Cursor"), ScalarAlias::Str);
    assert_eq!(map_scalar("json"), ScalarAlias::Str);
    assert_eq!(map_scalar(""), ScalarAlias::Str);
    let schema = vec![scalar("Cursor"), Definition::Other, scalar("JSON"), scalar("Time")];
    let scalars = extract_scalars(&schema);
    assert_eq!(scalars.len(), 3);
    assert_eq!(scalars[1].name, "JSON");
    let g = generate(&schema, &vec![], "u").unwrap();
    assert!(g.arg_schema.contains("type Cursor = String;\ntype JSON = Vec<String>;\ntype Time = String;\n"));
}

#[test]
fn list_variables_are_never_arguments() {
    let ops = vec![op(
        "Search",
        vec![
            var("a", list(named("String"))),
            var("b", non_null(list(named("String")))),
            var("c", non_null(list(non_null(named("Int"))))),
            var("d", named("ID")),
        ],
    )];
    let g = generate(&vec![], &ops, "u").unwrap();
    let o = &g.operations[0];
    assert_eq!(o.variables.len(), 1);
    assert_eq!(o.variables[0].name, "d");
    assert_eq!(o.omitted, strings(&["a", "b", "c"]));
    assert!(g.arg_schema.contains("    Search { d: MaybeStdin<Option<String>>, },\n"));
    assert!(!g.arg_schema.contains(" a: "));
    assert!(g.dispatch.contains("QueryName::Search { d, } => {"));
}

#[test]
fn variables_keep_declaration_order() {
    let ops = vec![op(
        "Order",
        vec![
            var("z", named("Boolean")),
            var("skip", named("Cursor")),
            var("m", non_null(named("Float"))),
            var("a", non_null(named("ID"))),
        ],
    )];
    let g = generate(&vec![], &ops, "u").unwrap();
    let names: Vec<&str> = g.operations[0].variables.iter().map(|v| v.name.as_str()).collect();
    assert_eq!(names, vec!["z", "m", "a"]);
    assert!(g.arg_schema.contains(
        "    Order { z: MaybeStdin<Option<bool>>, m: MaybeStdin<f64>, a: MaybeStdin<String>, },\n"
    ));
    assert!(g.dispatch.contains(
        "order::Variables { z: z.to_string(), m: m.to_string(), a: a.to_string(), }"
    ));
}

#[test]
fn create_domain_tags_become_json_object() {
    let gql = Gql::Query(Query {
        name: QueryName::CreateDomain {
            domain: "example.com".to_string(),
            tags: strings(&["env:prod", "team:x"]),
        },
    });
    match dispatch(gql) {
        Ok(Some(Variables::CreateDomain { domain, tags })) => {
            assert_eq!(domain, "example.com");
            assert_eq!(tags, "{\"env\":\"prod\",\"team\":\"x\"}");
        }
        _ => panic!("expected the variables of CreateDomain"),
    }
}

#[test]
fn tag_without_colon_is_rejected() {
    let gql = Gql::Query(Query {
        name: QueryName::CreateDomain {
            domain: "example.com".to_string(),
            tags: strings(&["env:prod", "badtag", "other"]),
        },
    });
    match dispatch(gql) {
        Err(GenError::MalformedArgument { argument }) => assert_eq!(argument, "badtag"),
        _ => panic!("expected a malformed argument"),
    }
}

#[test]
fn tags_split_on_first_colon_and_later_key_wins() {
    let r = vec_to_json_string(strings(&["url:http://x:1", "a:1", "a:2", "empty:"])).unwrap();
    assert_eq!(r, "{\"a\":\"2\",\"empty\":\"\",\"url\":\"http://x:1\"}");
    assert_eq!(vec_to_json_string(vec![]).unwrap(), "{}");
    assert_eq!(find_colon("ab:c:d"), Some(2));
    assert_eq!(find_colon("abc"), None);
}

#[test]
fn generation_is_repeatable() {
    let schema = vec![scalar("JSON"), scalar("Cursor")];
    let ops = vec![
        op("SearchTagByValue", vec![var("search", non_null(named("String")))]),
        op("CreateDomain", vec![var("domain", non_null(named("String"))), var("tags", named("JSON"))]),
    ];
    let g1 = generate(&schema, &ops, "http://localhost:3000/graphql").unwrap();
    let g2 = generate(&schema, &ops, "http://localhost:3000/graphql").unwrap();
    assert_eq!(g1.arg_schema, g2.arg_schema);
    assert_eq!(g1.dispatch, g2.dispatch);
}

#[test]
fn anonymous_operation_is_a_schema_error() {
    let ops = vec![
        op("First", vec![]),
        Definition::Other,
        Definition::Operation { name: None, variables: vec![] },
    ];
    match generate(&vec![], &ops, "u") {
        Err(GenError::Schema { position }) => assert_eq!(position, 2),
        _ => panic!("expected a schema error"),
    }
    match extract_operations(&ops) {
        Err(GenError::Schema { position }) => assert_eq!(position, 2),
        _ => panic!("expected a schema error"),
    }
}

#[test]
fn duplicate_operation_is_rejected() {
    let ops = vec![op("A", vec![]), op("B", vec![]), op("A", vec![])];
    match generate(&vec![], &ops, "u") {
        Err(GenError::DuplicateOperation { name }) => assert_eq!(name, "A"),
        _ => panic!("expected a duplicate operation"),
    }
}

#[test]
fn dispatch_uses_snake_case_modules_and_endpoint() {
    let ops = vec![op("CreateDomain", vec![var("domain", non_null(named("String")))])];
    let decls = extract_operations(&ops).unwrap();
    let text = emit_dispatch(&decls, "http://example.org/graphql");
    assert!(text.contains("use crate::generated::{CreateDomain, create_domain, };\n"));
    assert!(text.contains("const URL: &str = \"http://example.org/graphql\";\n"));
    assert!(text.contains(
        "QueryName::CreateDomain { domain, } => {\n                    run(CreateDomain::build_query(create_domain::Variables { domain: domain.to_string(), }))?;"
    ));
    assert!(text.contains("Gql::Mutation(_mutation) => {}"));
}

#[test]
fn type_mapping_table() {
    let opt = |k| Some(TargetType { kind: k, required: false });
    let req = |k| Some(TargetType { kind: k, required: true });
    assert_eq!(map_variable_type(&named("Int")), opt(ScalarKind::Int));
    assert_eq!(map_variable_type(&named("String")), opt(ScalarKind::Str));
    assert_eq!(map_variable_type(&named("Boolean")), opt(ScalarKind::Bool));
    assert_eq!(map_variable_type(&named("ID")), opt(ScalarKind::Str));
    assert_eq!(map_variable_type(&named("Float")), opt(ScalarKind::Float));
    assert_eq!(map_variable_type(&non_null(named("Int"))), req(ScalarKind::Int));
    assert_eq!(map_variable_type(&non_null(named("ID"))), req(ScalarKind::Str));
    assert_eq!(map_variable_type(&named("Cursor")), None);
    assert_eq!(map_variable_type(&non_null(named("JSON"))), None);
    assert_eq!(map_variable_type(&non_null(non_null(named("Int")))), None);
    assert_eq!(rust_type(TargetType { kind: ScalarKind::Int, required: false }), "Option<i64>");
    assert_eq!(rust_type(TargetType { kind: ScalarKind::Bool, required: true }), "bool");
    assert!(same_text("abc", "abc"));
    assert!(!same_text("abc", "abd"));
    assert!(!same_text("ab", "abc"));
}

#[test]
fn mutation_does_nothing_and_search_passes_through() {
    assert!(matches!(dispatch(Gql::Mutation(Mutation {})), Ok(None)));
    let gql = Gql::Query(Query { name: QueryName::SearchTagByValue { search: "x".to_string() } });
    match dispatch(gql) {
        Ok(Some(Variables::SearchTagByValue { search })) => assert_eq!(search, "x"),
        _ => panic!("expected the variables of SearchTagByValue"),
    }
}
