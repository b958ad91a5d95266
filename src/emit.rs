use vstd::prelude::*;
use heck::ToSnakeCase;
use crate::extract::{op_view, ops_view, scalars_view, vars_view, OpView, OperationDecl, ScalarDecl};
use crate::mapping::{ScalarAlias, ScalarKind, TargetType};

verus! {

/// The snake-case form of an identifier, as heck computes it.
pub uninterp spec fn snake_of(s: Seq<char>) -> Seq<char>;

/// Relies on heck's `ToSnakeCase for str`: the result depends on the text alone.
#[verifier::external_body]
fn snake_case(s: &str) -> (r: String)
    ensures
        r@ == snake_of(s@),
{
    s.to_snake_case()
}

/// The Rust type written for a target type.
pub open spec fn type_text(t: TargetType) -> Seq<char> {
    let base = match t.kind {
        ScalarKind::Int => "i64"@,
        ScalarKind::Str => "String"@,
        ScalarKind::Bool => "bool"@,
        ScalarKind::Float => "f64"@,
    };
    if t.required {
        base
    } else {
        "Option<"@ + base + ">"@
    }
}

/// The Rust type written for a scalar alias.
pub open spec fn alias_text(a: ScalarAlias) -> Seq<char> {
    match a {
        ScalarAlias::StringList => "Vec<String>"@,
        ScalarAlias::Str => "String"@,
    }
}

pub open spec fn bindings_header() -> Seq<char> {
    "use clap::{Parser, Subcommand};\nuse clap_stdin::MaybeStdin;\nuse graphql_client::GraphQLQuery;\n"@
}

/// `type Name = Alias;`
pub open spec fn scalar_text(s: (Seq<char>, ScalarAlias)) -> Seq<char> {
    "type "@ + s.0 + " = "@ + alias_text(s.1) + ";\n"@
}

pub open spec fn struct_head() -> Seq<char> {
    "#[derive(Debug, GraphQLQuery)]\n#[graphql(schema_path = \"../schema.graphql\", query_path = \"../query.graphql\")]\npub struct "@
}

/// The binding declaration of one operation.
pub open spec fn struct_text(o: OpView) -> Seq<char> {
    struct_head() + o.0 + ";\n"@
}

/// The top-level command surface: `query` with the operation commands and
/// an empty `mutation`, then the head of the operation enum.
pub open spec fn surface_text() -> Seq<char> {
    "#[derive(Parser)]\n#[command(name = \"gql\")]\n#[command(bin_name = \"gql\")]\npub enum Gql {\n    Query(Query),\n    Mutation(Mutation),\n}\n#[derive(clap::Args, Debug)]\n#[command(author, version, about, long_about = None)]\npub struct Query {\n    #[command(subcommand)]\n    pub name: QueryName,\n}\n#[derive(clap::Args, Debug)]\n#[command(author, version, about, long_about = None)]\npub struct Mutation {}\n#[derive(Debug, Clone, Subcommand)]\n#[command(rename_all = \"snake_case\")]\npub enum QueryName {\n"@
}

/// One argument, which may be given inline or read from standard input.
pub open spec fn arg_text(v: (Seq<char>, TargetType)) -> Seq<char> {
    " "@ + v.0 + ": MaybeStdin<"@ + type_text(v.1) + ">,"@
}

pub open spec fn args_text(vs: Seq<(Seq<char>, TargetType)>) -> Seq<char>
    decreases vs.len(),
{
    if vs.len() == 0 {
        seq![]
    } else {
        args_text(vs.drop_last()) + arg_text(vs.last())
    }
}

/// The command of one operation: a variant with one argument per variable.
pub open spec fn variant_text(o: OpView) -> Seq<char> {
    "    "@ + o.0 + " {"@ + args_text(o.1) + " },\n"@
}

pub open spec fn scalars_text(ss: Seq<(Seq<char>, ScalarAlias)>) -> Seq<char>
    decreases ss.len(),
{
    if ss.len() == 0 {
        seq![]
    } else {
        scalars_text(ss.drop_last()) + scalar_text(ss.last())
    }
}

pub open spec fn structs_text(os: Seq<OpView>) -> Seq<char>
    decreases os.len(),
{
    if os.len() == 0 {
        seq![]
    } else {
        structs_text(os.drop_last()) + struct_text(os.last())
    }
}

pub open spec fn variants_text(os: Seq<OpView>) -> Seq<char>
    decreases os.len(),
{
    if os.len() == 0 {
        seq![]
    } else {
        variants_text(os.drop_last()) + variant_text(os.last())
    }
}

/// The argument-schema file: scalar aliases, one binding per operation, the
/// command surface and the operation enum.
pub open spec fn arg_schema_text(ss: Seq<(Seq<char>, ScalarAlias)>, os: Seq<OpView>) -> Seq<char> {
    bindings_header() + scalars_text(ss) + structs_text(os) + surface_text() + variants_text(os) + "}\n"@
}

/// Writes the Rust type of a target type.
pub fn rust_type(t: TargetType) -> (r: String)
    ensures
        r@ == type_text(t),
{
    let base = match t.kind {
        ScalarKind::Int => "i64",
        ScalarKind::Str => "String",
        ScalarKind::Bool => "bool",
        ScalarKind::Float => "f64",
    };
    if t.required {
        String::from_str(base)
    } else {
        let mut r = String::from_str("Option<");
        r.append(base);
        r.append(">");
        r
    }
}

fn scalar_line(s: &ScalarDecl) -> (r: String)
    ensures
        r@ == scalar_text((s.name@, s.alias)),
{
    let mut r = String::from_str("type ");
    r.append(s.name.as_str());
    r.append(" = ");
    match s.alias {
        ScalarAlias::StringList => r.append("Vec<String>"),
        ScalarAlias::Str => r.append("String"),
    }
    r.append(";\n");
    r
}

fn variant_lines(o: &OperationDecl) -> (r: String)
    ensures
        r@ == variant_text(op_view(*o)),
{
    let mut args = String::new();
    let mut i: usize = 0;
    while i < o.variables.len()
        invariant
            i <= o.variables@.len(),
            args@ == args_text(vars_view(o.variables@).subrange(0, i as int)),
        decreases o.variables@.len() - i,
    {
        assert(vars_view(o.variables@).subrange(0, i + 1).drop_last() == vars_view(o.variables@).subrange(0, i as int));
        let v = &o.variables[i];
        args.append(" ");
        args.append(v.name.as_str());
        args.append(": MaybeStdin<");
        let t = rust_type(v.ty);
        args.append(t.as_str());
        args.append(">,");
        assert(args@ =~= args_text(vars_view(o.variables@).subrange(0, i + 1)));
        i = i + 1;
    }
    assert(vars_view(o.variables@).subrange(0, o.variables@.len() as int) == vars_view(o.variables@));
    let mut r = String::from_str("    ");
    r.append(o.name.as_str());
    r.append(" {");
    r.append(args.as_str());
    r.append(" },\n");
    r
}

/// Renders the argument-schema file of the given scalars and operations.
pub fn emit_arg_schema(scalars: &Vec<ScalarDecl>, ops: &Vec<OperationDecl>) -> (r: String)
    ensures
        r@ == arg_schema_text(scalars_view(scalars@), ops_view(ops@)),
{
    let mut out = String::from_str(
        "use clap::{Parser, Subcommand};\nuse clap_stdin::MaybeStdin;\nuse graphql_client::GraphQLQuery;\n",
    );
    let ghost head = out@;
    let mut i: usize = 0;
    while i < scalars.len()
        invariant
            i <= scalars@.len(),
            out@ == head + scalars_text(scalars_view(scalars@).subrange(0, i as int)),
        decreases scalars@.len() - i,
    {
        assert(scalars_view(scalars@).subrange(0, i + 1).drop_last() == scalars_view(scalars@).subrange(0, i as int));
        let line = scalar_line(&scalars[i]);
        out.append(line.as_str());
        assert(out@ =~= head + scalars_text(scalars_view(scalars@).subrange(0, i + 1)));
        i = i + 1;
    }
    assert(scalars_view(scalars@).subrange(0, scalars@.len() as int) == scalars_view(scalars@));
    let ghost head = out@;
    let mut i: usize = 0;
    while i < ops.len()
        invariant
            i <= ops@.len(),
            out@ == head + structs_text(ops_view(ops@).subrange(0, i as int)),
        decreases ops@.len() - i,
    {
        assert(ops_view(ops@).subrange(0, i + 1).drop_last() == ops_view(ops@).subrange(0, i as int));
        out.append(
            "#[derive(Debug, GraphQLQuery)]\n#[graphql(schema_path = \"../schema.graphql\", query_path = \"../query.graphql\")]\npub struct ",
        );
        out.append(ops[i].name.as_str());
        out.append(";\n");
        assert(out@ =~= head + structs_text(ops_view(ops@).subrange(0, i + 1)));
        i = i + 1;
    }
    assert(ops_view(ops@).subrange(0, ops@.len() as int) == ops_view(ops@));
    out.append(
        "#[derive(Parser)]\n#[command(name = \"gql\")]\n#[command(bin_name = \"gql\")]\npub enum Gql {\n    Query(Query),\n    Mutation(Mutation),\n}\n#[derive(clap::Args, Debug)]\n#[command(author, version, about, long_about = None)]\npub struct Query {\n    #[command(subcommand)]\n    pub name: QueryName,\n}\n#[derive(clap::Args, Debug)]\n#[command(author, version, about, long_about = None)]\npub struct Mutation {}\n#[derive(Debug, Clone, Subcommand)]\n#[command(rename_all = \"snake_case\")]\npub enum QueryName {\n",
    );
    let ghost head = out@;
    let mut i: usize = 0;
    while i < ops.len()
        invariant
            i <= ops@.len(),
            out@ == head + variants_text(ops_view(ops@).subrange(0, i as int)),
        decreases ops@.len() - i,
    {
        assert(ops_view(ops@).subrange(0, i + 1).drop_last() == ops_view(ops@).subrange(0, i as int));
        let lines = variant_lines(&ops[i]);
        out.append(lines.as_str());
        assert(out@ =~= head + variants_text(ops_view(ops@).subrange(0, i + 1)));
        i = i + 1;
    }
    assert(ops_view(ops@).subrange(0, ops@.len() as int) == ops_view(ops@));
    out.append("}\n");
    out
}


/// The head of the entry-point file, up to the list of imported bindings.
pub open spec fn main_header() -> Seq<char> {
    "mod generated;\nuse clap::Parser;\nuse generated::{Gql, Query, QueryName};\nuse graphql_client::{GraphQLQuery, QueryBody};\nuse serde::Serialize;\nuse crate::generated::{"@
}

/// The binding and the module of one operation, as imported.
pub open spec fn import_text(o: OpView) -> Seq<char> {
    o.0 + ", "@ + snake_of(o.0) + ", "@
}

pub open spec fn imports_text(os: Seq<OpView>) -> Seq<char>
    decreases os.len(),
{
    if os.len() == 0 {
        seq![]
    } else {
        imports_text(os.drop_last()) + import_text(os.last())
    }
}

/// The endpoint constant and the head of `main`, up to the operation branches.
pub open spec fn main_open_text(endpoint: Seq<char>) -> Seq<char> {
    "};\nconst URL: &str = \""@ + endpoint
        + "\";\nfn main() -> Result<(), anyhow::Error> {\n    let gql = Gql::parse();\n    match gql {\n        Gql::Query(Query { name }) => {\n            match name {\n"@
}

/// A bound argument in the pattern of a branch.
pub open spec fn binding_text(v: (Seq<char>, TargetType)) -> Seq<char> {
    " "@ + v.0 + ","@
}

pub open spec fn bindings_text(vs: Seq<(Seq<char>, TargetType)>) -> Seq<char>
    decreases vs.len(),
{
    if vs.len() == 0 {
        seq![]
    } else {
        bindings_text(vs.drop_last()) + binding_text(vs.last())
    }
}

/// A field of the variables record, filled with the stringified argument.
pub open spec fn field_text(v: (Seq<char>, TargetType)) -> Seq<char> {
    " "@ + v.0 + ": "@ + v.0 + ".to_string(),"@
}

pub open spec fn fields_text(vs: Seq<(Seq<char>, TargetType)>) -> Seq<char>
    decreases vs.len(),
{
    if vs.len() == 0 {
        seq![]
    } else {
        fields_text(vs.drop_last()) + field_text(vs.last())
    }
}

/// The dispatch branch of one operation: it builds the variables record and
/// the request body, and submits it.
pub open spec fn arm_text(o: OpView) -> Seq<char> {
    "                QueryName::"@ + o.0 + " {"@ + bindings_text(o.1)
        + " } => {\n                    run("@ + o.0 + "::build_query("@ + snake_of(o.0)
        + "::Variables {"@ + fields_text(o.1) + " }))?;\n                }\n"@
}

pub open spec fn arms_text(os: Seq<OpView>) -> Seq<char>
    decreases os.len(),
{
    if os.len() == 0 {
        seq![]
    } else {
        arms_text(os.drop_last()) + arm_text(os.last())
    }
}

/// The end of `main`, where a mutation does nothing, and the submitting function.
pub open spec fn main_close_text() -> Seq<char> {
    "            }\n        }\n        Gql::Mutation(_mutation) => {}\n    }\n    Ok(())\n}\npub fn run<T>(query: QueryBody<T>) -> Result<String, anyhow::Error>\nwhere\n    T: Serialize,\n{\n    let client = reqwest::blocking::Client::new();\n    let res = client.post(URL).json(&query).send()?;\n    let response_body: serde_json::Value = res.json()?;\n    println!(\"{}\", response_body);\n    Ok(response_body.to_string())\n}\n"@
}

/// The entry-point file: it parses the command surface and dispatches each
/// operation command to the request that it builds and submits to `endpoint`.
pub open spec fn dispatch_text(os: Seq<OpView>, endpoint: Seq<char>) -> Seq<char> {
    main_header() + imports_text(os) + main_open_text(endpoint) + arms_text(os) + main_close_text()
}

fn arm_lines(o: &OperationDecl) -> (r: String)
    ensures
        r@ == arm_text(op_view(*o)),
{
    let mut binds = String::new();
    let mut fields = String::new();
    let mut i: usize = 0;
    while i < o.variables.len()
        invariant
            i <= o.variables@.len(),
            binds@ == bindings_text(vars_view(o.variables@).subrange(0, i as int)),
            fields@ == fields_text(vars_view(o.variables@).subrange(0, i as int)),
        decreases o.variables@.len() - i,
    {
        assert(vars_view(o.variables@).subrange(0, i + 1).drop_last() == vars_view(o.variables@).subrange(0, i as int));
        let v = &o.variables[i];
        binds.append(" ");
        binds.append(v.name.as_str());
        binds.append(",");
        fields.append(" ");
        fields.append(v.name.as_str());
        fields.append(": ");
        fields.append(v.name.as_str());
        fields.append(".to_string(),");
        assert(binds@ =~= bindings_text(vars_view(o.variables@).subrange(0, i + 1)));
        assert(fields@ =~= fields_text(vars_view(o.variables@).subrange(0, i + 1)));
        i = i + 1;
    }
    assert(vars_view(o.variables@).subrange(0, o.variables@.len() as int) == vars_view(o.variables@));
    let snake = snake_case(o.name.as_str());
    let mut r = String::from_str("                QueryName::");
    r.append(o.name.as_str());
    r.append(" {");
    r.append(binds.as_str());
    r.append(" } => {\n                    run(");
    r.append(o.name.as_str());
    r.append("::build_query(");
    r.append(snake.as_str());
    r.append("::Variables {");
    r.append(fields.as_str());
    r.append(" }))?;\n                }\n");
    r
}

/// Renders the entry-point file with the dispatch table of the operations.
pub fn emit_dispatch(ops: &Vec<OperationDecl>, endpoint: &str) -> (r: String)
    ensures
        r@ == dispatch_text(ops_view(ops@), endpoint@),
{
    let mut out = String::from_str(
        "mod generated;\nuse clap::Parser;\nuse generated::{Gql, Query, QueryName};\nuse graphql_client::{GraphQLQuery, QueryBody};\nuse serde::Serialize;\nuse crate::generated::{",
    );
    let ghost head = out@;
    let mut i: usize = 0;
    while i < ops.len()
        invariant
            i <= ops@.len(),
            out@ == head + imports_text(ops_view(ops@).subrange(0, i as int)),
        decreases ops@.len() - i,
    {
        assert(ops_view(ops@).subrange(0, i + 1).drop_last() == ops_view(ops@).subrange(0, i as int));
        let snake = snake_case(ops[i].name.as_str());
        out.append(ops[i].name.as_str());
        out.append(", ");
        out.append(snake.as_str());
        out.append(", ");
        assert(out@ =~= head + imports_text(ops_view(ops@).subrange(0, i + 1)));
        i = i + 1;
    }
    assert(ops_view(ops@).subrange(0, ops@.len() as int) == ops_view(ops@));
    out.append("};\nconst URL: &str = \"");
    out.append(endpoint);
    out.append(
        "\";\nfn main() -> Result<(), anyhow::Error> {\n    let gql = Gql::parse();\n    match gql {\n        Gql::Query(Query { name }) => {\n            match name {\n",
    );
    let ghost head = out@;
    let mut i: usize = 0;
    while i < ops.len()
        invariant
            i <= ops@.len(),
            out@ == head + arms_text(ops_view(ops@).subrange(0, i as int)),
        decreases ops@.len() - i,
    {
        assert(ops_view(ops@).subrange(0, i + 1).drop_last() == ops_view(ops@).subrange(0, i as int));
        let lines = arm_lines(&ops[i]);
        out.append(lines.as_str());
        assert(out@ =~= head + arms_text(ops_view(ops@).subrange(0, i + 1)));
        i = i + 1;
    }
    assert(ops_view(ops@).subrange(0, ops@.len() as int) == ops_view(ops@));
    out.append(
        "            }\n        }\n        Gql::Mutation(_mutation) => {}\n    }\n    Ok(())\n}\npub fn run<T>(query: QueryBody<T>) -> Result<String, anyhow::Error>\nwhere\n    T: Serialize,\n{\n    let client = reqwest::blocking::Client::new();\n    let res = client.post(URL).json(&query).send()?;\n    let response_body: serde_json::Value = res.json()?;\n    println!(\"{}\", response_body);\n    Ok(response_body.to_string())\n}\n",
    );
    out
}

} // verus!
