use vstd::prelude::*;
use crate::error::GenError;
use crate::mapping::{map_scalar, map_variable_type, same_text, target_of, alias_of, ScalarAlias, TargetType};
use crate::model::{Definition, VariableDef};

verus! {

/// A variable that the generated command takes as an argument.
pub struct VariableDecl {
    pub name: String,
    pub ty: TargetType,
}

/// An operation as the emitters see it: its name, the variables that have a
/// target type in declaration order, and the names of those that have none.
pub struct OperationDecl {
    pub name: String,
    pub variables: Vec<VariableDecl>,
    pub omitted: Vec<String>,
}

/// A custom scalar of the schema with the alias it is given.
pub struct ScalarDecl {
    pub name: String,
    pub alias: ScalarAlias,
}

/// The view of a list of variables: each name with its target type.
pub open spec fn vars_view(vs: Seq<VariableDecl>) -> Seq<(Seq<char>, TargetType)> {
    vs.map_values(|v: VariableDecl| (v.name@, v.ty))
}

/// The view of a list of strings.
pub open spec fn names_view(vs: Seq<String>) -> Seq<Seq<char>> {
    vs.map_values(|s: String| s@)
}

/// The variables with a target type, paired with it, in declaration order.
pub open spec fn kept_vars(vars: Seq<VariableDef>) -> Seq<(Seq<char>, TargetType)>
    decreases vars.len(),
{
    if vars.len() == 0 {
        seq![]
    } else {
        let rest = kept_vars(vars.drop_last());
        match target_of(vars.last().ty) {
            Some(t) => rest.push((vars.last().name@, t)),
            None => rest,
        }
    }
}

/// The names of the variables without a target type, in declaration order.
pub open spec fn omitted_vars(vars: Seq<VariableDef>) -> Seq<Seq<char>>
    decreases vars.len(),
{
    if vars.len() == 0 {
        seq![]
    } else {
        let rest = omitted_vars(vars.drop_last());
        match target_of(vars.last().ty) {
            Some(_) => rest,
            None => rest.push(vars.last().name@),
        }
    }
}

/// What an extracted operation holds: name, kept variables, omitted names.
pub type OpView = (Seq<char>, Seq<(Seq<char>, TargetType)>, Seq<Seq<char>>);

pub open spec fn op_view(d: OperationDecl) -> OpView {
    (d.name@, vars_view(d.variables@), names_view(d.omitted@))
}

/// The view of a list of operations.
pub open spec fn ops_view(os: Seq<OperationDecl>) -> Seq<OpView> {
    os.map_values(|o: OperationDecl| op_view(o))
}

/// The view of a list of scalars: each name with its alias.
pub open spec fn scalars_view(ss: Seq<ScalarDecl>) -> Seq<(Seq<char>, ScalarAlias)> {
    ss.map_values(|s: ScalarDecl| (s.name@, s.alias))
}

/// The operation that a named operation definition gives.
pub open spec fn op_model(name: Seq<char>, vars: Seq<VariableDef>) -> OpView {
    (name, kept_vars(vars), omitted_vars(vars))
}

/// The operations of a definition list in order, anonymous ones left out.
pub open spec fn named_operations(defs: Seq<Definition>) -> Seq<OpView>
    decreases defs.len(),
{
    if defs.len() == 0 {
        seq![]
    } else {
        let rest = named_operations(defs.drop_last());
        match defs.last() {
            Definition::Operation { name: Some(n), variables } => rest.push(op_model(n@, variables@)),
            _ => rest,
        }
    }
}

/// Whether the definition is an operation without a name.
pub open spec fn is_anonymous(d: Definition) -> bool {
    d matches Definition::Operation { name: None, .. }
}

/// The custom scalars of a definition list in order, with their aliases.
pub open spec fn scalars_of(defs: Seq<Definition>) -> Seq<(Seq<char>, ScalarAlias)>
    decreases defs.len(),
{
    if defs.len() == 0 {
        seq![]
    } else {
        let rest = scalars_of(defs.drop_last());
        match defs.last() {
            Definition::Scalar { name } => rest.push((name@, alias_of(name@))),
            _ => rest,
        }
    }
}

/// The names of a list of operations.
pub open spec fn op_names(os: Seq<OpView>) -> Seq<Seq<char>> {
    os.map_values(|o: OpView| o.0)
}

/// Whether some name occurs twice.
pub open spec fn has_duplicate(names: Seq<Seq<char>>) -> bool {
    exists|i: int, j: int| 0 <= i < j < names.len() && names[i] == names[j]
}

/// Collects the custom scalars of the schema, each with its alias, in order.
pub fn extract_scalars(defs: &Vec<Definition>) -> (r: Vec<ScalarDecl>)
    ensures
        scalars_view(r@) == scalars_of(defs@),
{
    let mut out: Vec<ScalarDecl> = Vec::new();
    let mut i: usize = 0;
    while i < defs.len()
        invariant
            i <= defs@.len(),
            scalars_view(out@) == scalars_of(defs@.subrange(0, i as int)),
        decreases defs@.len() - i,
    {
        assert(defs@.subrange(0, i + 1).drop_last() == defs@.subrange(0, i as int));
        if let Definition::Scalar { name } = &defs[i] {
            let alias = map_scalar(name.as_str());
            out.push(ScalarDecl { name: name.clone(), alias });
        }
        assert(scalars_view(out@) =~= scalars_of(defs@.subrange(0, i + 1)));
        i = i + 1;
    }
    assert(defs@.subrange(0, defs@.len() as int) == defs@);
    out
}

/// Resolves the variables of one operation: those with a target type in
/// declaration order, and the names of the others.
pub fn extract_operation(name: &String, vars: &Vec<VariableDef>) -> (r: OperationDecl)
    ensures
        op_view(r) == op_model(name@, vars@),
{
    let mut kept: Vec<VariableDecl> = Vec::new();
    let mut omitted: Vec<String> = Vec::new();
    let mut i: usize = 0;
    while i < vars.len()
        invariant
            i <= vars@.len(),
            vars_view(kept@) == kept_vars(vars@.subrange(0, i as int)),
            names_view(omitted@) == omitted_vars(vars@.subrange(0, i as int)),
        decreases vars@.len() - i,
    {
        assert(vars@.subrange(0, i + 1).drop_last() == vars@.subrange(0, i as int));
        let v = &vars[i];
        match map_variable_type(&v.ty) {
            Some(t) => kept.push(VariableDecl { name: v.name.clone(), ty: t }),
            None => omitted.push(v.name.clone()),
        }
        assert(vars_view(kept@) =~= kept_vars(vars@.subrange(0, i + 1)));
        assert(names_view(omitted@) =~= omitted_vars(vars@.subrange(0, i + 1)));
        i = i + 1;
    }
    assert(vars@.subrange(0, vars@.len() as int) == vars@);
    OperationDecl { name: name.clone(), variables: kept, omitted }
}

/// The position of the first anonymous operation, if there is one.
pub fn find_anonymous(defs: &Vec<Definition>) -> (r: Option<usize>)
    ensures
        match r {
            Some(p) => p < defs@.len() && is_anonymous(defs@[p as int])
                && forall|k: int| 0 <= k < p ==> !is_anonymous(#[trigger] defs@[k]),
            None => forall|k: int| 0 <= k < defs@.len() ==> !is_anonymous(#[trigger] defs@[k]),
        },
{
    let mut i: usize = 0;
    while i < defs.len()
        invariant
            i <= defs@.len(),
            forall|k: int| 0 <= k < i ==> !is_anonymous(#[trigger] defs@[k]),
        decreases defs@.len() - i,
    {
        if let Definition::Operation { name: None, .. } = &defs[i] {
            return Some(i);
        }
        i = i + 1;
    }
    None
}

/// Finds a name that occurs twice among the operations, if any.
pub fn find_duplicate(ops: &Vec<OperationDecl>) -> (r: Option<usize>)
    ensures
        match r {
            Some(j) => j < ops@.len() && exists|i: int| 0 <= i < j && ops@[i].name@ == ops@[j as int].name@,
            None => !has_duplicate(op_names(ops_view(ops@))),
        },
{
    let ghost names = op_names(ops_view(ops@));
    let mut j: usize = 0;
    while j < ops.len()
        invariant
            j <= ops@.len(),
            names == op_names(ops_view(ops@)),
            forall|a: int, b: int| 0 <= a < b < j ==> names[a] != names[b],
        decreases ops@.len() - j,
    {
        let mut i: usize = 0;
        while i < j
            invariant
                i <= j < ops@.len(),
                names == op_names(ops_view(ops@)),
                forall|a: int| 0 <= a < i ==> names[a] != names[j as int],
            decreases j - i,
        {
            if same_text(ops[i].name.as_str(), ops[j].name.as_str()) {
                return Some(j);
            }
            i = i + 1;
        }
        j = j + 1;
    }
    None
}

/// Extracts the operations of a definition list in order. An anonymous
/// operation is rejected with a schema error at its position; two
/// operations of one name are rejected as duplicates.
pub fn extract_operations(defs: &Vec<Definition>) -> (r: Result<Vec<OperationDecl>, GenError>)
    ensures
        match r {
            Ok(ops) => (forall|k: int| 0 <= k < defs@.len() ==> !is_anonymous(#[trigger] defs@[k]))
                && ops_view(ops@) == named_operations(defs@)
                && !has_duplicate(op_names(named_operations(defs@))),
            Err(GenError::Schema { position }) => position < defs@.len()
                && is_anonymous(defs@[position as int])
                && forall|k: int| 0 <= k < position ==> !is_anonymous(#[trigger] defs@[k]),
            Err(GenError::DuplicateOperation { name }) =>
                (forall|k: int| 0 <= k < defs@.len() ==> !is_anonymous(#[trigger] defs@[k]))
                && exists|i: int, j: int| 0 <= i < j < named_operations(defs@).len()
                    && named_operations(defs@)[i].0 == name@ && named_operations(defs@)[j].0 == name@,
            Err(GenError::MalformedArgument { .. }) => false,
        },
{
    if let Some(p) = find_anonymous(defs) {
        return Err(GenError::Schema { position: p });
    }
    let mut out: Vec<OperationDecl> = Vec::new();
    let mut i: usize = 0;
    while i < defs.len()
        invariant
            i <= defs@.len(),
            ops_view(out@) == named_operations(defs@.subrange(0, i as int)),
        decreases defs@.len() - i,
    {
        assert(defs@.subrange(0, i + 1).drop_last() == defs@.subrange(0, i as int));
        if let Definition::Operation { name: Some(n), variables } = &defs[i] {
            let d = extract_operation(n, variables);
            out.push(d);
        }
        assert(ops_view(out@) =~= named_operations(defs@.subrange(0, i + 1)));
        i = i + 1;
    }
    assert(defs@.subrange(0, defs@.len() as int) == defs@);
    match find_duplicate(&out) {
        Some(j) => {
            let ghost model = ops_view(out@);
            assert(model[j as int].0 == out@[j as int].name@);
            let ghost i = choose|i: int| 0 <= i < j && out@[i].name@ == out@[j as int].name@;
            assert(model[i].0 == out@[i].name@);
            Err(GenError::DuplicateOperation { name: out[j].name.clone() })
        },
        None => Ok(out),
    }
}

} // verus!
