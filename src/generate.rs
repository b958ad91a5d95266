use vstd::prelude::*;
use crate::emit::{arg_schema_text, dispatch_text, emit_arg_schema, emit_dispatch};
use crate::error::GenError;
use crate::extract::{
    extract_operations, extract_scalars, has_duplicate, is_anonymous, named_operations, op_names,
    ops_view, scalars_of, OperationDecl,
};
use crate::model::Definition;

verus! {

/// The two generated files, and the operations they were made from (whose
/// omitted variables the caller may report).
pub struct Generated {
    pub arg_schema: String,
    pub dispatch: String,
    pub operations: Vec<OperationDecl>,
}

/// Whether an operation document can be generated from: no anonymous
/// operation and no two operations of one name.
pub open spec fn generable(ops: Seq<Definition>) -> bool {
    (forall|k: int| 0 <= k < ops.len() ==> !is_anonymous(#[trigger] ops[k]))
        && !has_duplicate(op_names(named_operations(ops)))
}

/// The argument-schema file that a schema and an operation document give.
pub open spec fn arg_schema_file(schema: Seq<Definition>, ops: Seq<Definition>) -> Seq<char> {
    arg_schema_text(scalars_of(schema), named_operations(ops))
}

/// The entry-point file that an operation document and an endpoint give.
pub open spec fn dispatch_file(ops: Seq<Definition>, endpoint: Seq<char>) -> Seq<char> {
    dispatch_text(named_operations(ops), endpoint)
}

/// Generates both files from the schema's definitions, the operation
/// document's definitions and the endpoint that requests go to.
pub fn generate(schema: &Vec<Definition>, ops: &Vec<Definition>, endpoint: &str) -> (r: Result<Generated, GenError>)
    ensures
        r is Ok <==> generable(ops@),
        match r {
            Ok(g) => g.arg_schema@ == arg_schema_file(schema@, ops@)
                && g.dispatch@ == dispatch_file(ops@, endpoint@)
                && ops_view(g.operations@) == named_operations(ops@),
            Err(GenError::Schema { position }) => position < ops@.len()
                && is_anonymous(ops@[position as int])
                && forall|k: int| 0 <= k < position ==> !is_anonymous(#[trigger] ops@[k]),
            Err(GenError::DuplicateOperation { name }) =>
                (forall|k: int| 0 <= k < ops@.len() ==> !is_anonymous(#[trigger] ops@[k]))
                && exists|i: int, j: int| 0 <= i < j < named_operations(ops@).len()
                    && named_operations(ops@)[i].0 == name@ && named_operations(ops@)[j].0 == name@,
            Err(GenError::MalformedArgument { .. }) => false,
        },
{
    let scalars = extract_scalars(schema);
    match extract_operations(ops) {
        Ok(operations) => {
            let arg_schema = emit_arg_schema(&scalars, &operations);
            let dispatch = emit_dispatch(&operations, endpoint);
            Ok(Generated { arg_schema, dispatch, operations })
        },
        Err(e) => {
            proof {
                if let GenError::DuplicateOperation { name } = &e {
                    let (i, j) = choose|i: int, j: int| 0 <= i < j < named_operations(ops@).len()
                        && named_operations(ops@)[i].0 == name@ && named_operations(ops@)[j].0 == name@;
                    let names = op_names(named_operations(ops@));
                    assert(names[i] == names[j]);
                    assert(has_duplicate(names));
                }
            }
            Err(e)
        },
    }
}

} // verus!
