use vstd::prelude::*;
use crate::extract::{kept_vars, omitted_vars};
use crate::generate::{arg_schema_file, dispatch_file};
use crate::mapping::{alias_of, is_list_type, target_of, ScalarAlias};
use crate::model::{Definition, VariableDef};

verus! {

/// The positions, in declaration order, of the variables that become arguments.
pub open spec fn kept_positions(vars: Seq<VariableDef>) -> Seq<int>
    decreases vars.len(),
{
    if vars.len() == 0 {
        seq![]
    } else {
        let rest = kept_positions(vars.drop_last());
        if target_of(vars.last().ty) is Some {
            rest.push(vars.len() - 1)
        } else {
            rest
        }
    }
}

proof fn lemma_kept_positions(vars: Seq<VariableDef>)
    ensures
        kept_positions(vars).len() == kept_vars(vars).len(),
        forall|k: int| 0 <= k < kept_positions(vars).len() ==> {
            let p = #[trigger] kept_positions(vars)[k];
            0 <= p < vars.len() && target_of(vars[p].ty) is Some
                && kept_vars(vars)[k] == (vars[p].name@, target_of(vars[p].ty)->0)
        },
        forall|a: int, b: int| 0 <= a < b < kept_positions(vars).len()
            ==> kept_positions(vars)[a] < kept_positions(vars)[b],
        forall|j: int| 0 <= j < vars.len() && target_of(#[trigger] vars[j].ty) is Some
            ==> kept_positions(vars).contains(j),
    decreases vars.len(),
{
    if vars.len() > 0 {
        let init = vars.drop_last();
        lemma_kept_positions(init);
        assert(forall|j: int| 0 <= j < init.len() ==> #[trigger] init[j] == vars[j]);
        let rest = kept_positions(init);
        if target_of(vars.last().ty) is Some {
            assert(kept_positions(vars) == rest.push(vars.len() - 1));
            assert forall|j: int| 0 <= j < vars.len() && target_of(#[trigger] vars[j].ty) is Some
                implies kept_positions(vars).contains(j) by {
                if j < vars.len() - 1 {
                    assert(init[j] == vars[j]);
                    let k = choose|k: int| 0 <= k < rest.len() && rest[k] == j;
                    assert(kept_positions(vars)[k] == j);
                } else {
                    assert(kept_positions(vars)[rest.len() as int] == j);
                }
            }
        } else {
            assert forall|j: int| 0 <= j < vars.len() && target_of(#[trigger] vars[j].ty) is Some
                implies kept_positions(vars).contains(j) by {
                assert(j < vars.len() - 1);
                assert(init[j] == vars[j]);
            }
        }
    }
}

/// A generated command's arguments are the operation's variables that have a
/// target type, in the order in which the operation declares them: the k-th
/// argument is the variable at the k-th kept position, and the kept positions
/// increase.
pub proof fn lemma_arguments_keep_declaration_order(vars: Seq<VariableDef>)
    ensures
        kept_positions(vars).len() == kept_vars(vars).len(),
        forall|k: int| 0 <= k < kept_vars(vars).len() ==> {
            let p = #[trigger] kept_positions(vars)[k];
            0 <= p < vars.len() && kept_vars(vars)[k] == (vars[p].name@, target_of(vars[p].ty)->0)
        },
        forall|a: int, b: int| 0 <= a < b < kept_vars(vars).len()
            ==> kept_positions(vars)[a] < kept_positions(vars)[b],
{
    lemma_kept_positions(vars);
}

/// A variable of list type, nullable or not, never becomes an argument of
/// its command: the arguments of an operation's command are `kept_vars` of
/// its variables, and none of them comes from the list variable's position.
pub proof fn lemma_list_variable_never_an_argument(vars: Seq<VariableDef>, j: int)
    requires
        0 <= j < vars.len(),
        is_list_type(vars[j].ty),
    ensures
        !kept_positions(vars).contains(j),
        forall|k: int| 0 <= k < kept_vars(vars).len() ==> #[trigger] kept_positions(vars)[k] != j,
{
    lemma_kept_positions(vars);
    if kept_positions(vars).contains(j) {
        let k = choose|k: int| 0 <= k < kept_positions(vars).len() && kept_positions(vars)[k] == j;
        assert(target_of(vars[j].ty) is Some);
    }
}

/// A scalar named `JSON` is aliased to a list of strings, and a scalar of
/// any other name to a string.
pub proof fn lemma_scalar_aliases(name: Seq<char>)
    ensures
        name == "JSON"@ ==> alias_of(name) == ScalarAlias::StringList,
        name != "JSON"@ ==> alias_of(name) == ScalarAlias::Str,
{
}

/// Generation is a function of its inputs: two runs on the same schema,
/// operation document and endpoint give the same files.
pub proof fn lemma_generation_is_repeatable(
    schema1: Seq<Definition>,
    ops1: Seq<Definition>,
    endpoint1: Seq<char>,
    schema2: Seq<Definition>,
    ops2: Seq<Definition>,
    endpoint2: Seq<char>,
)
    requires
        schema1 == schema2,
        ops1 == ops2,
        endpoint1 == endpoint2,
    ensures
        arg_schema_file(schema1, ops1) == arg_schema_file(schema2, ops2),
        dispatch_file(ops1, endpoint1) == dispatch_file(ops2, endpoint2),
{
}

} // verus!
