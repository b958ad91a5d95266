use vstd::prelude::*;
use crate::error::GenError;
use crate::extract::names_view;
use crate::reshape::{has_colon, object_text_of, tag_entries, vec_to_json_string};

verus! {

/// The binding of the `SearchTagByValue` query.
pub struct SearchTagByValue;

/// The binding of the `CreateDomain` query.
pub struct CreateDomain;

/// The `mutation` command: it takes no argument and performs no action.
pub struct Mutation {}

/// The query commands, one per operation, with their arguments.
pub enum QueryName {
    SearchTagByValue { search: String },
    /// `tags` holds repeated `key:value` arguments.
    CreateDomain { domain: String, tags: Vec<String> },
}

/// The `query` command.
pub struct Query {
    pub name: QueryName,
}

/// The command surface of the client: `query <operation> ...` or `mutation`.
pub enum Gql {
    Query(Query),
    Mutation(Mutation),
}

/// The variables record of a query, every value in string form.
pub enum Variables {
    SearchTagByValue { search: String },
    /// `tags` is the text of a JSON object.
    CreateDomain { domain: String, tags: String },
}

/// Decides what a parsed command line asks for: the variables record of the
/// query to submit, or nothing for a mutation. The `key:value` tags of
/// `CreateDomain` become one JSON object; a tag without `:` is an error.
pub fn dispatch(gql: Gql) -> (r: Result<Option<Variables>, GenError>)
    ensures
        match gql {
            Gql::Mutation(_) => r matches Ok(None),
            Gql::Query(q) => match q.name {
                QueryName::SearchTagByValue { search } => match r {
                    Ok(Some(Variables::SearchTagByValue { search: s })) => s@ == search@,
                    _ => false,
                },
                QueryName::CreateDomain { domain, tags } => match r {
                    Ok(Some(Variables::CreateDomain { domain: d, tags: t })) => d@ == domain@
                        && (forall|k: int| 0 <= k < tags@.len() ==> has_colon(#[trigger] tags@[k]@))
                        && t@ == object_text_of(tag_entries(names_view(tags@))),
                    Err(GenError::MalformedArgument { argument }) => exists|k: int|
                        0 <= k < tags@.len() && !has_colon(tags@[k]@) && argument@ == tags@[k]@
                        && forall|m: int| 0 <= m < k ==> has_colon(#[trigger] tags@[m]@),
                    _ => false,
                },
            },
        },
{
    match gql {
        Gql::Mutation(_) => Ok(None),
        Gql::Query(q) => match q.name {
            QueryName::SearchTagByValue { search } => Ok(Some(Variables::SearchTagByValue { search })),
            QueryName::CreateDomain { domain, tags } => match vec_to_json_string(tags) {
                Ok(t) => Ok(Some(Variables::CreateDomain { domain, tags: t })),
                Err(e) => Err(e),
            },
        },
    }
}

} // verus!
