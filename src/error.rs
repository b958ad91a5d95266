use vstd::prelude::*;

verus! {

/// The errors of generation and of argument reshaping.
#[derive(Debug)]
pub enum GenError {
    /// The schema or operation document cannot be used as it is: the
    /// operation at this position of the definition list has no name.
    Schema { position: usize },
    /// Two operations share this name, and so a generated identifier.
    DuplicateOperation { name: String },
    /// A repeated `key:value` argument has no `:`.
    MalformedArgument { argument: String },
}

impl GenError {
    /// A one-line description of the error.
    pub fn message(&self) -> (r: String) {
        match self {
            GenError::Schema { .. } => String::from_str("anonymous operation in the operation document"),
            GenError::DuplicateOperation { name } => {
                let mut m = String::from_str("duplicate operation: ");
                m.append(name.as_str());
                m
            },
            GenError::MalformedArgument { argument } => {
                let mut m = String::from_str("argument without ':': ");
                m.append(argument.as_str());
                m
            },
        }
    }
}

} // verus!
