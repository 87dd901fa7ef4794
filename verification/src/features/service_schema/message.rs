//! An operation's message as the TypeScript surfaces name it: its type, and the schema it is
//! checked against.
use crate::field_type::{ts_typename, typescript_typename, Recorded};
use crate::service_def::{OperationDef, OperationInputs};
use vstd::prelude::*;

verus! {

/// The message's TypeScript type: the type the operation named, or the one the macro declared for
/// an operation that named none.
pub open spec fn typename_text(operation: OperationDef, recorded: Recorded) -> Seq<char> {
    match operation.inputs {
        OperationInputs::Named(declared) => ts_typename(declared, recorded),
        _ => match operation.generated_message {
            Some(ident) => ident@,
            None => "unknown"@,
        },
    }
}

pub fn typename(operation: &OperationDef, recorded: &Recorded) -> (name: String)
    ensures
        name@ == typename_text(*operation, *recorded),
{
    match &operation.inputs {
        OperationInputs::Named(declared) => typescript_typename(declared, recorded),
        _ => match &operation.generated_message {
            Some(ident) => ident.clone(),
            None => String::from_str("unknown"),
        },
    }
}

/// The schema the message is checked against: the `<Message>$Schema` const its declaration
/// publishes.
pub open spec fn schema_text(operation: OperationDef, recorded: Recorded) -> Seq<char> {
    typename_text(operation, recorded) + "$Schema"@
}

pub fn schema(operation: &OperationDef, recorded: &Recorded) -> (schema: String)
    ensures
        schema@ == schema_text(*operation, *recorded),
{
    let mut schema = typename(operation, recorded);
    schema.append("$Schema");
    schema
}

} // verus!
