use vstd::prelude::*;

verus! {

/// `serde_json::Value`, carried through the library unread: the models hold
/// free-form JSON that only the screens look into.
#[verifier::external_type_specification]
#[verifier::external_body]
pub struct ExJsonValue(serde_json::Value);

} // verus!
