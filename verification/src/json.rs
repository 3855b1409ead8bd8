//! JSON values, which are stored and handed back unread.

use vstd::prelude::*;

verus! {

/// `serde_json::Value`, of which nothing inside is looked at.
#[verifier::external_type_specification]
#[verifier::external_body]
pub struct ExValue(serde_json::Value);

/// A JSON value.
#[derive(Debug, PartialEq)]
pub struct Json {
    pub value: serde_json::Value,
}

impl DeepView for Json {
    type V = serde_json::Value;

    open spec fn deep_view(&self) -> serde_json::Value {
        self.value
    }
}

/// `Clone` of `serde_json::Value`, which is derived: the same JSON value.
#[verifier::external_body]
fn clone_value(value: &serde_json::Value) -> (copy: serde_json::Value)
    ensures
        copy == *value,
{
    value.clone()
}

impl Json {
    pub fn copy(&self) -> (copy: Json)
        ensures
            copy.deep_view() == self.deep_view(),
    {
        Json { value: clone_value(&self.value) }
    }
}

} // verus!
