//! Declaration of the JSON value type that payloads are carried in.
//!
//! The envelope hands each payload on as a raw JSON subtree; entity
//! decoders give it shape. The core never looks inside one, so the type
//! is declared opaque.

use vstd::prelude::*;

verus! {

/// Relies on serde_json::Value: the tree type that JSON documents
/// decode to. The core only stores and moves such values.
#[verifier::external_type_specification]
#[verifier::external_body]
pub struct ExValue(serde_json::Value);

} // verus!
