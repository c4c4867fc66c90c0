//! The outside types that the library carries through its logic. Values of
//! these types are opaque to proofs.
use vstd::prelude::*;

verus! {

#[verifier::external_type_specification]
#[verifier::external_body]
pub struct ExDocument(mongodb::bson::Document);

#[verifier::external_type_specification]
#[verifier::external_body]
pub struct ExUpdateDescription(mongodb::change_stream::event::UpdateDescription);

#[verifier::external_type_specification]
#[verifier::external_body]
pub struct ExOperationType(mongodb::change_stream::event::OperationType);

#[verifier::external_type_specification]
#[verifier::external_body]
pub struct ExObjMatcher(serde_json_matcher::ObjMatcher);

#[verifier::external_type_specification]
#[verifier::external_body]
pub struct ExJsonValue(serde_json::Value);

#[verifier::external_type_specification]
#[verifier::external_body]
pub struct ExJsonError(serde_json::Error);

#[verifier::external_type_specification]
#[verifier::external_body]
#[verifier::reject_recursive_types(T)]
pub struct ExUnboundedSender<T>(tokio::sync::mpsc::UnboundedSender<T>);

#[verifier::external_type_specification]
#[verifier::external_body]
#[verifier::reject_recursive_types(T)]
pub struct ExSendError<T>(tokio::sync::mpsc::error::SendError<T>);

} // verus!
