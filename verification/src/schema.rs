//! Comparing the message schemas of the two ends.
use crate::error::IpcRpcError;
use crate::message::InternalMessageKind;
use crate::message::UserMessage;
use crate::status::SchemaValidationStatus;
use vstd::prelude::*;

verus! {

/// Whether `serde_json::from_str` reads `text` as a `schemars::Schema`.
pub uninterp spec fn is_schema_json(text: Seq<char>) -> bool;

/// What `==` says of the two results of reading `a` and `b` as a `schemars::Schema`.
pub uninterp spec fn schema_json_equal(a: Seq<char>, b: Seq<char>) -> bool;

/// Reads a schema with `serde_json::from_str` into a `schemars::Schema`.
///
/// Claimed of it: whether that succeeds depends on the text alone. Which texts succeed is not
/// stated: it would take the grammar of JSON to say.
#[verifier::external_body]
fn reads_as_schema(text: &str) -> (r: bool)
    ensures
        r == is_schema_json(text@),
{
    serde_json::from_str::<schemars::Schema>(text).is_ok()
}

/// Compares two schemas, read from their texts, with the `PartialEq` impl of `schemars::Schema`.
///
/// Claimed of it: the outcome depends on the two texts alone, their order does not matter,
/// a text is equal to itself, and a text that is a schema is equal to none that is not.
#[verifier::external_body]
fn schemas_equal(a: &str, b: &str) -> (r: bool)
    ensures
        r == schema_json_equal(a@, b@),
        r == schema_json_equal(b@, a@),
        a@ == b@ ==> r,
        r ==> is_schema_json(a@) == is_schema_json(b@),
{
    serde_json::from_str::<schemars::Schema>(a).ok()
        == serde_json::from_str::<schemars::Schema>(b).ok()
}

/// How the schema of the peer compares with our own.
#[derive(Debug, Clone, Copy, PartialEq, Eq, Structural)]
pub enum SchemaComparison {
    /// The two schemas are the same.
    Same,
    /// The two schemas differ.
    Different,
    /// What the peer sent is not a schema.
    Unreadable,
}

/// How the schema text `theirs` compares with `ours`.
pub open spec fn schema_comparison(ours: Seq<char>, theirs: Seq<char>) -> SchemaComparison {
    if !is_schema_json(theirs) {
        SchemaComparison::Unreadable
    } else if schema_json_equal(ours, theirs) {
        SchemaComparison::Same
    } else {
        SchemaComparison::Different
    }
}

/// How two schemas compare is decided by reading them, and by nothing else: a text that does not
/// read as a schema is unreadable, two that do are the same exactly where they are equal, and
/// otherwise they differ.
pub proof fn law_schemas_compare_as_they_read(ours: Seq<char>, theirs: Seq<char>)
    ensures
        schema_comparison(ours, theirs) is Unreadable <==> !is_schema_json(theirs),
        schema_comparison(ours, theirs) is Same <==> is_schema_json(theirs) && schema_json_equal(
            ours,
            theirs,
        ),
        schema_comparison(ours, theirs) is Different <==> is_schema_json(theirs)
            && !schema_json_equal(ours, theirs),
{
}

/// A peer is told that the schemas match exactly where they read as equal, and gets our own schema
/// otherwise.
pub proof fn law_a_peer_is_told_whether_schemas_match<U: UserMessage, P>(
    kind: InternalMessageKind<U, P>,
    ours: Seq<char>,
    theirs: Seq<char>,
)
    requires
        is_schema_answer(kind, schema_comparison(ours, theirs), ours),
    ensures
        kind is UserMessageSchemaOk <==> is_schema_json(theirs) && schema_json_equal(ours, theirs),
        kind is UserMessageSchemaOk || (kind matches InternalMessageKind::UserMessageSchemaError {
            other_schema,
        } && other_schema@ == ours),
{
}

/// What an end concludes tells what came back: each conclusion is drawn from one kind of reply and
/// from no other.
pub proof fn law_a_conclusion_tells_the_reply<U: UserMessage, P>(
    status: Option<SchemaValidationStatus>,
    reply: Result<InternalMessageKind<U, P>, IpcRpcError>,
    ours: Seq<char>,
)
    requires
        is_validation_outcome(status, reply, ours),
    ensures
        status == Some(SchemaValidationStatus::SchemasMatched) <==> (reply matches Ok(kind)
            && kind is UserMessageSchemaOk),
        status matches Some(SchemaValidationStatus::SchemaMismatch { our_schema, their_schema })
            ==> {
            &&& our_schema@ == ours
            &&& reply matches Ok(kind)
            &&& kind matches InternalMessageKind::UserMessageSchemaError { other_schema }
            &&& other_schema == their_schema
        },
        reply matches Ok(kind) ==> (kind is UserMessageSchemaError ==> status is Some && status->0
            is SchemaMismatch),
        status == Some(SchemaValidationStatus::ValidationNotPerformedProperly) <==> (reply matches Ok(
            kind,
        ) && !(kind is UserMessageSchemaOk) && !(kind is UserMessageSchemaError)),
        status matches Some(SchemaValidationStatus::ValidationCommunicationFailed(e)) ==> reply
            == Err::<InternalMessageKind<U, P>, IpcRpcError>(e) && !(e is ConnectionDropped),
        reply matches Err(e) ==> (if e is ConnectionDropped {
            status is None
        } else {
            status == Some(SchemaValidationStatus::ValidationCommunicationFailed(e))
        }),
        status is None <==> (reply matches Err(e) && e is ConnectionDropped),
        status != Some(SchemaValidationStatus::ValidationDisabledAtCompileTime),
{
}

/// Compares the schema text of the peer with our own.
pub fn compare_schemas(ours: &str, theirs: &str) -> (r: SchemaComparison)
    ensures
        r == schema_comparison(ours@, theirs@),
        (r is Unreadable) == !is_schema_json(theirs@),
        (r is Same) == (is_schema_json(theirs@) && schema_json_equal(ours@, theirs@)),
        (r is Different) == (is_schema_json(theirs@) && !schema_json_equal(ours@, theirs@)),
        // the same text is the same schema
        ours@ == theirs@ && is_schema_json(theirs@) ==> r is Same,
        // two ends that compare their schemas with each other agree on whether they match
        (r is Same) == (schema_comparison(theirs@, ours@) is Same),
{
    let equal = schemas_equal(ours, theirs);
    if !reads_as_schema(theirs) {
        SchemaComparison::Unreadable
    } else if equal {
        SchemaComparison::Same
    } else {
        SchemaComparison::Different
    }
}

/// Whether `kind` is the right answer to a peer whose schema compared as `comparison` with our
/// own schema `ours`.
pub open spec fn is_schema_answer<U: UserMessage, P>(
    kind: InternalMessageKind<U, P>,
    comparison: SchemaComparison,
    ours: Seq<char>,
) -> bool {
    match comparison {
        SchemaComparison::Same => kind is UserMessageSchemaOk,
        _ => kind matches InternalMessageKind::UserMessageSchemaError { other_schema }
            && other_schema@ == ours,
    }
}

/// The answer to a peer whose schema compared as `comparison` with our own schema `ours`. Unless
/// the schemas are the same, the answer brings our own.
pub fn schema_answer<U: UserMessage, P>(
    comparison: SchemaComparison,
    ours: &str,
) -> (r: InternalMessageKind<U, P>)
    ensures
        is_schema_answer(r, comparison, ours@),
        r is UserMessageSchemaOk <==> comparison is Same,
        !(comparison is Same) ==> (r matches InternalMessageKind::UserMessageSchemaError {
            other_schema,
        } && other_schema@ == ours@),
{
    match comparison {
        SchemaComparison::Same => InternalMessageKind::UserMessageSchemaOk,
        _ => InternalMessageKind::UserMessageSchemaError { other_schema: ours.to_owned() },
    }
}

/// Answers a peer who asks whether its schema `theirs` matches our own.
pub fn answer_schema_check<U: UserMessage, P>(ours: &str, theirs: &str) -> (r: InternalMessageKind<
    U,
    P,
>)
    ensures
        is_schema_answer(r, schema_comparison(ours@, theirs@), ours@),
        ours@ == theirs@ && is_schema_json(theirs@) ==> r is UserMessageSchemaOk,
        r is UserMessageSchemaOk <==> is_schema_json(theirs@) && schema_json_equal(ours@, theirs@),
        !(r is UserMessageSchemaOk) ==> (r matches InternalMessageKind::UserMessageSchemaError {
            other_schema,
        } && other_schema@ == ours@),
{
    schema_answer(compare_schemas(ours, theirs), ours)
}

/// Whether `status` is what an end concludes from the `reply` to its schema `ours`. `None` means
/// that nothing is concluded, because the connection was dropped before.
pub open spec fn is_validation_outcome<U: UserMessage, P>(
    status: Option<SchemaValidationStatus>,
    reply: Result<InternalMessageKind<U, P>, IpcRpcError>,
    ours: Seq<char>,
) -> bool {
    match reply {
        Ok(InternalMessageKind::UserMessageSchemaOk) => status == Some(
            SchemaValidationStatus::SchemasMatched,
        ),
        Ok(InternalMessageKind::UserMessageSchemaError { other_schema }) => status matches Some(
            SchemaValidationStatus::SchemaMismatch { our_schema, their_schema },
        ) && our_schema@ == ours && their_schema == other_schema,
        Ok(_) => status == Some(SchemaValidationStatus::ValidationNotPerformedProperly),
        Err(IpcRpcError::ConnectionDropped) => status is None,
        Err(e) => status == Some(SchemaValidationStatus::ValidationCommunicationFailed(e)),
    }
}

/// Concludes from the reply to our own schema `ours` how the validation went.
pub fn validation_outcome<U: UserMessage, P>(
    reply: Result<InternalMessageKind<U, P>, IpcRpcError>,
    ours: &str,
) -> (r: Option<SchemaValidationStatus>)
    ensures
        is_validation_outcome(r, reply, ours@),
        r == Some(SchemaValidationStatus::SchemasMatched) <==> (reply matches Ok(kind)
            && kind is UserMessageSchemaOk),
        r is None <==> (reply matches Err(e) && e is ConnectionDropped),
{
    match reply {
        Ok(InternalMessageKind::UserMessageSchemaOk) => Some(
            SchemaValidationStatus::SchemasMatched,
        ),
        Ok(InternalMessageKind::UserMessageSchemaError { other_schema }) => Some(
            SchemaValidationStatus::SchemaMismatch {
                our_schema: ours.to_owned(),
                their_schema: other_schema,
            },
        ),
        Ok(_) => Some(SchemaValidationStatus::ValidationNotPerformedProperly),
        Err(IpcRpcError::ConnectionDropped) => None,
        Err(e) => Some(SchemaValidationStatus::ValidationCommunicationFailed(e)),
    }
}

} // verus!
