//! What a handle knows of its session: how the connection stands, and how the validation of the
//! message schemas went.
//!
//! Both are published by background tasks. A task that is gone publishes nothing any more, and
//! whoever still waits for it learns that the connection was dropped.
use crate::error::IpcRpcError;
use crate::key::is_random_uuid;
use crate::message::InternalMessageKind;
use crate::message::OutgoingRequest;
use crate::message::SendStep;
use crate::message::UserMessage;
use crate::message::DEFAULT_REPLY_TIMEOUT;
use crate::schema::is_validation_outcome;
use crate::schema::validation_outcome;
use crate::status::ConnectionStatus;
use crate::status::SchemaValidationStatus;
use vstd::prelude::*;
use vstd::string::StringExecFns;

verus! {

/// What a handle knows of its session.
#[verifier::ext_equal]
pub struct SessionState {
    /// How the connection stands.
    pub status: ConnectionStatus,
    /// Whether the task that publishes the status is still there.
    pub status_open: bool,
    /// How the validation of the schemas went, once that is known.
    pub validation: Option<SchemaValidationStatus>,
    /// Whether the task that publishes the outcome of the validation is still there.
    pub validation_open: bool,
    /// The schema of our own messages, unless schemas are not validated.
    pub our_schema: Option<Seq<char>>,
    /// What the lines that this end logs begin with.
    pub log_prefix: Seq<char>,
}

impl SessionState {
    /// The last thing that each task publishes ends it: nothing follows the end of the session, nor
    /// the outcome of the validation.
    pub open spec fn wf(self) -> bool {
        &&& self.status.session_end() is Some ==> !self.status_open
        &&& self.validation is Some ==> !self.validation_open
    }

    /// The state of a session that has just begun, with the given status.
    pub open spec fn initial(
        status: ConnectionStatus,
        our_schema: Option<Seq<char>>,
        log_prefix: Seq<char>,
    ) -> Self {
        SessionState {
            status,
            status_open: true,
            validation: None,
            validation_open: true,
            our_schema,
            log_prefix,
        }
    }

    /// What someone gets who waits for the end of the session, or `None` as long as there is
    /// nothing but to wait.
    pub open spec fn end(self) -> Option<Result<(), IpcRpcError>> {
        match self.status.session_end() {
            Some(result) => Some(result),
            None => if self.status_open {
                None
            } else {
                Some(Err(IpcRpcError::ConnectionDropped))
            },
        }
    }

    /// What someone gets who waits for the peer to connect, or `None` as long as there is
    /// nothing but to wait.
    pub open spec fn connection(self) -> Option<Result<(), IpcRpcError>> {
        if self.status is Connected {
            Some(Ok(()))
        } else {
            self.end()
        }
    }

    /// What someone gets who waits for the outcome of the validation, or `None` as long as there
    /// is nothing but to wait.
    pub open spec fn schema_outcome(self) -> Option<Result<SchemaValidationStatus, IpcRpcError>> {
        if self.our_schema is None {
            Some(Ok(SchemaValidationStatus::ValidationDisabledAtCompileTime))
        } else {
            match self.validation {
                Some(status) => Some(Ok(status)),
                None => if self.validation_open {
                    None
                } else {
                    Some(Err(IpcRpcError::ConnectionDropped))
                },
            }
        }
    }

    /// The state once `status` was published, if someone is there to publish it, as the last
    /// thing where it ends the session.
    pub open spec fn with_status(self, status: ConnectionStatus) -> Self {
        if self.status_open {
            SessionState { status, status_open: status.session_end() is None, ..self }
        } else {
            self
        }
    }

    /// The state once the task that publishes the status is gone.
    pub open spec fn without_status_sender(self) -> Self {
        SessionState { status_open: false, ..self }
    }

    /// The state once the task that publishes the outcome of the validation is gone.
    pub open spec fn without_validation_sender(self) -> Self {
        SessionState { validation_open: false, ..self }
    }

    /// The state once `outcome` was concluded by the task that publishes the outcome of the
    /// validation, if it is there, and that task is done.
    pub open spec fn with_validation(self, outcome: Option<SchemaValidationStatus>) -> Self {
        if self.validation_open {
            SessionState { validation: outcome, validation_open: false, ..self }
        } else {
            self
        }
    }
}

/// What the lines logged by the process `process` begin with, where `process` is the file name
/// under which it was started, if that is known.
pub open spec fn log_prefix(is_server: bool, process: Option<&str>) -> Seq<char> {
    let name = match process {
        Some(name) => name@,
        None => "Unknown"@,
    };
    name + if is_server {
        " as Server: "@
    } else {
        " as Client: "@
    }
}

/// What a line begins with: the name of the process, or a stand-in where it has none, and then the
/// role of the end.
pub proof fn law_a_line_begins_with_process_and_role(name: &str)
    ensures
        log_prefix(true, Some(name)) == name@ + " as Server: "@,
        log_prefix(false, Some(name)) == name@ + " as Client: "@,
        log_prefix(true, None) == "Unknown"@ + " as Server: "@,
        log_prefix(false, None) == "Unknown"@ + " as Client: "@,
{
}

/// Tells what the lines begin with that the process `process` logs.
pub fn get_log_prefix(is_server: bool, process: Option<&str>) -> (r: String)
    ensures
        r@ == log_prefix(is_server, process),
{
    let name = match process {
        Some(name) => name,
        None => "Unknown",
    };
    let role = if is_server {
        " as Server: "
    } else {
        " as Client: "
    };
    name.to_owned().concat(role)
}

/// What a handle knows of its session.
#[derive(Debug)]
pub struct Session {
    status: ConnectionStatus,
    status_open: bool,
    validation: Option<SchemaValidationStatus>,
    validation_open: bool,
    our_schema: Option<String>,
    log_prefix: String,
}

impl View for Session {
    type V = SessionState;

    closed spec fn view(&self) -> SessionState {
        SessionState {
            status: self.status,
            status_open: self.status_open,
            validation: self.validation,
            validation_open: self.validation_open,
            our_schema: schema_view(self.our_schema),
            log_prefix: self.log_prefix@,
        }
    }
}

/// The text of a schema, if there is one.
pub open spec fn schema_view(schema: Option<String>) -> Option<Seq<char>> {
    match schema {
        Some(schema) => Some(schema@),
        None => None,
    }
}

/// A schema is looked at as its text, and where there is none there is no text.
pub proof fn law_a_schema_is_its_text(schema: String)
    ensures
        schema_view(Some(schema)) == Some(schema@),
        schema_view(None) is None,
{
}

impl Session {
    /// A session that has just begun.
    pub fn new(status: ConnectionStatus, our_schema: Option<String>, log_prefix: String) -> (r: Self)
        requires
            status.session_end() is None,
        ensures
            r@ == SessionState::initial(status, schema_view(our_schema), log_prefix@),
            r@.wf(),
    {
        Session {
            status,
            status_open: true,
            validation: None,
            validation_open: true,
            our_schema,
            log_prefix,
        }
    }

    /// The status last published.
    pub fn status(&self) -> (r: &ConnectionStatus)
        ensures
            *r == self@.status,
    {
        &self.status
    }

    /// The schema of our own messages, unless schemas are not validated.
    pub fn our_schema(&self) -> (r: Option<&str>)
        ensures
            match r {
                Some(schema) => self@.our_schema == Some(schema@),
                None => self@.our_schema is None,
            },
    {
        match &self.our_schema {
            Some(schema) => Some(schema.as_str()),
            None => None,
        }
    }

    /// What the lines that this end logs begin with.
    pub fn log_prefix(&self) -> (r: &str)
        ensures
            r@ == self@.log_prefix,
    {
        self.log_prefix.as_str()
    }

    /// What someone gets who waits for the end of the session, or `None` as long as there is
    /// nothing but to wait.
    pub fn end(&self) -> (r: Option<Result<(), IpcRpcError>>)
        ensures
            r == self@.end(),
    {
        match self.status.session_end_result() {
            Some(result) => Some(result),
            None => if self.status_open {
                None
            } else {
                Some(Err(IpcRpcError::ConnectionDropped))
            },
        }
    }

    /// What someone gets who waits for the outcome of the validation, or `None` as long as there
    /// is nothing but to wait.
    pub fn schema_validated(&self) -> (r: Option<Result<SchemaValidationStatus, IpcRpcError>>)
        ensures
            r == self@.schema_outcome(),
    {
        if self.our_schema.is_none() {
            return Some(Ok(SchemaValidationStatus::ValidationDisabledAtCompileTime));
        }
        match &self.validation {
            Some(status) => Some(Ok(status.clone())),
            None => if self.validation_open {
                None
            } else {
                Some(Err(IpcRpcError::ConnectionDropped))
            },
        }
    }

    /// Publishes a status, as the last one where it ends the session.
    pub fn publish_status(&mut self, status: ConnectionStatus)
        requires
            old(self)@.wf(),
        ensures
            final(self)@ == old(self)@.with_status(status),
            final(self)@.wf(),
    {
        if self.status_open {
            self.status_open = status.session_end_result().is_none();
            self.status = status;
        }
    }

    /// Takes note that the task that publishes the status is gone.
    pub fn status_sender_gone(&mut self)
        requires
            old(self)@.wf(),
        ensures
            final(self)@ == old(self)@.without_status_sender(),
            final(self)@.wf(),
    {
        self.status_open = false;
    }

    /// Takes note that the task that publishes the outcome of the validation is gone.
    pub fn validation_sender_gone(&mut self)
        requires
            old(self)@.wf(),
        ensures
            final(self)@ == old(self)@.without_validation_sender(),
            final(self)@.wf(),
    {
        self.validation_open = false;
    }

    /// Concludes the validation from the reply to our own schema.
    pub fn conclude_validation<U: UserMessage, P>(
        &mut self,
        reply: Result<InternalMessageKind<U, P>, IpcRpcError>,
    )
        requires
            old(self)@.wf(),
            old(self)@.our_schema is Some,
        ensures
            final(self)@ == old(self)@.with_validation(final(self)@.validation),
            old(self)@.validation_open ==> is_validation_outcome(
                final(self)@.validation,
                reply,
                old(self)@.our_schema->0,
            ),
            final(self)@.wf(),
    {
        let outcome = match &self.our_schema {
            Some(ours) => validation_outcome(reply, ours.as_str()),
            None => vstd::pervasive::unreached(),
        };
        if self.validation_open {
            self.validation = outcome;
            self.validation_open = false;
        }
    }

    /// The request by which this end has its schema checked, made at `now`, unless schemas are
    /// not validated.
    fn schema_check<U: UserMessage, P>(&self, now: u128) -> (r: Option<OutgoingRequest<U, P>>)
        requires
            now + DEFAULT_REPLY_TIMEOUT <= u128::MAX,
        ensures
            is_schema_check(r, self@.our_schema, now),
    {
        match &self.our_schema {
            Some(ours) => Some(
                OutgoingRequest::internal_send(
                    InternalMessageKind::UserMessageSchema(ours.clone()),
                    DEFAULT_REPLY_TIMEOUT,
                    now,
                ),
            ),
            None => None,
        }
    }
}

impl Session {
    /// What is to be done, in this order, to have the schema of this end checked, and to get the
    /// reply into `drop_box`. Nothing, where schemas are not validated.
    pub(crate) fn schema_check_steps<U: UserMessage, P, D>(&self, drop_box: D, now: u128) -> (r: Vec<
        SendStep<U, P, D>,
    >)
        requires
            now + DEFAULT_REPLY_TIMEOUT <= u128::MAX,
        ensures
            are_schema_check_steps(r@, self@.our_schema, drop_box, now),
    {
        match self.schema_check(now) {
            Some(request) => request.steps(drop_box),
            None => Vec::new(),
        }
    }
}

/// A copy knows what the session was like when it was made. What happens later is to be reported
/// to it as well.
impl Clone for Session {
    fn clone(&self) -> (r: Self)
        ensures
            r@ == self@,
    {
        Session {
            status: self.status.clone(),
            status_open: self.status_open,
            validation: match &self.validation {
                Some(status) => Some(status.clone()),
                None => None,
            },
            validation_open: self.validation_open,
            our_schema: match &self.our_schema {
                Some(schema) => Some(schema.clone()),
                None => None,
            },
            log_prefix: self.log_prefix.clone(),
        }
    }
}

/// Whether `steps` have the schema of an end checked, as a request made at `now` whose reply goes
/// into `drop_box`. There are none where schemas are not validated.
pub open spec fn are_schema_check_steps<U: UserMessage, P, D>(
    steps: Seq<SendStep<U, P, D>>,
    our_schema: Option<Seq<char>>,
    drop_box: D,
    now: u128,
) -> bool {
    match our_schema {
        Some(_) => {
            &&& steps.len() == 2
            &&& steps[0] matches SendStep::Register(entry)
            &&& steps[1] matches SendStep::Transmit(message)
            &&& is_schema_check(
                Some(OutgoingRequest { message, deadline: entry.reply.deadline }),
                our_schema,
                now,
            )
            &&& steps == (OutgoingRequest { message, deadline: entry.reply.deadline }).spec_steps(
                drop_box,
            )
        },
        None => steps.len() == 0,
    }
}

/// Whether `request` is the one by which an end has its schema checked, made at `now`: it
/// brings the schema, and its reply is awaited for the default time. There is none where
/// schemas are not validated.
pub open spec fn is_schema_check<U: UserMessage, P>(
    request: Option<OutgoingRequest<U, P>>,
    our_schema: Option<Seq<char>>,
    now: u128,
) -> bool {
    match our_schema {
        Some(ours) => {
            &&& request matches Some(request)
            &&& is_random_uuid(request.message.uuid)
            &&& request.message.kind matches InternalMessageKind::UserMessageSchema(text)
            &&& text@ == ours
            &&& request.deadline == now + DEFAULT_REPLY_TIMEOUT
        },
        None => request is None,
    }
}

} // verus!
