//! Every failure the engine can report, in one taxonomy: setup errors,
//! parsing errors, runtime errors around the channel, and the semantic
//! errors of the dry-run / apply workflow.

use vstd::prelude::*;

verus! {

/// The error taxonomy of the whole crate.
///
/// `FailedDryRunEvaluation` is the one demotable kind: a step marked
/// `allowed_to_fail` turns it into an allowed failure instead of
/// stopping the traversal. `FailedTaskDryRun` is its non-tolerated
/// counterpart, surfaced to the job.
#[derive(Debug)]
pub enum Error {
    FailureToFindGroupContent,
    FailureToParseContent(String),
    FailureToRunCommand(String),
    FailureToEstablishConnection(String),
    FailedInitialization(String),
    FailedTcpBinding(String),
    FailedTaskDryRun(String),
    FailedDryRunEvaluation(String),
    MissingInitialization(String),
    GroupNotFound,
    MissingGroupsList,
    WorkFlowNotFollowed(String),
    WrongInitialization,
    AnyOtherError(String),
}

impl Clone for Error {
    /// The copy carries the same kind and the same message.
    fn clone(&self) -> (r: Error)
        ensures
            r.spec_kind_label() == self.spec_kind_label(),
            r.spec_message() == self.spec_message(),
    {
        match self {
            Error::FailureToFindGroupContent => Error::FailureToFindGroupContent,
            Error::FailureToParseContent(m) => Error::FailureToParseContent(m.clone()),
            Error::FailureToRunCommand(m) => Error::FailureToRunCommand(m.clone()),
            Error::FailureToEstablishConnection(m) => Error::FailureToEstablishConnection(
                m.clone(),
            ),
            Error::FailedInitialization(m) => Error::FailedInitialization(m.clone()),
            Error::FailedTcpBinding(m) => Error::FailedTcpBinding(m.clone()),
            Error::FailedTaskDryRun(m) => Error::FailedTaskDryRun(m.clone()),
            Error::FailedDryRunEvaluation(m) => Error::FailedDryRunEvaluation(m.clone()),
            Error::MissingInitialization(m) => Error::MissingInitialization(m.clone()),
            Error::GroupNotFound => Error::GroupNotFound,
            Error::MissingGroupsList => Error::MissingGroupsList,
            Error::WorkFlowNotFollowed(m) => Error::WorkFlowNotFollowed(m.clone()),
            Error::WrongInitialization => Error::WrongInitialization,
            Error::AnyOtherError(m) => Error::AnyOtherError(m.clone()),
        }
    }
}

impl Error {
    /// The name of this error's kind.
    pub open spec fn spec_kind_label(&self) -> Seq<char> {
        match self {
            Error::FailureToFindGroupContent => "failure-to-find-group-content"@,
            Error::FailureToParseContent(_) => "failure-to-parse-content"@,
            Error::FailureToRunCommand(_) => "failure-to-run-command"@,
            Error::FailureToEstablishConnection(_) => "failure-to-establish-connection"@,
            Error::FailedInitialization(_) => "failed-init"@,
            Error::FailedTcpBinding(_) => "failed-tcp-bind"@,
            Error::FailedTaskDryRun(_) => "failed-task-dry-run"@,
            Error::FailedDryRunEvaluation(_) => "failed-dry-run-evaluation"@,
            Error::MissingInitialization(_) => "missing-init"@,
            Error::GroupNotFound => "group-not-found"@,
            Error::MissingGroupsList => "missing-groups-list"@,
            Error::WorkFlowNotFollowed(_) => "workflow-not-followed"@,
            Error::WrongInitialization => "wrong-init"@,
            Error::AnyOtherError(_) => "any-other-error"@,
        }
    }

    /// The name of this error's kind, printable.
    pub fn kind_label(&self) -> (r: String)
        ensures
            r@ == self.spec_kind_label(),
    {
        match self {
            Error::FailureToFindGroupContent => "failure-to-find-group-content".to_owned(),
            Error::FailureToParseContent(_) => "failure-to-parse-content".to_owned(),
            Error::FailureToRunCommand(_) => "failure-to-run-command".to_owned(),
            Error::FailureToEstablishConnection(_) => "failure-to-establish-connection"
                .to_owned(),
            Error::FailedInitialization(_) => "failed-init".to_owned(),
            Error::FailedTcpBinding(_) => "failed-tcp-bind".to_owned(),
            Error::FailedTaskDryRun(_) => "failed-task-dry-run".to_owned(),
            Error::FailedDryRunEvaluation(_) => "failed-dry-run-evaluation".to_owned(),
            Error::MissingInitialization(_) => "missing-init".to_owned(),
            Error::GroupNotFound => "group-not-found".to_owned(),
            Error::MissingGroupsList => "missing-groups-list".to_owned(),
            Error::WorkFlowNotFollowed(_) => "workflow-not-followed".to_owned(),
            Error::WrongInitialization => "wrong-init".to_owned(),
            Error::AnyOtherError(_) => "any-other-error".to_owned(),
        }
    }

    /// The message carried by this error, empty for the kinds that
    /// carry none.
    pub open spec fn spec_message(&self) -> Seq<char> {
        match self {
            Error::FailureToParseContent(m) => m@,
            Error::FailureToRunCommand(m) => m@,
            Error::FailureToEstablishConnection(m) => m@,
            Error::FailedInitialization(m) => m@,
            Error::FailedTcpBinding(m) => m@,
            Error::FailedTaskDryRun(m) => m@,
            Error::FailedDryRunEvaluation(m) => m@,
            Error::MissingInitialization(m) => m@,
            Error::WorkFlowNotFollowed(m) => m@,
            Error::AnyOtherError(m) => m@,
            _ => Seq::<char>::empty(),
        }
    }

    /// The message carried by this error, printable.
    pub fn message(&self) -> (r: String)
        ensures
            r@ == self.spec_message(),
    {
        match self {
            Error::FailureToParseContent(m) => m.clone(),
            Error::FailureToRunCommand(m) => m.clone(),
            Error::FailureToEstablishConnection(m) => m.clone(),
            Error::FailedInitialization(m) => m.clone(),
            Error::FailedTcpBinding(m) => m.clone(),
            Error::FailedTaskDryRun(m) => m.clone(),
            Error::FailedDryRunEvaluation(m) => m.clone(),
            Error::MissingInitialization(m) => m.clone(),
            Error::WorkFlowNotFollowed(m) => m.clone(),
            Error::AnyOtherError(m) => m.clone(),
            _ => String::new(),
        }
    }
}

} // verus!
