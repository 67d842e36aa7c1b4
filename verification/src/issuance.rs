//! The exchange with the certificate issuance engine, as a protocol.
//!
//! The engine is a program that is started, fed a request and waited for.
//! Where it signs under an authority it wants the authority's certificate
//! and key as files, so these are staged in a fresh directory first. This
//! module decides what is done next and what the outcome is; the caller
//! performs each action and reports back what happened.

use vstd::prelude::*;

verus! {

/// What is asked of the engine.
#[derive(Clone, Copy, Debug, PartialEq, Eq, Structural)]
pub enum Operation {
    /// A self-signed authority.
    GenerateAuthority,
    /// A certificate and key under an authority.
    GenerateLeaf,
    /// A certificate for a signing request, under an authority.
    Sign,
    /// A signing request and its key.
    GenerateRequest,
}

/// Why an exchange failed.
#[derive(Clone, Copy, Debug, PartialEq, Eq, Structural)]
pub enum Cause {
    /// The staging directory or a file in it could not be written.
    Staging,
    /// The staging directory's path is not UTF-8.
    PathEncoding,
    /// The engine could not be started.
    Spawn,
    /// The engine was started without a way to send it the request.
    StdinUnavailable,
    /// The request could not be sent.
    Request,
    /// The engine's exit could not be awaited.
    Wait,
    /// The engine exited with a failure status.
    EngineFailed,
    /// The engine's answer is not a response.
    Parse,
    /// The staging directory could not be removed after the exchange.
    Removal,
    /// The caller reported something that answers no pending action.
    Protocol,
}

/// How an exchange ended.
#[derive(Clone, Copy, Debug, PartialEq, Eq, Structural)]
pub enum Verdict {
    /// The engine's response is the result.
    Issued,
    Failed(Cause),
}

/// Where an exchange stands: the action whose report is awaited.
#[derive(Clone, Copy, Debug, PartialEq, Eq, Structural)]
pub enum Phase {
    CreatingDirectory,
    WritingFiles,
    Spawning,
    WritingRequest,
    Waiting,
    Parsing,
    /// Removing the directory with the verdict at hand; a failed removal
    /// takes the verdict's place.
    Closing(Verdict),
    /// Removing the directory on the way out of a failure; whether the
    /// removal succeeds changes nothing.
    Discarding(Cause),
    Finished,
}

/// What the caller reports after performing an action.
#[derive(Clone, Copy, Debug, PartialEq, Eq, Structural)]
pub enum Event {
    /// The staging directory exists; `utf8` tells whether its path can be
    /// written as text.
    DirectoryCreated { utf8: bool },
    /// Files written, request sent or directory removed.
    Completed,
    /// The engine runs; `stdin` tells whether it can be sent a request.
    Spawned { stdin: bool },
    /// The engine exited.
    Exited { success: bool },
    /// The engine's output was read as a response.
    Parsed,
    /// The action failed.
    Failed,
}

/// What the caller is to do next.
#[derive(Clone, Copy, Debug, PartialEq, Eq, Structural)]
pub enum Action {
    /// Create a fresh directory that no other exchange uses.
    CreateDirectory,
    /// Write the authority's certificate and key into the directory.
    WriteFiles,
    /// Start the engine.
    Spawn,
    /// Send the request and close the engine's input.
    WriteRequest,
    /// Wait for the engine to exit, collecting its output.
    Wait,
    /// Read the output as a response.
    Parse,
    /// Remove the directory and all in it.
    RemoveDirectory,
    /// Return to the caller's caller.
    Finish(Verdict),
    /// The exchange is over.
    Nothing,
}

/// One exchange with the engine.
#[derive(Clone, Copy, Debug, PartialEq, Eq, Structural)]
pub struct Session {
    pub operation: Operation,
    pub phase: Phase,
    /// A staging directory exists whose removal has not been asked for.
    pub directory: bool,
}

impl Operation {
    /// Whether the engine needs an authority's certificate and key on disk.
    pub open spec fn stages_authority(self) -> bool {
        self == Operation::GenerateLeaf || self == Operation::Sign
    }

    /// Whether the engine needs an authority's certificate and key on disk.
    #[verifier::when_used_as_spec(stages_authority)]
    pub fn needs_authority(self) -> (needed: bool)
        ensures
            needed == self.stages_authority(),
    {
        match self {
            Operation::GenerateLeaf | Operation::Sign => true,
            Operation::GenerateAuthority | Operation::GenerateRequest => false,
        }
    }
}

impl Session {
    /// The session and first action of an exchange.
    pub open spec fn initial(operation: Operation) -> (Session, Action) {
        if operation.stages_authority() {
            (
                Session { operation, phase: Phase::CreatingDirectory, directory: false },
                Action::CreateDirectory,
            )
        } else {
            (Session { operation, phase: Phase::Spawning, directory: false }, Action::Spawn)
        }
    }

    /// Leaving with a failure: through removal where a directory exists.
    pub open spec fn abandoned(self, cause: Cause) -> (Session, Action) {
        if self.directory {
            (
                Session {
                    operation: self.operation,
                    phase: Phase::Discarding(cause),
                    directory: false,
                },
                Action::RemoveDirectory,
            )
        } else {
            (
                Session { operation: self.operation, phase: Phase::Finished, directory: false },
                Action::Finish(Verdict::Failed(cause)),
            )
        }
    }

    /// Leaving once the outcome is known: through removal where a directory exists.
    pub open spec fn settled(self, verdict: Verdict) -> (Session, Action) {
        if self.directory {
            (
                Session {
                    operation: self.operation,
                    phase: Phase::Closing(verdict),
                    directory: false,
                },
                Action::RemoveDirectory,
            )
        } else {
            (
                Session { operation: self.operation, phase: Phase::Finished, directory: false },
                Action::Finish(verdict),
            )
        }
    }

    /// Going on to the next phase with its action.
    pub open spec fn advanced(self, phase: Phase, action: Action) -> (Session, Action) {
        (Session { operation: self.operation, phase, directory: self.directory }, action)
    }

    /// The session and action that follow a report.
    pub open spec fn next(self, event: Event) -> (Session, Action) {
        match (self.phase, event) {
            (Phase::Finished, _) => (self, Action::Nothing),
            (Phase::Discarding(cause), _) => self.settled(Verdict::Failed(cause)),
            (Phase::Closing(verdict), Event::Completed) => self.settled(verdict),
            (Phase::Closing(_), Event::Failed) => self.settled(Verdict::Failed(Cause::Removal)),
            (Phase::CreatingDirectory, Event::DirectoryCreated { utf8 }) => {
                let held = Session {
                    operation: self.operation,
                    phase: self.phase,
                    directory: true,
                };
                if utf8 {
                    held.advanced(Phase::WritingFiles, Action::WriteFiles)
                } else {
                    held.abandoned(Cause::PathEncoding)
                }
            },
            (Phase::CreatingDirectory, Event::Failed) => self.abandoned(Cause::Staging),
            (Phase::WritingFiles, Event::Completed) => self.advanced(
                Phase::Spawning,
                Action::Spawn,
            ),
            (Phase::WritingFiles, Event::Failed) => self.abandoned(Cause::Staging),
            (Phase::Spawning, Event::Spawned { stdin }) => if stdin {
                self.advanced(Phase::WritingRequest, Action::WriteRequest)
            } else {
                self.abandoned(Cause::StdinUnavailable)
            },
            (Phase::Spawning, Event::Failed) => self.abandoned(Cause::Spawn),
            (Phase::WritingRequest, Event::Completed) => self.advanced(
                Phase::Waiting,
                Action::Wait,
            ),
            (Phase::WritingRequest, Event::Failed) => self.abandoned(Cause::Request),
            (Phase::Waiting, Event::Exited { success }) => if success {
                self.advanced(Phase::Parsing, Action::Parse)
            } else {
                self.settled(Verdict::Failed(Cause::EngineFailed))
            },
            (Phase::Waiting, Event::Failed) => self.abandoned(Cause::Wait),
            (Phase::Parsing, Event::Parsed) => self.settled(Verdict::Issued),
            (Phase::Parsing, Event::Failed) => self.abandoned(Cause::Parse),
            _ => self.abandoned(Cause::Protocol),
        }
    }

    /// Begins an exchange: the session, and the first thing to do.
    pub fn start(operation: Operation) -> (begun: (Session, Action))
        ensures
            begun == Session::initial(operation),
    {
        if operation.needs_authority() {
            (
                Session { operation, phase: Phase::CreatingDirectory, directory: false },
                Action::CreateDirectory,
            )
        } else {
            (Session { operation, phase: Phase::Spawning, directory: false }, Action::Spawn)
        }
    }

    fn abandon(self, cause: Cause) -> (left: (Session, Action))
        ensures
            left == self.abandoned(cause),
    {
        if self.directory {
            (
                Session {
                    operation: self.operation,
                    phase: Phase::Discarding(cause),
                    directory: false,
                },
                Action::RemoveDirectory,
            )
        } else {
            (
                Session { operation: self.operation, phase: Phase::Finished, directory: false },
                Action::Finish(Verdict::Failed(cause)),
            )
        }
    }

    fn settle(self, verdict: Verdict) -> (left: (Session, Action))
        ensures
            left == self.settled(verdict),
    {
        if self.directory {
            (
                Session {
                    operation: self.operation,
                    phase: Phase::Closing(verdict),
                    directory: false,
                },
                Action::RemoveDirectory,
            )
        } else {
            (
                Session { operation: self.operation, phase: Phase::Finished, directory: false },
                Action::Finish(verdict),
            )
        }
    }

    fn advance(self, phase: Phase, action: Action) -> (gone: (Session, Action))
        ensures
            gone == self.advanced(phase, action),
    {
        (Session { operation: self.operation, phase, directory: self.directory }, action)
    }

    /// Takes the report of the pending action and decides what follows.
    pub fn step(self, event: Event) -> (followed: (Session, Action))
        ensures
            followed == self.next(event),
    {
        match self.phase {
            Phase::Finished => (self, Action::Nothing),
            Phase::Discarding(cause) => self.settle(Verdict::Failed(cause)),
            Phase::Closing(verdict) => match event {
                Event::Completed => self.settle(verdict),
                Event::Failed => self.settle(Verdict::Failed(Cause::Removal)),
                _ => self.abandon(Cause::Protocol),
            },
            Phase::CreatingDirectory => match event {
                Event::DirectoryCreated { utf8 } => {
                    let held = Session {
                        operation: self.operation,
                        phase: self.phase,
                        directory: true,
                    };
                    if utf8 {
                        held.advance(Phase::WritingFiles, Action::WriteFiles)
                    } else {
                        held.abandon(Cause::PathEncoding)
                    }
                },
                Event::Failed => self.abandon(Cause::Staging),
                _ => self.abandon(Cause::Protocol),
            },
            Phase::WritingFiles => match event {
                Event::Completed => self.advance(Phase::Spawning, Action::Spawn),
                Event::Failed => self.abandon(Cause::Staging),
                _ => self.abandon(Cause::Protocol),
            },
            Phase::Spawning => match event {
                Event::Spawned { stdin } => if stdin {
                    self.advance(Phase::WritingRequest, Action::WriteRequest)
                } else {
                    self.abandon(Cause::StdinUnavailable)
                },
                Event::Failed => self.abandon(Cause::Spawn),
                _ => self.abandon(Cause::Protocol),
            },
            Phase::WritingRequest => match event {
                Event::Completed => self.advance(Phase::Waiting, Action::Wait),
                Event::Failed => self.abandon(Cause::Request),
                _ => self.abandon(Cause::Protocol),
            },
            Phase::Waiting => match event {
                Event::Exited { success } => if success {
                    self.advance(Phase::Parsing, Action::Parse)
                } else {
                    self.settle(Verdict::Failed(Cause::EngineFailed))
                },
                Event::Failed => self.abandon(Cause::Wait),
                _ => self.abandon(Cause::Protocol),
            },
            Phase::Parsing => match event {
                Event::Parsed => self.settle(Verdict::Issued),
                Event::Failed => self.abandon(Cause::Parse),
                _ => self.abandon(Cause::Protocol),
            },
        }
    }
}

/// The session after the caller has reported `events` in turn.
pub open spec fn after(operation: Operation, events: Seq<Event>) -> Session
    decreases events.len(),
{
    if events.len() == 0 {
        Session::initial(operation).0
    } else {
        after(operation, events.drop_last()).next(events.last()).0
    }
}

/// The action that is pending once `events` have been reported.
pub open spec fn pending(operation: Operation, events: Seq<Event>) -> Action {
    if events.len() == 0 {
        Session::initial(operation).1
    } else {
        after(operation, events.drop_last()).next(events.last()).1
    }
}

/// How many staging directories came to exist along `events`.
pub open spec fn created(operation: Operation, events: Seq<Event>) -> nat
    decreases events.len(),
{
    if events.len() == 0 {
        0
    } else {
        let before = after(operation, events.drop_last());
        let now: nat = if before.phase == Phase::CreatingDirectory && events.last() is DirectoryCreated {
            1
        } else {
            0
        };
        created(operation, events.drop_last()) + now
    }
}

/// How many removals of a staging directory were asked for along `events`.
pub open spec fn removals(operation: Operation, events: Seq<Event>) -> nat
    decreases events.len(),
{
    if events.len() == 0 {
        0
    } else {
        let now: nat = if pending(operation, events) == Action::RemoveDirectory {
            1
        } else {
            0
        };
        removals(operation, events.drop_last()) + now
    }
}

/// The reports of an exchange in which nothing goes wrong.
pub open spec fn smooth(operation: Operation) -> Seq<Event> {
    if operation.stages_authority() {
        seq![
            Event::DirectoryCreated { utf8: true },
            Event::Completed,
            Event::Spawned { stdin: true },
            Event::Completed,
            Event::Exited { success: true },
            Event::Parsed,
            Event::Completed,
        ]
    } else {
        seq![
            Event::Spawned { stdin: true },
            Event::Completed,
            Event::Exited { success: true },
            Event::Parsed,
        ]
    }
}

/// How many reports of a smooth exchange lead to `phase`, where it lies on
/// the way of one.
pub open spec fn progress(operation: Operation, phase: Phase) -> Option<int> {
    let staged: int = if operation.stages_authority() {
        2
    } else {
        0
    };
    match phase {
        Phase::CreatingDirectory => if operation.stages_authority() {
            Some(0int)
        } else {
            None
        },
        Phase::WritingFiles => if operation.stages_authority() {
            Some(1int)
        } else {
            None
        },
        Phase::Spawning => Some(staged),
        Phase::WritingRequest => Some(staged + 1),
        Phase::Waiting => Some(staged + 2),
        Phase::Parsing => Some(staged + 3),
        Phase::Closing(Verdict::Issued) => if operation.stages_authority() {
            Some(6int)
        } else {
            None
        },
        _ => None,
    }
}

/// What holds after any reports whatever: the session is of the operation
/// begun; at most one directory came to exist, and it is either still held
/// or has had its removal asked for; a directory is held only within the
/// phases that use it, and only by an operation that stages an authority;
/// a session on the way of a smooth exchange has seen exactly the reports
/// that lead there; and the caller is told to finish only when the session
/// is over, with success only after the whole of a smooth exchange.
pub open spec fn consistent(operation: Operation, events: Seq<Event>) -> bool {
    let session = after(operation, events);
    let held: nat = if session.directory {
        1
    } else {
        0
    };
    &&& session.operation == operation
    &&& created(operation, events) == removals(operation, events) + held
    &&& created(operation, events) <= 1
    &&& session.directory ==> operation.stages_authority() && (session.phase
        == Phase::WritingFiles || session.phase == Phase::Spawning || session.phase
        == Phase::WritingRequest || session.phase == Phase::Waiting || session.phase
        == Phase::Parsing)
    &&& !session.directory && operation.stages_authority() ==> session.phase
        == Phase::CreatingDirectory || session.phase is Closing || session.phase is Discarding
        || session.phase == Phase::Finished
    &&& session.phase == Phase::CreatingDirectory ==> created(operation, events) == 0
    &&& session.phase is Closing ==> operation.stages_authority()
    &&& match progress(operation, session.phase) {
        Some(count) => 0 <= count <= smooth(operation).len() && events =~= smooth(
            operation,
        ).take(count),
        None => true,
    }
    &&& pending(operation, events) == Action::Finish(Verdict::Issued) ==> events =~= smooth(
        operation,
    )
    &&& pending(operation, events) is Finish ==> session.phase == Phase::Finished
}

/// Every run of reports leaves the exchange consistent.
pub proof fn always_consistent(operation: Operation, events: Seq<Event>)
    ensures
        consistent(operation, events),
    decreases events.len(),
{
    if events.len() > 0 {
        let earlier = events.drop_last();
        always_consistent(operation, earlier);
        assert(events =~= earlier.push(events.last()));
        let before = after(operation, earlier);
        let path = smooth(operation);
        match progress(operation, before.phase) {
            Some(count) => {
                if count < path.len() {
                    assert(path.take(count + 1) =~= path.take(count).push(path[count]));
                }
                assert(path.take(path.len() as int) =~= path);
            },
            None => {},
        }
    } else {
        assert(smooth(operation).take(0) =~= Seq::<Event>::empty());
    }
}

/// No exchange returns while a staging directory stands that it has not
/// asked to be removed: when the caller is told to finish, whatever was
/// reported before, as many removals were asked for as directories came
/// to exist.
pub proof fn finish_leaves_no_directory(operation: Operation, events: Seq<Event>)
    requires
        pending(operation, events) is Finish,
    ensures
        !after(operation, events).directory,
        removals(operation, events) == created(operation, events),
{
    always_consistent(operation, events);
}

/// An exchange succeeds on one run of reports only: the directory, where
/// one is needed, was created and filled, the engine started and took the
/// request, exited with success, its answer was a response, and the
/// directory was removed.
pub proof fn issued_only_when_smooth(operation: Operation, events: Seq<Event>)
    ensures
        pending(operation, events) == Action::Finish(Verdict::Issued) <==> events == smooth(
            operation,
        ),
{
    always_consistent(operation, events);
    if events == smooth(operation) {
        smooth_is_issued(operation);
    }
}

/// A smooth run of reports, as far as it has come, is on its way.
proof fn smooth_stays_on_its_way(operation: Operation, count: int)
    requires
        0 <= count < smooth(operation).len(),
    ensures
        progress(operation, after(operation, smooth(operation).take(count)).phase) == Some(
            count,
        ),
    decreases count,
{
    let path = smooth(operation);
    if count > 0 {
        smooth_stays_on_its_way(operation, count - 1);
        always_consistent(operation, path.take(count - 1));
        assert(path.take(count).drop_last() =~= path.take(count - 1));
        assert(path.take(count).last() == path[count - 1]);
    } else {
        assert(path.take(0).len() == 0);
    }
}

/// The smooth run of reports ends in success.
proof fn smooth_is_issued(operation: Operation)
    ensures
        pending(operation, smooth(operation)) == Action::Finish(Verdict::Issued),
{
    let path = smooth(operation);
    let count = path.len() - 1;
    smooth_stays_on_its_way(operation, count);
    always_consistent(operation, path.take(count));
    assert(path.drop_last() =~= path.take(count));
}

/// How many reports an exchange can still take before it is over.
pub open spec fn reports_left(phase: Phase) -> nat {
    match phase {
        Phase::CreatingDirectory => 7,
        Phase::WritingFiles => 6,
        Phase::Spawning => 5,
        Phase::WritingRequest => 4,
        Phase::Waiting => 3,
        Phase::Parsing => 2,
        Phase::Closing(_) => 1,
        Phase::Discarding(_) => 1,
        Phase::Finished => 0,
    }
}

/// Every exchange is over after seven reports at most, whatever they are,
/// and stays so.
pub proof fn exchange_ends(operation: Operation, events: Seq<Event>)
    ensures
        reports_left(after(operation, events).phase) + events.len() <= 7
            || after(operation, events).phase == Phase::Finished,
        events.len() >= 7 ==> after(operation, events).phase == Phase::Finished,
    decreases events.len(),
{
    always_consistent(operation, events);
    if events.len() > 0 {
        exchange_ends(operation, events.drop_last());
        always_consistent(operation, events.drop_last());
    }
}

} // verus!
