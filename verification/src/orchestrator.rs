//! The run as a state machine: each answer of a collaborator is an event, and
//! each event is met with the one action that the driver performs next.

use vstd::prelude::*;
use std::marker::PhantomData;
use std::path::PathBuf;
use crate::algorithm::{decoded, HashAlgorithm};
use crate::catalog::{ImportCall, RunOptions, System};
use crate::config::{resolve, resolved, ConfigurationError};

verus! {

/// Why a run ended early. A collaborator's error is carried as it came.
#[derive(Debug, PartialEq, Eq)]
pub enum RunError<E> {
    /// Neither the override nor the persisted setting names an algorithm.
    Configuration(ConfigurationError),
    /// Reading the persisted setting, the systems or a header failed.
    Catalog(E),
    /// The import of one system failed.
    Import(E),
    /// The driver answered with an event that the run was not waiting for.
    Protocol,
}

/// What the driver performs next.
#[derive(Debug, PartialEq, Eq)]
pub enum Action<H, E> {
    /// Read the persisted hash-algorithm setting.
    LookupSetting,
    /// Enumerate the systems of the catalog, once.
    ListSystems,
    /// Fetch the optional header of this system.
    FetchHeader(System),
    /// Tell the observer that this system is about to be imported.
    Notify(System),
    /// Invoke the import engine with these arguments.
    Import(ImportCall<H>),
    /// The run is over, with this result.
    Finish(Result<(), RunError<E>>),
}

/// What a collaborator answered to the last action.
#[derive(Debug)]
pub enum Event<H, E> {
    /// The persisted setting's text, `None` where it holds no value.
    Setting(Result<Option<String>, E>),
    /// The systems, in the catalog's order.
    Systems(Result<Vec<System>, E>),
    /// The header of the system asked for, `None` where there is none.
    Header(Result<Option<H>, E>),
    /// The progress notification was emitted.
    Notified,
    /// The import engine returned.
    Imported(Result<(), E>),
}

/// The answer that a run is waiting for.
#[derive(Clone, Copy, Debug, PartialEq, Eq, Structural)]
pub enum Phase {
    AwaitSetting,
    AwaitSystems,
    AwaitHeader,
    AwaitNotice,
    AwaitImport,
    Done,
}

/// The state of a run, as the contracts see it.
pub struct RunView<H> {
    /// The candidate paths, shared by every import call.
    pub paths: Seq<PathBuf>,
    pub options: RunOptions,
    /// The resolved algorithm, once there is one.
    pub algorithm: Option<HashAlgorithm>,
    /// The snapshot of the catalog's systems, once it was taken.
    pub systems: Seq<System>,
    /// How many systems have been imported with success.
    pub cursor: nat,
    /// The header kept between its lookup and the import call.
    pub held: Option<H>,
    pub phase: Phase,
}

impl<H> RunView<H> {
    /// From the moment the systems are asked for an algorithm is resolved,
    /// and while a system is being visited the cursor points at it.
    pub open spec fn wf(self) -> bool {
        &&& self.cursor <= self.systems.len()
        &&& self.phase != Phase::AwaitSetting && self.phase != Phase::Done
            ==> self.algorithm is Some
        &&& self.visiting() ==> self.cursor < self.systems.len()
    }

    /// Whether a system is being visited.
    pub open spec fn visiting(self) -> bool {
        ||| self.phase == Phase::AwaitHeader
        ||| self.phase == Phase::AwaitNotice
        ||| self.phase == Phase::AwaitImport
    }

    /// The same run, over.
    pub open spec fn ended(self) -> Self {
        RunView { phase: Phase::Done, ..self }
    }

    /// The arguments of the import call for the system at `index`.
    pub open spec fn call(self, index: int, header: Option<H>) -> ImportCall<H> {
        ImportCall {
            system: self.systems[index],
            header,
            algorithm: self.algorithm->0,
            no_trash: self.options.no_trash,
        }
    }
}

/// The text of a persisted value, where there is one.
pub open spec fn text_of(value: Option<String>) -> Option<Seq<char>> {
    match value {
        Some(text) => Some(text@),
        None => None,
    }
}

/// The run before its first event, and its first action. A recognized
/// override settles the algorithm at once; otherwise the persisted setting is
/// asked for.
pub open spec fn start<H, E>(
    paths: Seq<PathBuf>,
    explicit: Option<Seq<char>>,
    no_trash: bool,
) -> (RunView<H>, Action<H, E>) {
    let run = RunView {
        paths,
        options: RunOptions { no_trash },
        algorithm: decoded(explicit),
        systems: Seq::<System>::empty(),
        cursor: 0,
        held: None::<H>,
        phase: if decoded(explicit) is Some {
            Phase::AwaitSystems
        } else {
            Phase::AwaitSetting
        },
    };
    (
        run,
        if decoded(explicit) is Some {
            Action::ListSystems
        } else {
            Action::LookupSetting
        },
    )
}

/// The run after an event, and the action that answers it.
///
/// Systems are visited one at a time, in the order of the snapshot: header,
/// notification, import. The first failure ends the run with that error; an
/// absent header is no failure. An event that the run is not waiting for ends
/// it with `RunError::Protocol`.
pub open spec fn advance<H, E>(run: RunView<H>, event: Event<H, E>) -> (RunView<H>, Action<H, E>) {
    match (run.phase, event) {
        (Phase::AwaitSetting, Event::Setting(Ok(value))) => {
            match resolved(run.algorithm, decoded(text_of(value))) {
                Ok(algorithm) => (
                    RunView { algorithm: Some(algorithm), phase: Phase::AwaitSystems, ..run },
                    Action::ListSystems,
                ),
                Err(error) => (run.ended(), Action::Finish(Err(RunError::Configuration(error)))),
            }
        },
        (Phase::AwaitSetting, Event::Setting(Err(error))) => (
            run.ended(),
            Action::Finish(Err(RunError::Catalog(error))),
        ),
        (Phase::AwaitSystems, Event::Systems(Ok(systems))) => {
            if systems@.len() == 0 {
                (
                    RunView { systems: systems@, cursor: 0, phase: Phase::Done, ..run },
                    Action::Finish(Ok(())),
                )
            } else {
                (
                    RunView { systems: systems@, cursor: 0, phase: Phase::AwaitHeader, ..run },
                    Action::FetchHeader(systems@[0]),
                )
            }
        },
        (Phase::AwaitSystems, Event::Systems(Err(error))) => (
            run.ended(),
            Action::Finish(Err(RunError::Catalog(error))),
        ),
        (Phase::AwaitHeader, Event::Header(Ok(header))) => (
            RunView { held: header, phase: Phase::AwaitNotice, ..run },
            Action::Notify(run.systems[run.cursor as int]),
        ),
        (Phase::AwaitHeader, Event::Header(Err(error))) => (
            run.ended(),
            Action::Finish(Err(RunError::Catalog(error))),
        ),
        (Phase::AwaitNotice, Event::Notified) => (
            RunView { held: None, phase: Phase::AwaitImport, ..run },
            Action::Import(run.call(run.cursor as int, run.held)),
        ),
        (Phase::AwaitImport, Event::Imported(Ok(_))) => {
            if run.cursor + 1 < run.systems.len() {
                (
                    RunView { cursor: run.cursor + 1, phase: Phase::AwaitHeader, ..run },
                    Action::FetchHeader(run.systems[run.cursor as int + 1]),
                )
            } else {
                (
                    RunView { cursor: run.cursor + 1, phase: Phase::Done, ..run },
                    Action::Finish(Ok(())),
                )
            }
        },
        (Phase::AwaitImport, Event::Imported(Err(error))) => (
            run.ended(),
            Action::Finish(Err(RunError::Import(error))),
        ),
        _ => (run.ended(), Action::Finish(Err(RunError::Protocol))),
    }
}

/// What a run knows of itself apart from the header it holds.
struct Progress {
    paths: Vec<PathBuf>,
    options: RunOptions,
    algorithm: Option<HashAlgorithm>,
    systems: Vec<System>,
    cursor: usize,
    phase: Phase,
}

impl Progress {
    #[verifier::type_invariant]
    spec fn inv(self) -> bool {
        &&& self.cursor <= self.systems@.len()
        &&& self.phase != Phase::AwaitSetting && self.phase != Phase::Done
            ==> self.algorithm is Some
        &&& self.phase == Phase::AwaitHeader || self.phase == Phase::AwaitNotice || self.phase
            == Phase::AwaitImport ==> self.cursor < self.systems@.len()
    }
}

/// One bulk import over every cataloged system.
pub struct Orchestrator<H, E> {
    progress: Progress,
    held: Option<H>,
    errors: PhantomData<E>,
}

impl<H, E> View for Orchestrator<H, E> {
    type V = RunView<H>;

    closed spec fn view(&self) -> RunView<H> {
        RunView {
            paths: self.progress.paths@,
            options: self.progress.options,
            algorithm: self.progress.algorithm,
            systems: self.progress.systems@,
            cursor: self.progress.cursor as nat,
            held: self.held,
            phase: self.progress.phase,
        }
    }
}

impl<H, E> Orchestrator<H, E> {
    /// Begins a run over `paths` and gives its first action. `explicit_hash`
    /// is the override as the user wrote it, if any.
    pub fn begin(paths: Vec<PathBuf>, explicit_hash: Option<&str>, no_trash: bool) -> (r: (
        Self,
        Action<H, E>,
    ))
        ensures
            (r.0@, r.1) == start::<H, E>(
                paths@,
                match explicit_hash {
                    Some(text) => Some(text@),
                    None => None,
                },
                no_trash,
            ),
            r.0@.wf(),
    {
        let explicit = match explicit_hash {
            Some(text) => HashAlgorithm::parse(text),
            None => None,
        };
        let settled = explicit.is_some();
        let progress = Progress {
            paths,
            options: RunOptions { no_trash },
            algorithm: explicit,
            systems: Vec::new(),
            cursor: 0,
            phase: if settled {
                Phase::AwaitSystems
            } else {
                Phase::AwaitSetting
            },
        };
        let run = Orchestrator { progress, held: None, errors: PhantomData };
        let action = if settled {
            Action::ListSystems
        } else {
            Action::LookupSetting
        };
        (run, action)
    }

    /// The candidate paths, which every import call of this run is given.
    pub fn paths(&self) -> (r: &Vec<PathBuf>)
        ensures
            r@ == self@.paths,
    {
        &self.progress.paths
    }

    /// The policy flags of this run.
    pub fn options(&self) -> (r: RunOptions)
        ensures
            r == self@.options,
    {
        self.progress.options
    }

    /// The algorithm of this run, once it is resolved.
    pub fn algorithm(&self) -> (r: Option<HashAlgorithm>)
        ensures
            r == self@.algorithm,
    {
        self.progress.algorithm
    }

    /// The answer that this run is waiting for.
    pub fn phase(&self) -> (r: Phase)
        ensures
            r == self@.phase,
    {
        self.progress.phase
    }

    /// How many systems this run has imported with success.
    pub fn imported(&self) -> (r: usize)
        ensures
            r == self@.cursor,
    {
        self.progress.cursor
    }

    /// Takes the answer to the last action and says what to do next.
    pub fn step(&mut self, event: Event<H, E>) -> (action: Action<H, E>)
        ensures
            (final(self)@, action) == advance(old(self)@, event),
            final(self)@.wf(),
    {
        proof {
            use_type_invariant(&self.progress);
        }
        match (self.progress.phase, event) {
            (Phase::AwaitSetting, Event::Setting(Ok(value))) => {
                let persisted = match &value {
                    Some(text) => HashAlgorithm::parse(text.as_str()),
                    None => None,
                };
                match resolve(self.progress.algorithm, persisted) {
                    Ok(algorithm) => {
                        self.progress.algorithm = Some(algorithm);
                        self.progress.phase = Phase::AwaitSystems;
                        Action::ListSystems
                    },
                    Err(error) => {
                        self.progress.phase = Phase::Done;
                        Action::Finish(Err(RunError::Configuration(error)))
                    },
                }
            },
            (Phase::AwaitSetting, Event::Setting(Err(error))) => {
                self.progress.phase = Phase::Done;
                Action::Finish(Err(RunError::Catalog(error)))
            },
            (Phase::AwaitSystems, Event::Systems(Ok(systems))) => {
                self.progress.cursor = 0;
                self.progress.systems = systems;
                if self.progress.systems.len() == 0 {
                    self.progress.phase = Phase::Done;
                    Action::Finish(Ok(()))
                } else {
                    self.progress.phase = Phase::AwaitHeader;
                    Action::FetchHeader(self.progress.systems[0].clone())
                }
            },
            (Phase::AwaitSystems, Event::Systems(Err(error))) => {
                self.progress.phase = Phase::Done;
                Action::Finish(Err(RunError::Catalog(error)))
            },
            (Phase::AwaitHeader, Event::Header(Ok(header))) => {
                self.held = header;
                self.progress.phase = Phase::AwaitNotice;
                Action::Notify(self.progress.systems[self.progress.cursor].clone())
            },
            (Phase::AwaitHeader, Event::Header(Err(error))) => {
                self.progress.phase = Phase::Done;
                Action::Finish(Err(RunError::Catalog(error)))
            },
            (Phase::AwaitNotice, Event::Notified) => {
                let header = self.held.take();
                self.progress.phase = Phase::AwaitImport;
                Action::Import(
                    ImportCall {
                        system: self.progress.systems[self.progress.cursor].clone(),
                        header,
                        algorithm: self.progress.algorithm.unwrap(),
                        no_trash: self.progress.options.no_trash,
                    },
                )
            },
            (Phase::AwaitImport, Event::Imported(Ok(_))) => {
                let count: usize = self.progress.systems.len();
                if self.progress.cursor + 1 < count {
                    self.progress.cursor = self.progress.cursor + 1;
                    self.progress.phase = Phase::AwaitHeader;
                    Action::FetchHeader(self.progress.systems[self.progress.cursor].clone())
                } else {
                    self.progress.phase = Phase::Done;
                    self.progress.cursor = self.progress.cursor + 1;
                    Action::Finish(Ok(()))
                }
            },
            (Phase::AwaitImport, Event::Imported(Err(error))) => {
                self.progress.phase = Phase::Done;
                Action::Finish(Err(RunError::Import(error)))
            },
            _ => {
                self.progress.phase = Phase::Done;
                Action::Finish(Err(RunError::Protocol))
            },
        }
    }
}

} // verus!
