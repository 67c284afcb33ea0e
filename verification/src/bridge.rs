//! The log bridge: one slot for the consumer, an installation flag, and the
//! filter policy. The bridge decides; the caller that owns the consumer
//! performs the hand-off that the bridge decided on.

use vstd::prelude::*;
use crate::level::Level;
use crate::policy::{admits, FilterPolicy};
use crate::record::{entry_of, LogEntry, LogEntryView, LogRecord, LogRecordView};

verus! {

/// The conditions that the bridge reports.
#[derive(Debug, Clone, Copy, PartialEq, Eq, Hash, Structural)]
pub enum BridgeError {
    /// `install` was called on a bridge that is installed already.
    AlreadyInitialized,
    /// `register` was called before `install`.
    NotInitialized,
    /// `register` was given no usable consumer handle.
    InvalidCallback,
    /// The consumer failed while it processed a record.
    ConsumerFailure,
}

/// How a caller is to treat a `BridgeError`.
#[derive(Debug, Clone, Copy, PartialEq, Eq, Hash, Structural)]
pub enum ErrorClass {
    /// Reported, and treated as success by convention.
    Benign,
    /// A misuse that the immediate caller has to mend.
    CallerError,
    /// An unrecoverable fault of the host integration.
    Fatal,
}

impl BridgeError {
    /// The class of each condition.
    pub open spec fn class_of(self) -> ErrorClass {
        match self {
            BridgeError::AlreadyInitialized => ErrorClass::Benign,
            BridgeError::NotInitialized => ErrorClass::CallerError,
            BridgeError::InvalidCallback => ErrorClass::CallerError,
            BridgeError::ConsumerFailure => ErrorClass::Fatal,
        }
    }

    /// The class of the condition.
    pub fn class(self) -> (class: ErrorClass)
        ensures
            class == self.class_of(),
    {
        match self {
            BridgeError::AlreadyInitialized => ErrorClass::Benign,
            BridgeError::NotInitialized => ErrorClass::CallerError,
            BridgeError::InvalidCallback => ErrorClass::CallerError,
            BridgeError::ConsumerFailure => ErrorClass::Fatal,
        }
    }

    /// A short description of the condition.
    pub fn message(self) -> (text: &'static str)
        ensures
            text@ == match self {
                BridgeError::AlreadyInitialized => "the log bridge is already installed"@,
                BridgeError::NotInitialized => "the log bridge is not installed"@,
                BridgeError::InvalidCallback => "the consumer handle is not usable"@,
                BridgeError::ConsumerFailure => "the consumer failed on a record"@,
            },
    {
        match self {
            BridgeError::AlreadyInitialized => "the log bridge is already installed",
            BridgeError::NotInitialized => "the log bridge is not installed",
            BridgeError::InvalidCallback => "the consumer handle is not usable",
            BridgeError::ConsumerFailure => "the consumer failed on a record",
        }
    }
}

/// How the producer hands a record to the consumer.
#[derive(Debug, Clone, Copy, PartialEq, Eq, Hash, Structural)]
pub enum HandoffMode {
    /// The producer waits until the consumer has accepted the record.
    Blocking,
    /// The producer goes on at once.
    NonBlocking,
}

/// One hand-off that `emit` decided on, as mathematical values.
pub struct Handoff<C> {
    pub consumer: C,
    pub entry: LogEntryView,
    pub mode: HandoffMode,
}

/// The state of a bridge, as mathematical values.
pub struct BridgeState<C> {
    /// The namespace of the filter policy.
    pub namespace: Seq<char>,
    pub installed: bool,
    /// The registered consumer, if any.
    pub consumer: Option<C>,
}

impl<C> BridgeState<C> {
    /// A consumer is registered only on an installed bridge.
    pub open spec fn wf(self) -> bool {
        self.consumer is Some ==> self.installed
    }

    /// The state of a new bridge: not installed, no consumer.
    pub open spec fn fresh(namespace: Seq<char>) -> BridgeState<C> {
        BridgeState { namespace, installed: false, consumer: None }
    }

    /// `install`: the first call installs the bridge; a later call reports
    /// `AlreadyInitialized` and leaves the state as it is.
    pub open spec fn install(self) -> (BridgeState<C>, Result<(), BridgeError>) {
        if self.installed {
            (self, Err(BridgeError::AlreadyInitialized))
        } else {
            (BridgeState { installed: true, ..self }, Ok(()))
        }
    }

    /// `register`: on an installed bridge a usable handle takes the slot,
    /// whatever the slot held; otherwise the state is left as it is.
    pub open spec fn register(self, handle: Option<C>) -> (BridgeState<C>, Result<(), BridgeError>) {
        if !self.installed {
            (self, Err(BridgeError::NotInitialized))
        } else {
            match handle {
                None => (self, Err(BridgeError::InvalidCallback)),
                Some(consumer) => (BridgeState { consumer: Some(consumer), ..self }, Ok(())),
            }
        }
    }

    /// Whether the filter policy forwards a record of this target and level.
    pub open spec fn admits(self, target: Seq<char>, level: Level) -> bool {
        admits(self.namespace, target, level)
    }

    /// `emit`: a record that the policy forwards is handed, in blocking mode,
    /// to the registered consumer; any other record, and every record while
    /// no consumer is registered, is dropped.
    pub open spec fn emit(self, record: LogRecordView) -> Option<Handoff<C>> {
        if self.admits(record.target, record.level) {
            match self.consumer {
                Some(consumer) => Some(
                    Handoff { consumer, entry: entry_of(record), mode: HandoffMode::Blocking },
                ),
                None => None,
            }
        } else {
            None
        }
    }

    /// The hand-offs that a run of `emit` calls decides on, in the order of
    /// the calls, while the bridge stays in this state.
    pub open spec fn observed(self, records: Seq<LogRecordView>) -> Seq<Handoff<C>>
        decreases records.len(),
    {
        if records.len() == 0 {
            Seq::empty()
        } else {
            let before = self.observed(records.drop_last());
            match self.emit(records.last()) {
                Some(handoff) => before.push(handoff),
                None => before,
            }
        }
    }

    /// The least severe level that the logging facade is to let through to the
    /// bridge: none before `install`, `Trace` after it, so that the filter
    /// policy alone decides.
    pub open spec fn max_level(self) -> Option<Level> {
        if self.installed {
            Some(Level::Trace)
        } else {
            None
        }
    }
}

/// What became of a hand-off: accepted by the consumer, or a
/// `ConsumerFailure`.
pub open spec fn handoff_outcome(accepted: bool) -> Result<(), BridgeError> {
    if accepted {
        Ok(())
    } else {
        Err(BridgeError::ConsumerFailure)
    }
}

/// One hand-off that `emit` decided on: the caller passes `entry` to
/// `consumer` in the given mode, and reports the consumer's answer through
/// `acknowledge`.
pub struct Delivery<'a, C> {
    pub consumer: &'a C,
    pub entry: LogEntry,
    pub mode: HandoffMode,
}

impl<'a, C> View for Delivery<'a, C> {
    type V = Handoff<C>;

    open spec fn view(&self) -> Handoff<C> {
        Handoff { consumer: *self.consumer, entry: self.entry@, mode: self.mode }
    }
}

/// The bridge. `C` is the type of the consumer handle; the bridge stores the
/// handle and gives it back with each hand-off, and never calls it.
pub struct LogBridge<C> {
    policy: FilterPolicy,
    installed: bool,
    consumer: Option<C>,
}

impl<C> View for LogBridge<C> {
    type V = BridgeState<C>;

    closed spec fn view(&self) -> BridgeState<C> {
        BridgeState { namespace: self.policy@, installed: self.installed, consumer: self.consumer }
    }
}

impl<C> LogBridge<C> {
    #[verifier::type_invariant]
    spec fn inv(self) -> bool {
        self.consumer is Some ==> self.installed
    }

    /// A bridge with the given filter policy, not installed and without a
    /// consumer.
    pub fn new(policy: FilterPolicy) -> (bridge: LogBridge<C>)
        ensures
            bridge@ == BridgeState::<C>::fresh(policy@),
            bridge@.wf(),
    {
        LogBridge { policy, installed: false, consumer: None }
    }

    /// Installs the bridge. Only the first call has an effect; a later call
    /// returns `AlreadyInitialized`, which callers may ignore.
    pub fn install(&mut self) -> (result: Result<(), BridgeError>)
        ensures
            (final(self)@, result) == old(self)@.install(),
            final(self)@.wf(),
    {
        proof {
            use_type_invariant(&*self);
        }
        if self.installed {
            Err(BridgeError::AlreadyInitialized)
        } else {
            self.installed = true;
            Ok(())
        }
    }

    /// Stores `handle` as the current consumer, in place of any earlier one.
    /// `handle` is `None` where the caller could not make a usable handle of
    /// what it was given.
    pub fn register(&mut self, handle: Option<C>) -> (result: Result<(), BridgeError>)
        ensures
            (final(self)@, result) == old(self)@.register(handle),
            final(self)@.wf(),
    {
        proof {
            use_type_invariant(&*self);
        }
        if !self.installed {
            return Err(BridgeError::NotInitialized);
        }
        match handle {
            None => Err(BridgeError::InvalidCallback),
            Some(consumer) => {
                self.consumer = Some(consumer);
                Ok(())
            },
        }
    }

    /// Whether the filter policy forwards a record of this target and level.
    pub fn enabled(&self, target: &str, level: Level) -> (forwarded: bool)
        ensures
            forwarded == self@.admits(target@, level),
    {
        self.policy.enabled(target, level)
    }

    /// Decides what becomes of `record`: the hand-off to perform, or `None`
    /// where the record is filtered out or no consumer is registered. The
    /// bridge is left as it is.
    pub fn emit<'a>(&'a self, record: &LogRecord) -> (delivery: Option<Delivery<'a, C>>)
        ensures
            match delivery {
                Some(d) => self@.emit(record@) == Some(d@),
                None => self@.emit(record@) is None,
            },
    {
        if !self.policy.enabled(record.target(), record.level()) {
            return None;
        }
        match &self.consumer {
            Some(consumer) => Some(
                Delivery { consumer, entry: record.to_entry(), mode: HandoffMode::Blocking },
            ),
            None => None,
        }
    }

    /// Whether `install` has been called.
    pub fn is_installed(&self) -> (installed: bool)
        ensures
            installed == self@.installed,
            self@.wf(),
    {
        proof {
            use_type_invariant(self);
        }
        self.installed
    }

    /// Whether a consumer is registered.
    pub fn has_consumer(&self) -> (registered: bool)
        ensures
            registered == self@.consumer is Some,
            self@.wf(),
    {
        proof {
            use_type_invariant(self);
        }
        self.consumer.is_some()
    }

    /// The namespace of the filter policy.
    pub fn namespace(&self) -> (namespace: &str)
        ensures
            namespace@ == self@.namespace,
    {
        self.policy.namespace()
    }

    /// The least severe level that the logging facade is to let through.
    pub fn max_level(&self) -> (level: Option<Level>)
        ensures
            level == self@.max_level(),
    {
        if self.installed {
            Some(Level::Trace)
        } else {
            None
        }
    }
}

/// Turns the consumer's answer to a hand-off into the bridge's report: a
/// consumer that did not accept the record has failed, and the failure is
/// neither retried nor rerouted.
pub fn acknowledge(accepted: bool) -> (result: Result<(), BridgeError>)
    ensures
        result == handoff_outcome(accepted),
{
    if accepted {
        Ok(())
    } else {
        Err(BridgeError::ConsumerFailure)
    }
}

} // verus!
