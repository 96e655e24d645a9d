//! The hook aggregator.
//!
//! A passive collector for the acknowledgements a remote operation runner
//! sends back: every success and every error is appended to its own ordered
//! log, with no deduplication, no bound and no correlation to outstanding
//! requests. The payloads are opaque here, so the aggregator is generic over
//! the two record types. It exists to let other components' asynchronous
//! behavior be inspected after the fact.

use vstd::prelude::*;

verus! {

/// Configuration of the aggregator: the address of the remote operation
/// runner expected to push acknowledgements.
#[derive(Debug, Clone, PartialEq)]
pub struct Config {
    pub puppeteer_addr: String,
}

/// The aggregator: an optional configuration and the two append-only logs,
/// each in arrival order.
#[derive(Debug)]
pub struct HookTester<S, E> {
    pub config: Option<Config>,
    pub answers: Vec<S>,
    pub errors: Vec<E>,
}

/// The mathematical value of the two logs.
#[verifier::ext_equal]
pub struct LogsView<S, E> {
    pub answers: Seq<S>,
    pub errors: Seq<E>,
}

impl<S, E> View for HookTester<S, E> {
    type V = LogsView<S, E>;

    open spec fn view(&self) -> LogsView<S, E> {
        LogsView { answers: self.answers@, errors: self.errors@ }
    }
}

/// The logs after a success acknowledgement is recorded.
pub open spec fn spec_record_success<S, E>(logs: LogsView<S, E>, record: S) -> LogsView<S, E> {
    LogsView { answers: logs.answers.push(record), errors: logs.errors }
}

/// The logs after an error acknowledgement is recorded.
pub open spec fn spec_record_error<S, E>(logs: LogsView<S, E>, record: E) -> LogsView<S, E> {
    LogsView { answers: logs.answers, errors: logs.errors.push(record) }
}

impl<S, E> HookTester<S, E> {
    /// A fresh aggregator: unconfigured, both logs empty.
    pub fn new() -> (t: HookTester<S, E>)
        ensures
            t.config is None,
            t@.answers =~= Seq::<S>::empty(),
            t@.errors =~= Seq::<E>::empty(),
    {
        HookTester { config: Option::None, answers: Vec::new(), errors: Vec::new() }
    }

    /// Stores the address permitted to push acknowledgements. The logs are
    /// untouched.
    pub fn set_config(&mut self, config: Config)
        ensures
            final(self).config == Some(config),
            final(self)@ == old(self)@,
    {
        self.config = Option::Some(config);
    }

    /// Appends a success acknowledgement to its log; nothing else changes
    /// and no earlier entry is touched.
    pub fn record_success(&mut self, record: S)
        ensures
            final(self)@ =~= spec_record_success(old(self)@, record),
            final(self).config == old(self).config,
    {
        self.answers.push(record);
    }

    /// Appends an error acknowledgement to its log; nothing else changes
    /// and no earlier entry is touched.
    pub fn record_error(&mut self, record: E)
        ensures
            final(self)@ =~= spec_record_error(old(self)@, record),
            final(self).config == old(self).config,
    {
        self.errors.push(record);
    }

    /// The full success log, in arrival order.
    pub fn answers(&self) -> (r: &Vec<S>)
        ensures
            r@ == self@.answers,
    {
        &self.answers
    }

    /// The full error log, in arrival order.
    pub fn errors(&self) -> (r: &Vec<E>)
        ensures
            r@ == self@.errors,
    {
        &self.errors
    }
}

/// Law: starting from empty logs, recording a success `a`, an error `b` and
/// a success `c` leaves the success log `[a, c]` in that order and the error
/// log `[b]`.
pub proof fn law_hook_log_order<S, E>(logs: LogsView<S, E>, a: S, b: E, c: S)
    requires
        logs.answers == Seq::<S>::empty(),
        logs.errors == Seq::<E>::empty(),
    ensures
        ({
            let after = spec_record_success(spec_record_error(spec_record_success(logs, a), b), c);
            after.answers =~= seq![a, c] && after.errors =~= seq![b]
        }),
{
}

} // verus!
