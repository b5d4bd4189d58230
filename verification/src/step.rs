//! How a builder and the owner of the underlying resource take turns.
//!
//! The builder never calls the resource. An operation on the builder answers
//! with a [`Step`]: it is done, it failed, or a [`Command`] is to be carried
//! out on the resource. In the last case the step names a [`Continuation`];
//! the caller carries the command out and hands the continuation back, with
//! the status that the resource answered, to `Builder::resume`, which
//! answers with the next step.

use crate::error::Error;
use crate::native::Command;
use crate::native::CommandView;
use vstd::prelude::*;

verus! {

/// What remains of an operation once the call it asked for has been made.
#[derive(Debug, PartialEq, Eq)]
pub enum Continuation<'a, H> {
    /// Nothing: the operation succeeds or fails with the call.
    Finish,
    /// Nothing, and the call registered certificate chains: if it failed,
    /// the operation fails with a certificate error.
    FinishCertificate,
    /// The side record is attached; the client hello callback is next put
    /// into non-blocking mode.
    SelectClientHelloMode,
    /// OCSP stapling was requested; the builder takes note that it is on.
    MarkOcsp,
    /// The OCSP data is set; OCSP stapling is requested next.
    RequestOcsp,
    /// The trust location is set; unless OCSP stapling was asked for, the
    /// status request that this switched on is switched off again.
    SuppressOcsp,
    /// The protocols before `next` are in the list; the others follow.
    AppendProtocols { protocols: &'a [&'a [u8]], next: usize },
    /// Session tickets are on; the handler is stored and its trampoline
    /// installed.
    InstallSessionTicketHandler { handler: H },
    /// Session tickets are on; the key is added.
    AddTicketKey { name: &'a [u8], key: &'a [u8], intro_time: u64 },
}

/// A [`Continuation`] as mathematics.
pub enum ContinuationView<H> {
    Finish,
    FinishCertificate,
    SelectClientHelloMode,
    MarkOcsp,
    RequestOcsp,
    SuppressOcsp,
    AppendProtocols { protocols: Seq<Seq<u8>>, next: usize },
    InstallSessionTicketHandler { handler: H },
    AddTicketKey { name: Seq<u8>, key: Seq<u8>, intro_time: u64 },
}

/// The contents of a list of protocol names.
pub open spec fn protocol_names(protocols: Seq<&[u8]>) -> Seq<Seq<u8>> {
    protocols.map_values(|protocol: &[u8]| protocol@)
}

impl<'a, H> View for Continuation<'a, H> {
    type V = ContinuationView<H>;

    open spec fn view(&self) -> ContinuationView<H> {
        match *self {
            Continuation::Finish => ContinuationView::Finish,
            Continuation::FinishCertificate => ContinuationView::FinishCertificate,
            Continuation::SelectClientHelloMode => ContinuationView::SelectClientHelloMode,
            Continuation::MarkOcsp => ContinuationView::MarkOcsp,
            Continuation::RequestOcsp => ContinuationView::RequestOcsp,
            Continuation::SuppressOcsp => ContinuationView::SuppressOcsp,
            Continuation::AppendProtocols { protocols, next } => ContinuationView::AppendProtocols {
                protocols: protocol_names(protocols@),
                next,
            },
            Continuation::InstallSessionTicketHandler { handler } => ContinuationView::InstallSessionTicketHandler {
                handler,
            },
            Continuation::AddTicketKey { name, key, intro_time } => ContinuationView::AddTicketKey {
                name: name@,
                key: key@,
                intro_time,
            },
        }
    }
}

/// The answer of an operation on a builder.
#[must_use]
#[derive(Debug, PartialEq, Eq)]
pub enum Step<'a, H> {
    /// The operation is complete.
    Done,
    /// `command` is to be carried out on the resource, and its outcome
    /// handed to `Builder::resume` together with `then`.
    Call { command: Command<'a>, then: Continuation<'a, H> },
    /// The operation failed. The builder stays valid.
    Failed { error: Error },
}

/// A [`Step`] as mathematics.
pub enum StepView<H> {
    Done,
    Call { command: CommandView, then: ContinuationView<H> },
    Failed { error: Error },
}

impl<H> StepView<H> {
    /// The step that asks for `command` and for nothing after it.
    pub open spec fn call(command: CommandView) -> Self {
        StepView::Call { command, then: ContinuationView::Finish }
    }

    /// The step that turns an input down before any call is made.
    pub open spec fn invalid_input() -> Self {
        StepView::Failed { error: Error::spec_invalid_input() }
    }

    /// The step that asks for `command`, and for nothing after it, when
    /// `accepted` holds, and that turns the input down when it does not.
    pub open spec fn call_if(accepted: bool, command: CommandView) -> Self {
        if accepted {
            Self::call(command)
        } else {
            Self::invalid_input()
        }
    }
}

impl<'a, H> View for Step<'a, H> {
    type V = StepView<H>;

    open spec fn view(&self) -> StepView<H> {
        match *self {
            Step::Done => StepView::Done,
            Step::Call { command, then } => StepView::Call { command: command@, then: then@ },
            Step::Failed { error } => StepView::Failed { error },
        }
    }
}

impl<'a, H> Step<'a, H> {
    /// The step that asks for `command` and for nothing after it.
    pub fn call(command: Command<'a>) -> (step: Self)
        ensures
            step@ == StepView::<H>::call(command@),
    {
        Step::Call { command, then: Continuation::Finish }
    }

    /// The step that turns an input down before any call is made.
    pub fn invalid_input() -> (step: Self)
        ensures
            step@ == StepView::<H>::invalid_input(),
    {
        Step::Failed { error: Error::invalid_input() }
    }
}

/// The error of a call that failed with `code`, by what the call was for.
pub open spec fn failure<H>(then: ContinuationView<H>, code: i32) -> Error {
    match then {
        ContinuationView::FinishCertificate => Error::Certificate { code },
        _ => Error::spec_rejected(code),
    }
}

} // verus!
