//! Whether the printer is safe to use: the decisions of the readiness check,
//! one step at a time. The caller runs the loop: it performs the action that a
//! step asks for (a query, a wait, a question to the user, a firmware restart)
//! and hands what came back to the next step.
use vstd::prelude::*;

use crate::client::ClientError;
use crate::text::{join_strings, seq_join, texts};
use crate::PrinterState;

verus! {

/// How long the printer may take to become ready, in seconds.
pub const PRINTER_READY_TIMEOUT: u64 = 240;

/// How many firmware restarts the check may ask for.
pub const MAX_RESTARTS: u8 = 3;

/// How long to wait before asking again while the printer starts up, in milliseconds.
pub const STARTUP_POLL_MILLIS: u64 = 500;

/// The timeout in nanoseconds.
pub open spec fn timeout_nanos() -> int {
    PRINTER_READY_TIMEOUT * 1_000_000_000
}

/// The verdict of the readiness check.
#[derive(Debug)]
pub enum PrinterSafetyStatus {
    /// The printer is ready or on standby.
    Ready,
    /// The printer is in a state that suggests a print may still be on the bed.
    Maybe3DPrintInsidePrinter(PrinterState),
    /// Klipper is in error, with its warnings, and the user declined a restart.
    KlipperError(String),
    /// Klipper is shut down and the user declined a restart.
    Shutdown,
    /// The printer did not become ready in time.
    TimeoutReached,
    /// The firmware was restarted as often as allowed and the printer is still not ready.
    TooManyRestarts,
    /// Asking the server failed.
    OtherError(ClientError),
}

/// Why the check offers a firmware restart.
#[derive(Debug)]
pub enum RestartCause {
    /// Klipper is in error; the text joins its warnings.
    KlipperError(String),
    /// Klipper is shut down.
    Shutdown,
}

/// What the caller does next.
#[derive(Debug)]
pub enum ReadinessStep {
    /// Stop with this verdict.
    Finish(PrinterSafetyStatus),
    /// Ask the server for its information and hand the printer state to `on_state`.
    QueryServerInfo,
    /// Ask the server for its information again and hand its warnings to `on_warnings`.
    QueryWarnings,
    /// Wait this many milliseconds, then start a new round.
    Wait { millis: u64 },
    /// Start a new round at once.
    Retry,
    /// Ask the user whether to restart the firmware and hand the answer to `on_answer`.
    PromptRestart(RestartCause),
    /// Restart the firmware, whatever comes of it, then call `on_restarted`.
    RestartFirmware,
}

/// The verdict when the user declines a restart.
pub open spec fn declined(cause: RestartCause) -> PrinterSafetyStatus {
    match cause {
        RestartCause::KlipperError(message) => PrinterSafetyStatus::KlipperError(message),
        RestartCause::Shutdown => PrinterSafetyStatus::Shutdown,
    }
}

/// The step that follows the printer state reported by the server, after
/// `restarts` firmware restarts.
pub open spec fn state_step(restarts: nat, state: Result<PrinterState, ClientError>) -> ReadinessStep {
    match state {
        Err(e) => ReadinessStep::Finish(PrinterSafetyStatus::OtherError(e)),
        Ok(s) => match s {
            PrinterState::Ready | PrinterState::Standby => ReadinessStep::Finish(
                PrinterSafetyStatus::Ready,
            ),
            PrinterState::Startup => ReadinessStep::Wait { millis: STARTUP_POLL_MILLIS },
            PrinterState::Paused
            | PrinterState::Printing
            | PrinterState::Complete
            | PrinterState::Cancelled => ReadinessStep::Finish(
                PrinterSafetyStatus::Maybe3DPrintInsidePrinter(s),
            ),
            PrinterState::Error => ReadinessStep::QueryWarnings,
            PrinterState::Shutdown => if restarts >= MAX_RESTARTS {
                ReadinessStep::Finish(PrinterSafetyStatus::TooManyRestarts)
            } else {
                ReadinessStep::PromptRestart(RestartCause::Shutdown)
            },
            PrinterState::Disconnected => ReadinessStep::Retry,
        },
    }
}

/// The text that describes Klipper's error: its warnings joined with `, `,
/// or `Unknown error` when they could not be had.
pub open spec fn warnings_text(warnings: Result<Vec<String>, ClientError>) -> Seq<char> {
    match warnings {
        Ok(w) => seq_join(texts(w@), ", "@),
        Err(_) => "Unknown error"@,
    }
}

/// The firmware restarts asked for so far, with the bound that holds of them.
pub struct ReadinessCheck {
    restarts: u8,
}

impl ReadinessCheck {
    #[verifier::type_invariant]
    spec fn within_limit(self) -> bool {
        self.restarts <= MAX_RESTARTS
    }

    /// The number of firmware restarts asked for so far.
    pub closed spec fn count(self) -> nat {
        self.restarts as nat
    }

    /// A check that has restarted nothing yet.
    pub fn new() -> (c: Self)
        ensures
            c.count() == 0,
    {
        ReadinessCheck { restarts: 0 }
    }

    /// The number of firmware restarts asked for so far; never more than the limit.
    pub fn restarts(&self) -> (n: u8)
        ensures
            n == self.count(),
            n <= MAX_RESTARTS,
    {
        proof {
            use_type_invariant(self);
        }
        self.restarts
    }

    /// The start of a round: stop once more than the timeout has passed since
    /// the check began, else ask for the printer state.
    pub fn begin_round(&self, elapsed_nanos: u128) -> (r: ReadinessStep)
        ensures
            elapsed_nanos > timeout_nanos() ==> r == ReadinessStep::Finish(
                PrinterSafetyStatus::TimeoutReached,
            ),
            elapsed_nanos <= timeout_nanos() ==> r == ReadinessStep::QueryServerInfo,
    {
        let limit: u128 = (PRINTER_READY_TIMEOUT as u128) * 1_000_000_000u128;
        if elapsed_nanos > limit {
            ReadinessStep::Finish(PrinterSafetyStatus::TimeoutReached)
        } else {
            ReadinessStep::QueryServerInfo
        }
    }

    /// The step that follows the printer state the server reported, or the
    /// failure to get it.
    pub fn on_state(&self, state: Result<PrinterState, ClientError>) -> (r: ReadinessStep)
        ensures
            r == state_step(self.count(), state),
            state == Ok::<PrinterState, ClientError>(PrinterState::Error) ==> r
                == ReadinessStep::QueryWarnings,
            r == ReadinessStep::Finish(PrinterSafetyStatus::TooManyRestarts) ==> self.count()
                >= MAX_RESTARTS,
    {
        proof {
            use_type_invariant(self);
        }
        match state {
            Err(e) => ReadinessStep::Finish(PrinterSafetyStatus::OtherError(e)),
            Ok(s) => match s {
                PrinterState::Ready | PrinterState::Standby => ReadinessStep::Finish(
                    PrinterSafetyStatus::Ready,
                ),
                PrinterState::Startup => ReadinessStep::Wait { millis: STARTUP_POLL_MILLIS },
                PrinterState::Paused
                | PrinterState::Printing
                | PrinterState::Complete
                | PrinterState::Cancelled => ReadinessStep::Finish(
                    PrinterSafetyStatus::Maybe3DPrintInsidePrinter(s),
                ),
                PrinterState::Error => ReadinessStep::QueryWarnings,
                PrinterState::Shutdown => if self.restarts >= MAX_RESTARTS {
                    ReadinessStep::Finish(PrinterSafetyStatus::TooManyRestarts)
                } else {
                    ReadinessStep::PromptRestart(RestartCause::Shutdown)
                },
                PrinterState::Disconnected => ReadinessStep::Retry,
            },
        }
    }

    /// The step that follows Klipper's warnings, asked for once it reported an
    /// error: too many restarts already, or the offer of one more.
    pub fn on_warnings(&self, warnings: Result<Vec<String>, ClientError>) -> (r: ReadinessStep)
        ensures
            self.count() >= MAX_RESTARTS ==> r == ReadinessStep::Finish(
                PrinterSafetyStatus::TooManyRestarts,
            ),
            self.count() < MAX_RESTARTS ==> (r matches ReadinessStep::PromptRestart(
                RestartCause::KlipperError(message),
            ) && message@ == warnings_text(warnings)),
    {
        let message = match &warnings {
            Ok(w) => join_strings(w, ", "),
            Err(_) => String::from_str("Unknown error"),
        };
        if self.restarts >= MAX_RESTARTS {
            ReadinessStep::Finish(PrinterSafetyStatus::TooManyRestarts)
        } else {
            ReadinessStep::PromptRestart(RestartCause::KlipperError(message))
        }
    }

    /// The step that follows the user's answer to the offer of a restart.
    pub fn on_answer(&self, cause: RestartCause, yes: bool) -> (r: ReadinessStep)
        ensures
            yes ==> r == ReadinessStep::RestartFirmware,
            !yes ==> r == ReadinessStep::Finish(declined(cause)),
    {
        if yes {
            ReadinessStep::RestartFirmware
        } else {
            match cause {
                RestartCause::KlipperError(message) => ReadinessStep::Finish(
                    PrinterSafetyStatus::KlipperError(message),
                ),
                RestartCause::Shutdown => ReadinessStep::Finish(PrinterSafetyStatus::Shutdown),
            }
        }
    }

    /// Counts a firmware restart that was asked for; a new round follows.
    pub fn on_restarted(&mut self) -> (r: ReadinessStep)
        requires
            old(self).count() < MAX_RESTARTS,
        ensures
            final(self).count() == old(self).count() + 1,
            r == ReadinessStep::Retry,
    {
        self.restarts = self.restarts + 1;
        ReadinessStep::Retry
    }
}

/// The check finishes with `Ready` exactly when the server reports the
/// printer ready or on standby.
pub proof fn law_ready_only_when_ready(restarts: nat, state: Result<PrinterState, ClientError>)
    ensures
        state_step(restarts, state) == ReadinessStep::Finish(PrinterSafetyStatus::Ready) <==> (
        state == Ok::<PrinterState, ClientError>(PrinterState::Ready) || state == Ok::<
            PrinterState,
            ClientError,
        >(PrinterState::Standby)),
{
}

/// A firmware restart is offered only while fewer restarts than the limit
/// have been asked for; at the limit, an error or a shutdown ends the check.
pub proof fn law_restart_offered_below_limit(
    restarts: nat,
    state: Result<PrinterState, ClientError>,
)
    ensures
        state_step(restarts, state) is PromptRestart ==> restarts < MAX_RESTARTS,
        restarts >= MAX_RESTARTS && state == Ok::<PrinterState, ClientError>(
            PrinterState::Shutdown,
        ) ==> state_step(restarts, state) == ReadinessStep::Finish(
            PrinterSafetyStatus::TooManyRestarts,
        ),
{
}

/// How many restarts were asked for matters only to a shutdown: for every
/// other report (an error among them) the step is the same whatever the
/// count.
pub proof fn law_state_step_ignores_count_but_for_shutdown(
    a: nat,
    b: nat,
    state: Result<PrinterState, ClientError>,
)
    requires
        state != Ok::<PrinterState, ClientError>(PrinterState::Shutdown),
    ensures
        state_step(a, state) == state_step(b, state),
{
}

/// An error report always asks for Klipper's warnings, whatever the count;
/// only then does the count decide, between one more restart offer (below
/// the limit) and giving up (at the limit).
pub proof fn law_error_asks_for_warnings(restarts: nat)
    ensures
        state_step(restarts, Ok::<PrinterState, ClientError>(PrinterState::Error))
            == ReadinessStep::QueryWarnings,
{
}

/// The check gives up on too many restarts exactly when the printer is shut
/// down and the count has reached the limit; a shutdown below the limit
/// offers a restart.
pub proof fn law_too_many_restarts_only_at_limit(restarts: nat, state: Result<PrinterState, ClientError>)
    ensures
        state_step(restarts, state) == ReadinessStep::Finish(PrinterSafetyStatus::TooManyRestarts)
            <==> (restarts >= MAX_RESTARTS && state == Ok::<PrinterState, ClientError>(
            PrinterState::Shutdown,
        )),
        restarts < MAX_RESTARTS && state == Ok::<PrinterState, ClientError>(PrinterState::Shutdown)
            ==> state_step(restarts, state) == ReadinessStep::PromptRestart(RestartCause::Shutdown),
{
}

/// The verdicts carry what they are about: a possible print names the state
/// the server reported, which is one of the print states; a failed query
/// carries its failure, and only a failed query ends so.
pub proof fn law_verdicts_carry_their_cause(restarts: nat, state: Result<PrinterState, ClientError>)
    ensures
        state_step(restarts, state) matches ReadinessStep::Finish(
            PrinterSafetyStatus::Maybe3DPrintInsidePrinter(s),
        ) ==> state == Ok::<PrinterState, ClientError>(s) && (s == PrinterState::Paused || s
            == PrinterState::Printing || s == PrinterState::Complete || s
            == PrinterState::Cancelled),
        state matches Err(e) ==> state_step(restarts, state) == ReadinessStep::Finish(
            PrinterSafetyStatus::OtherError(e),
        ),
        state_step(restarts, state) matches ReadinessStep::Finish(PrinterSafetyStatus::OtherError(e))
            ==> state == Err::<PrinterState, ClientError>(e),
        state == Ok::<PrinterState, ClientError>(PrinterState::Startup) ==> state_step(
            restarts,
            state,
        ) == (ReadinessStep::Wait { millis: STARTUP_POLL_MILLIS }),
        state == Ok::<PrinterState, ClientError>(PrinterState::Disconnected) ==> state_step(
            restarts,
            state,
        ) == ReadinessStep::Retry,
{
}

} // verus!
