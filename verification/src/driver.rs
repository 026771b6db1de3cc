//! The polling driver: sequences the tag reader's protocol requests.
//!
//! The driver is a state machine. It starts in a one-time initialization
//! phase — a security-module configuration request whose failure is logged
//! but not fatal, then a target-detection request whose outcome is ignored —
//! and then stays forever in the steady-state polling phase, reading one
//! fixed tag page per cycle. The caller performs each requested exchange on
//! the bus and hands the outcome back to `handle_outcome`, which classifies
//! it and says what to report and how long to pause before the next cycle.

use vstd::prelude::*;

verus! {

/// The page index that every steady-state cycle reads.
pub const READ_PAGE_INDEX: u8 = 10;

/// Expected response length of a page read: a status byte and tag data.
pub const READ_PAGE_RESPONSE_LEN: usize = 17;

/// Timeout of a page-read request, in microseconds.
pub const READ_TIMEOUT_MICROS: u64 = 50_000;

/// Expected response length of the configuration request.
pub const CONFIGURE_RESPONSE_LEN: usize = 0;

/// Timeout of the configuration request, in microseconds.
pub const CONFIGURE_TIMEOUT_MICROS: u64 = 50_000;

/// Expected response length of the target-detection request.
pub const DETECT_RESPONSE_LEN: usize = 7;

/// Timeout of the target-detection request, in microseconds.
pub const DETECT_TIMEOUT_MICROS: u64 = 1_000_000;

/// The response status byte that signals a successful page read; any other
/// status byte means "no new data" and is silently ignored.
pub const STATUS_SUCCESS: u8 = 0x00;

/// Number of payload bytes reported from a successful page read.
pub const PAGE_PAYLOAD_LEN: usize = 4;

/// The fixed pause between steady-state cycles, in milliseconds.
pub const INTER_CYCLE_DELAY_MS: u32 = 500;

/// Which protocol command the caller should issue. The wire encoding of each
/// command belongs to the protocol collaborator, not to this crate.
#[derive(Clone, Copy, Debug, PartialEq, Eq, Structural)]
pub enum RequestKind {
    /// Configure the reader's security module for normal operation, no IRQ pin.
    ConfigureSam,
    /// Detect one nearby tag, priming the reader's internal state.
    ListTarget,
    /// Read the tag page with the given index.
    ReadPage(u8),
}

/// One protocol exchange for the caller to perform: the command, the expected
/// response length, and the timeout to arm for the exchange.
#[derive(Clone, Copy, Debug, PartialEq, Eq, Structural)]
pub struct PollRequest {
    /// The command to issue.
    pub kind: RequestKind,
    /// How many response bytes the protocol collaborator must return.
    pub expected_len: usize,
    /// The request's timeout, in microseconds.
    pub timeout_micros: u64,
}

/// A failed protocol exchange: a bus-level error or a timeout. The caller
/// keeps the collaborator's own error value for its log; the driver only
/// classifies the failure.
#[derive(Clone, Copy, Debug, PartialEq, Eq, Structural)]
pub struct ProtocolError;

/// What the caller should report about one handled outcome.
#[derive(Debug, PartialEq, Eq)]
pub enum Report {
    /// A page was read: these payload bytes are the news to publish.
    PagePayload(Vec<u8>),
    /// The startup configuration request failed; startup continues anyway.
    ConfigurationFailed,
    /// A polling request failed; the next cycle retries it.
    RequestFailed,
    /// Nothing to report.
    Quiet,
}

/// The caller's marching orders after one handled outcome.
#[derive(Debug, PartialEq, Eq)]
pub struct CycleStep {
    /// What to report to the log.
    pub report: Report,
    /// How long to pause before the next cycle, in milliseconds.
    pub delay_ms: u32,
}

/// The startup phase's two steps.
#[derive(Clone, Copy, Debug, PartialEq, Eq, Structural)]
pub enum InitStep {
    /// Configuring the reader's security module.
    Configure,
    /// Priming the reader with one target detection.
    Prime,
}

/// The driver's state: a one-time initialization phase, then the terminal
/// steady-state polling phase.
#[derive(Clone, Copy, Debug, PartialEq, Eq, Structural)]
pub enum DriverState {
    /// The startup sequence, entered once and never re-entered.
    Initializing(InitStep),
    /// The steady-state polling loop; no outcome ever leaves this state.
    Polling,
}

/// The protocol exchange the driver issues in state `s`.
pub open spec fn spec_request_for(s: DriverState) -> PollRequest {
    match s {
        DriverState::Initializing(InitStep::Configure) => PollRequest {
            kind: RequestKind::ConfigureSam,
            expected_len: CONFIGURE_RESPONSE_LEN,
            timeout_micros: CONFIGURE_TIMEOUT_MICROS,
        },
        DriverState::Initializing(InitStep::Prime) => PollRequest {
            kind: RequestKind::ListTarget,
            expected_len: DETECT_RESPONSE_LEN,
            timeout_micros: DETECT_TIMEOUT_MICROS,
        },
        DriverState::Polling => PollRequest {
            kind: RequestKind::ReadPage(READ_PAGE_INDEX),
            expected_len: READ_PAGE_RESPONSE_LEN,
            timeout_micros: READ_TIMEOUT_MICROS,
        },
    }
}

/// The state after one handled outcome. The transition does not depend on the
/// outcome at all: startup proceeds even past a failed configuration, and no
/// failure ever leaves the polling state.
pub open spec fn spec_next_state(s: DriverState) -> DriverState {
    match s {
        DriverState::Initializing(InitStep::Configure) => DriverState::Initializing(
            InitStep::Prime,
        ),
        DriverState::Initializing(InitStep::Prime) => DriverState::Polling,
        DriverState::Polling => DriverState::Polling,
    }
}

/// The pause after one handled outcome: the fixed inter-cycle delay between
/// steady-state cycles, none during startup.
pub open spec fn spec_delay_ms(s: DriverState) -> u32 {
    match s {
        DriverState::Initializing(_) => 0,
        DriverState::Polling => INTER_CYCLE_DELAY_MS,
    }
}

/// The polling driver. It owns nothing but its phase; the caller owns the bus
/// and performs the exchanges the driver asks for.
pub struct PollingDriver {
    state: DriverState,
}

impl View for PollingDriver {
    type V = DriverState;

    closed spec fn view(&self) -> DriverState {
        self.state
    }
}

impl PollingDriver {
    /// A fresh driver, about to run the startup sequence.
    pub fn new() -> (d: Self)
        ensures
            d@ == DriverState::Initializing(InitStep::Configure),
    {
        PollingDriver { state: DriverState::Initializing(InitStep::Configure) }
    }

    /// The protocol exchange to perform now. Until the outcome is handed to
    /// `handle_outcome` the driver does not move, so a failed cycle's retry
    /// asks for the identical exchange.
    pub fn next_request(&self) -> (r: PollRequest)
        ensures
            r == spec_request_for(self@),
    {
        match self.state {
            DriverState::Initializing(InitStep::Configure) => PollRequest {
                kind: RequestKind::ConfigureSam,
                expected_len: CONFIGURE_RESPONSE_LEN,
                timeout_micros: CONFIGURE_TIMEOUT_MICROS,
            },
            DriverState::Initializing(InitStep::Prime) => PollRequest {
                kind: RequestKind::ListTarget,
                expected_len: DETECT_RESPONSE_LEN,
                timeout_micros: DETECT_TIMEOUT_MICROS,
            },
            DriverState::Polling => PollRequest {
                kind: RequestKind::ReadPage(READ_PAGE_INDEX),
                expected_len: READ_PAGE_RESPONSE_LEN,
                timeout_micros: READ_TIMEOUT_MICROS,
            },
        }
    }

    /// Classifies the outcome of the exchange that `next_request` asked for,
    /// advances the driver, and says what to report and how long to pause.
    ///
    /// During startup, a failed configuration is reported but startup
    /// continues, and the priming detection's outcome is ignored outright.
    /// In the polling phase a response whose status byte is `STATUS_SUCCESS`
    /// yields its four payload bytes; any other status byte is silently
    /// ignored; and a failed exchange is reported without leaving the polling
    /// phase — the next cycle retries.
    pub fn handle_outcome(&mut self, outcome: Result<Vec<u8>, ProtocolError>) -> (step: CycleStep)
        requires
            old(self)@ is Polling && outcome is Ok ==> outcome->Ok_0@.len()
                == READ_PAGE_RESPONSE_LEN,
        ensures
            final(self)@ == spec_next_state(old(self)@),
            step.delay_ms == spec_delay_ms(old(self)@),
            match old(self)@ {
                DriverState::Initializing(InitStep::Configure) => if outcome is Ok {
                    step.report == Report::Quiet
                } else {
                    step.report == Report::ConfigurationFailed
                },
                DriverState::Initializing(InitStep::Prime) => step.report == Report::Quiet,
                DriverState::Polling => match outcome {
                    Ok(resp) => if resp@[0] == STATUS_SUCCESS {
                        step.report matches Report::PagePayload(p) && p@ == resp@.subrange(
                            1,
                            1 + PAGE_PAYLOAD_LEN as int,
                        )
                    } else {
                        step.report == Report::Quiet
                    },
                    Err(_) => step.report == Report::RequestFailed,
                },
            },
    {
        let report: Report;
        let delay_ms: u32;
        match self.state {
            DriverState::Initializing(InitStep::Configure) => {
                report = match outcome {
                    Ok(_) => Report::Quiet,
                    Err(_) => Report::ConfigurationFailed,
                };
                delay_ms = 0;
                self.state = DriverState::Initializing(InitStep::Prime);
            },
            DriverState::Initializing(InitStep::Prime) => {
                report = Report::Quiet;
                delay_ms = 0;
                self.state = DriverState::Polling;
            },
            DriverState::Polling => {
                report = match outcome {
                    Ok(resp) => {
                        if resp[0] == STATUS_SUCCESS {
                            let mut payload: Vec<u8> = Vec::new();
                            payload.push(resp[1]);
                            payload.push(resp[2]);
                            payload.push(resp[3]);
                            payload.push(resp[4]);
                            proof {
                                assert(payload@ =~= resp@.subrange(1, 1 + PAGE_PAYLOAD_LEN as int));
                            }
                            Report::PagePayload(payload)
                        } else {
                            Report::Quiet
                        }
                    },
                    Err(_) => Report::RequestFailed,
                };
                delay_ms = INTER_CYCLE_DELAY_MS;
            },
        }
        CycleStep { report, delay_ms }
    }
}

/// Law: a failed polling cycle changes nothing — the driver stays in the
/// polling state, so the very next cycle issues the identical request.
pub proof fn lemma_failed_poll_retries_same_request(s: DriverState)
    requires
        s is Polling,
    ensures
        spec_next_state(s) == s,
        spec_request_for(spec_next_state(s)) == spec_request_for(s),
{
}

/// Law: startup always reaches the steady-state polling phase after exactly
/// two handled outcomes, whatever those outcomes were — in particular, a
/// failed configuration request does not stop startup.
pub proof fn lemma_startup_reaches_polling()
    ensures
        spec_next_state(spec_next_state(DriverState::Initializing(InitStep::Configure)))
            == DriverState::Polling,
{
}

} // verus!
