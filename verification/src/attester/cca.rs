//! The Arm CCA attester: a bridge to the attestation device of the kernel.
//!
//! The device takes a fixed-layout request through one control call and
//! fills in a token. The bridge decides what is asked of the device and
//! what is made of its answer; opening the device, the control call and
//! closing are the driver's, one action at a time.

use vstd::prelude::*;
use crate::attester::PlatformMarkers;
use crate::encoding::{
    base64_fits,
    base64_standard,
    encode_base64,
    json_object,
    json_record,
    members_view,
};
use crate::error::{AgentError, ErrorKind, ErrorView};

verus! {

/// Path of the attestation device. Its presence marks a CCA host.
pub const CCA_DEVICE_PATH: &'static str = "/dev/cca_attestation";

/// Size of the challenge field of a request.
pub const CHALLENGE_SIZE: usize = 64;

/// Size of the token buffer of a request.
pub const TOKEN_BUFFER_SIZE: usize = 4096;

/// Whether the host has the CCA attestation device.
pub fn detect_platform(markers: &PlatformMarkers) -> (present: bool)
    ensures
        present == markers.cca,
{
    markers.cca
}

/// The record exchanged with the device through its control call.
///
/// The kernel writes `token` and `token_length`. Both are input from outside
/// and nothing is known of them here: `token_length` may exceed the buffer.
#[allow(non_camel_case_types)]
#[derive(Clone, Copy, Debug, PartialEq, Eq)]
pub struct cca_ioctl_request {
    pub challenge: [u8; CHALLENGE_SIZE],
    pub token: [u8; TOKEN_BUFFER_SIZE],
    pub token_length: u64,
}

/// Mathematical value of a [`cca_ioctl_request`].
pub struct RequestView {
    pub challenge: Seq<u8>,
    pub token: Seq<u8>,
    pub token_length: nat,
}

impl View for cca_ioctl_request {
    type V = RequestView;

    open spec fn view(&self) -> RequestView {
        RequestView {
            challenge: self.challenge@,
            token: self.token@,
            token_length: self.token_length as nat,
        }
    }
}

/// The challenge field for a caller's challenge: its first 64 bytes, with
/// zeros after them where it is shorter.
pub open spec fn challenge_field(challenge: Seq<u8>) -> Seq<u8> {
    Seq::new(
        CHALLENGE_SIZE as nat,
        |i: int|
            if i < challenge.len() {
                challenge[i]
            } else {
                0u8
            },
    )
}

/// The request sent to the device for a caller's challenge.
pub open spec fn request_for(challenge: Seq<u8>) -> RequestView {
    RequestView {
        challenge: challenge_field(challenge),
        token: Seq::new(TOKEN_BUFFER_SIZE as nat, |i: int| 0u8),
        token_length: 0,
    }
}

/// The failure for a token length that exceeds the token buffer.
pub open spec fn token_length_out_of_bounds() -> ErrorView {
    ErrorView {
        kind: ErrorKind::IoctlFailure,
        cause: "token length exceeds the token buffer"@,
    }
}

/// The token in a response: the first `token_length` bytes of the buffer,
/// where that many are in it.
pub open spec fn token_of(response: RequestView) -> Result<Seq<u8>, ErrorView> {
    if response.token_length <= TOKEN_BUFFER_SIZE {
        Ok(response.token.subrange(0, response.token_length as int))
    } else {
        Err(token_length_out_of_bounds())
    }
}

impl cca_ioctl_request {
    /// The request for `challenge`, with an empty token buffer.
    pub fn new(challenge: &[u8]) -> (request: Self)
        ensures
            request@ == request_for(challenge@),
    {
        let mut field = [0u8; CHALLENGE_SIZE];
        let mut i: usize = 0;
        while i < CHALLENGE_SIZE && i < challenge.len()
            invariant
                i <= CHALLENGE_SIZE,
                i <= challenge@.len(),
                forall|k: int| 0 <= k < i ==> field@[k] == challenge@[k],
                forall|k: int| i <= k < CHALLENGE_SIZE ==> field@[k] == 0u8,
            decreases CHALLENGE_SIZE - i,
        {
            field[i] = challenge[i];
            i = i + 1;
        }
        let token = [0u8; TOKEN_BUFFER_SIZE];
        assert(field@ =~= challenge_field(challenge@));
        assert(token@ =~= Seq::new(TOKEN_BUFFER_SIZE as nat, |i: int| 0u8));
        cca_ioctl_request { challenge: field, token, token_length: 0 }
    }

    /// The token that the device reported. The length is checked against
    /// the buffer before anything is read from it.
    pub fn token(&self) -> (token: Result<Vec<u8>, AgentError>)
        ensures
            outcome_view(token) == token_of(self@),
    {
        if self.token_length > TOKEN_BUFFER_SIZE as u64 {
            return Err(
                AgentError::with_message(
                    ErrorKind::IoctlFailure,
                    "token length exceeds the token buffer",
                ),
            );
        }
        let length = self.token_length as usize;
        let mut token: Vec<u8> = Vec::new();
        let mut i: usize = 0;
        while i < length
            invariant
                i <= length <= TOKEN_BUFFER_SIZE,
                token@ == self.token@.subrange(0, i as int),
            decreases length - i,
        {
            token.push(self.token[i]);
            assert(token@ =~= self.token@.subrange(0, i + 1));
            i = i + 1;
        }
        Ok(token)
    }
}

/// Mathematical value of what an exchange with the device came to.
pub open spec fn outcome_view(outcome: Result<Vec<u8>, AgentError>) -> Result<Seq<u8>, ErrorView> {
    match outcome {
        Ok(token) => Ok(token@),
        Err(e) => Err(e@),
    }
}

/// Where an exchange with the device stands.
#[derive(Debug)]
pub enum BridgeState {
    /// Nothing was asked of the device yet.
    Idle { challenge: Vec<u8> },
    /// The device is being opened.
    Opening { challenge: Vec<u8> },
    /// The device is open and the control call was issued.
    Exchanging,
    /// The device is open, the exchange is over, and the device is being closed.
    Closing { outcome: Result<Vec<u8>, AgentError> },
}

/// What the driver reports back after an action.
#[derive(Debug)]
pub enum DeviceEvent {
    /// The exchange is to begin.
    Start,
    /// The device was opened.
    Opened,
    /// The device could not be opened.
    OpenFailed(String),
    /// The control call returned, with the record as the kernel left it.
    Responded(cca_ioctl_request),
    /// The control call failed.
    ExchangeFailed(String),
    /// The device was closed.
    Closed,
}

/// What the driver is to do next.
#[derive(Debug)]
pub enum DeviceAction {
    /// Open the device at [`CCA_DEVICE_PATH`].
    Open,
    /// Issue the control call with this record.
    Exchange(cca_ioctl_request),
    /// Close the device.
    Close,
}

/// The result of one step of the bridge.
#[derive(Debug)]
pub enum BridgeStep {
    /// The driver performs `action` and reports back to `state`.
    Continue { state: BridgeState, action: DeviceAction },
    /// The exchange is over.
    Finished(Result<Vec<u8>, AgentError>),
}

/// Mathematical value of a [`BridgeState`].
pub enum BridgeStateView {
    Idle { challenge: Seq<u8> },
    Opening { challenge: Seq<u8> },
    Exchanging,
    Closing { outcome: Result<Seq<u8>, ErrorView> },
}

/// Mathematical value of a [`DeviceEvent`].
pub enum DeviceEventView {
    Start,
    Opened,
    OpenFailed(Seq<char>),
    Responded(RequestView),
    ExchangeFailed(Seq<char>),
    Closed,
}

/// Mathematical value of a [`DeviceAction`].
pub enum DeviceActionView {
    Open,
    Exchange(RequestView),
    Close,
}

/// Mathematical value of a [`BridgeStep`].
pub enum BridgeStepView {
    Continue { state: BridgeStateView, action: DeviceActionView },
    Finished(Result<Seq<u8>, ErrorView>),
}

impl View for BridgeState {
    type V = BridgeStateView;

    open spec fn view(&self) -> BridgeStateView {
        match *self {
            BridgeState::Idle { challenge } => BridgeStateView::Idle { challenge: challenge@ },
            BridgeState::Opening { challenge } => BridgeStateView::Opening {
                challenge: challenge@,
            },
            BridgeState::Exchanging => BridgeStateView::Exchanging,
            BridgeState::Closing { outcome } => BridgeStateView::Closing {
                outcome: outcome_view(outcome),
            },
        }
    }
}

impl View for DeviceEvent {
    type V = DeviceEventView;

    open spec fn view(&self) -> DeviceEventView {
        match *self {
            DeviceEvent::Start => DeviceEventView::Start,
            DeviceEvent::Opened => DeviceEventView::Opened,
            DeviceEvent::OpenFailed(cause) => DeviceEventView::OpenFailed(cause@),
            DeviceEvent::Responded(response) => DeviceEventView::Responded(response@),
            DeviceEvent::ExchangeFailed(cause) => DeviceEventView::ExchangeFailed(cause@),
            DeviceEvent::Closed => DeviceEventView::Closed,
        }
    }
}

impl View for DeviceAction {
    type V = DeviceActionView;

    open spec fn view(&self) -> DeviceActionView {
        match *self {
            DeviceAction::Open => DeviceActionView::Open,
            DeviceAction::Exchange(request) => DeviceActionView::Exchange(request@),
            DeviceAction::Close => DeviceActionView::Close,
        }
    }
}

impl View for BridgeStep {
    type V = BridgeStepView;

    open spec fn view(&self) -> BridgeStepView {
        match *self {
            BridgeStep::Continue { state, action } => BridgeStepView::Continue {
                state: state@,
                action: action@,
            },
            BridgeStep::Finished(outcome) => BridgeStepView::Finished(outcome_view(outcome)),
        }
    }
}

/// The failure for a report about the exchange while the device was
/// still being opened.
pub open spec fn device_not_opened() -> ErrorView {
    ErrorView { kind: ErrorKind::DeviceUnavailable, cause: "the device was not opened"@ }
}

/// The failure for a report other than that of the control call while
/// the call was awaited.
pub open spec fn control_call_unanswered() -> ErrorView {
    ErrorView { kind: ErrorKind::IoctlFailure, cause: "the control call was not answered"@ }
}

/// What the control call came to, by the driver's report of it.
pub open spec fn exchange_outcome(event: DeviceEventView) -> Result<Seq<u8>, ErrorView> {
    match event {
        DeviceEventView::Responded(response) => token_of(response),
        DeviceEventView::ExchangeFailed(cause) => Err(
            ErrorView { kind: ErrorKind::IoctlFailure, cause },
        ),
        _ => Err(control_call_unanswered()),
    }
}

/// The transitions of the bridge.
///
/// The device is opened, asked once and closed; there is no second attempt.
/// A failure to open ends the exchange at once. After a successful open
/// every path leads through `Closing`, and the outcome is handed out only
/// on the report that the device was closed.
pub open spec fn bridge_step(state: BridgeStateView, event: DeviceEventView) -> BridgeStepView {
    match state {
        BridgeStateView::Idle { challenge } => BridgeStepView::Continue {
            state: BridgeStateView::Opening { challenge },
            action: DeviceActionView::Open,
        },
        BridgeStateView::Opening { challenge } => match event {
            DeviceEventView::Opened => BridgeStepView::Continue {
                state: BridgeStateView::Exchanging,
                action: DeviceActionView::Exchange(request_for(challenge)),
            },
            DeviceEventView::OpenFailed(cause) => BridgeStepView::Finished(
                Err(ErrorView { kind: ErrorKind::DeviceUnavailable, cause }),
            ),
            _ => BridgeStepView::Finished(Err(device_not_opened())),
        },
        BridgeStateView::Exchanging => BridgeStepView::Continue {
            state: BridgeStateView::Closing { outcome: exchange_outcome(event) },
            action: DeviceActionView::Close,
        },
        BridgeStateView::Closing { outcome } => match event {
            DeviceEventView::Closed => BridgeStepView::Finished(outcome),
            _ => BridgeStepView::Continue {
                state: BridgeStateView::Closing { outcome },
                action: DeviceActionView::Close,
            },
        },
    }
}

/// One step of the exchange with the attestation device: from where the
/// exchange stands and what the driver reports, to what the driver does
/// next or to the token.
///
/// An exchange starts in `Idle` with the caller's challenge; the event
/// handed to an idle bridge is not looked at.
pub fn attestation(state: BridgeState, event: DeviceEvent) -> (step: BridgeStep)
    ensures
        step@ == bridge_step(state@, event@),
{
    match state {
        BridgeState::Idle { challenge } => BridgeStep::Continue {
            state: BridgeState::Opening { challenge },
            action: DeviceAction::Open,
        },
        BridgeState::Opening { challenge } => match event {
            DeviceEvent::Opened => {
                let request = cca_ioctl_request::new(challenge.as_slice());
                BridgeStep::Continue {
                    state: BridgeState::Exchanging,
                    action: DeviceAction::Exchange(request),
                }
            },
            DeviceEvent::OpenFailed(cause) => BridgeStep::Finished(
                Err(AgentError::new(ErrorKind::DeviceUnavailable, cause)),
            ),
            _ => BridgeStep::Finished(
                Err(
                    AgentError::with_message(
                        ErrorKind::DeviceUnavailable,
                        "the device was not opened",
                    ),
                ),
            ),
        },
        BridgeState::Exchanging => {
            let outcome = match event {
                DeviceEvent::Responded(response) => response.token(),
                DeviceEvent::ExchangeFailed(cause) => Err(
                    AgentError::new(ErrorKind::IoctlFailure, cause),
                ),
                _ => Err(
                    AgentError::with_message(
                        ErrorKind::IoctlFailure,
                        "the control call was not answered",
                    ),
                ),
            };
            BridgeStep::Continue {
                state: BridgeState::Closing { outcome },
                action: DeviceAction::Close,
            }
        },
        BridgeState::Closing { outcome } => match event {
            DeviceEvent::Closed => BridgeStep::Finished(outcome),
            _ => BridgeStep::Continue {
                state: BridgeState::Closing { outcome },
                action: DeviceAction::Close,
            },
        },
    }
}

/// Whether the device is open in `state`.
pub open spec fn device_open(state: BridgeStateView) -> bool {
    state is Exchanging || state is Closing
}

/// The device is released on every path: while it is open, the only step
/// that ends the exchange is the one that takes the report of its closing,
/// and every other step asks the driver to close it.
pub proof fn lemma_device_released(state: BridgeStateView, event: DeviceEventView)
    requires
        device_open(state),
    ensures
        bridge_step(state, event) is Finished ==> state is Closing && event is Closed,
        bridge_step(state, event) matches BridgeStepView::Continue { state: next, action }
            ==> next is Closing && action is Close,
{
}

/// How far an exchange has come.
pub open spec fn bridge_progress(state: BridgeStateView) -> nat {
    match state {
        BridgeStateView::Idle { .. } => 0,
        BridgeStateView::Opening { .. } => 1,
        BridgeStateView::Exchanging => 2,
        BridgeStateView::Closing { .. } => 3,
    }
}

/// Nothing is tried twice: the device is opened only by an idle bridge and
/// asked only by a bridge that was opening it, and every step but the
/// repeated request to close takes the exchange further.
pub proof fn lemma_no_second_attempt(state: BridgeStateView, event: DeviceEventView)
    ensures
        bridge_step(state, event) matches BridgeStepView::Continue { state: next, action } ==> {
            &&& action is Open ==> state is Idle
            &&& action is Exchange ==> state is Opening
            &&& bridge_progress(next) >= bridge_progress(state)
            &&& bridge_progress(next) == bridge_progress(state) ==> state is Closing && action
                is Close
        },
{
}

/// A token is never read past the buffer: a response is turned into a token
/// exactly when its length field is at most the buffer's size, 4096 itself
/// included, and the token then has that length. Any larger length is an
/// `IoctlFailure`.
pub proof fn lemma_token_within_buffer(response: RequestView)
    requires
        response.token.len() == TOKEN_BUFFER_SIZE,
    ensures
        response.token_length <= 4096 <==> token_of(response) is Ok,
        token_of(response) matches Ok(token) ==> token.len() == response.token_length
            && forall|i: int| 0 <= i < token.len() ==> token[i] == response.token[i],
        token_of(response) matches Err(e) ==> e.kind == ErrorKind::IoctlFailure,
{
}

/// Where the exchange stands after the driver's reports, taken in turn
/// from `state` until the exchange is over.
pub open spec fn bridge_run(state: BridgeStateView, reports: Seq<DeviceEventView>) -> BridgeStepView
    recommends
        reports.len() > 0,
    decreases reports.len(),
{
    let step = bridge_step(state, reports[0]);
    if reports.len() <= 1 {
        step
    } else {
        match step {
            BridgeStepView::Continue { state: next, action } => bridge_run(
                next,
                reports.drop_first(),
            ),
            BridgeStepView::Finished(outcome) => step,
        }
    }
}

/// What an exchange comes to. Where the device cannot be opened, the result
/// is `DeviceUnavailable` with the cause. Where the control call fails, the
/// device is closed and the result is `IoctlFailure` with the cause. Where
/// the call returns, the device is closed and the result is the token of
/// the response, or `IoctlFailure` for a length outside the buffer.
pub proof fn lemma_exchange_outcomes(
    challenge: Seq<u8>,
    response: RequestView,
    cause: Seq<char>,
)
    ensures
        bridge_run(
            BridgeStateView::Idle { challenge },
            seq![DeviceEventView::Start, DeviceEventView::OpenFailed(cause)],
        ) == BridgeStepView::Finished(
            Err(ErrorView { kind: ErrorKind::DeviceUnavailable, cause }),
        ),
        bridge_run(
            BridgeStateView::Idle { challenge },
            seq![
                DeviceEventView::Start,
                DeviceEventView::Opened,
                DeviceEventView::ExchangeFailed(cause),
                DeviceEventView::Closed,
            ],
        ) == BridgeStepView::Finished(Err(ErrorView { kind: ErrorKind::IoctlFailure, cause })),
        bridge_run(
            BridgeStateView::Idle { challenge },
            seq![
                DeviceEventView::Start,
                DeviceEventView::Opened,
                DeviceEventView::Responded(response),
                DeviceEventView::Closed,
            ],
        ) == BridgeStepView::Finished(token_of(response)),
{
    let idle = BridgeStateView::Idle { challenge };
    let opening = BridgeStateView::Opening { challenge };
    let failed = seq![DeviceEventView::Start, DeviceEventView::OpenFailed(cause)];
    assert(failed.drop_first() =~= seq![DeviceEventView::OpenFailed(cause)]);
    assert(bridge_run(opening, seq![DeviceEventView::OpenFailed(cause)])
        == BridgeStepView::Finished(
        Err(ErrorView { kind: ErrorKind::DeviceUnavailable, cause }),
    ));
    lemma_run_after_open(challenge, DeviceEventView::ExchangeFailed(cause));
    lemma_run_after_open(challenge, DeviceEventView::Responded(response));
}

/// The run of a bridge whose device opened, for any report of the control call.
proof fn lemma_run_after_open(challenge: Seq<u8>, report: DeviceEventView)
    ensures
        bridge_run(
            BridgeStateView::Idle { challenge },
            seq![DeviceEventView::Start, DeviceEventView::Opened, report, DeviceEventView::Closed],
        ) == BridgeStepView::Finished(exchange_outcome(report)),
{
    let all = seq![DeviceEventView::Start, DeviceEventView::Opened, report, DeviceEventView::Closed];
    let after_start = seq![DeviceEventView::Opened, report, DeviceEventView::Closed];
    let after_open = seq![report, DeviceEventView::Closed];
    let last = seq![DeviceEventView::Closed];
    assert(all.drop_first() =~= after_start);
    assert(after_start.drop_first() =~= after_open);
    assert(after_open.drop_first() =~= last);
    let closing = BridgeStateView::Closing { outcome: exchange_outcome(report) };
    assert(bridge_run(closing, last) == BridgeStepView::Finished(exchange_outcome(report)));
    assert(bridge_run(BridgeStateView::Exchanging, after_open) == BridgeStepView::Finished(
        exchange_outcome(report),
    ));
    assert(bridge_run(BridgeStateView::Opening { challenge }, after_start)
        == BridgeStepView::Finished(exchange_outcome(report)));
}

/// The attester for Arm CCA.
#[derive(Debug, Default)]
pub struct CCAAttester {}

/// The evidence record for a token: the token in base64 under the name `token`.
pub open spec fn cca_evidence(token: Seq<u8>) -> Seq<char> {
    json_object(seq![("token"@, base64_standard(token))])
}

/// The failure for a token too long to encode.
pub open spec fn evidence_not_encodable() -> ErrorView {
    ErrorView { kind: ErrorKind::SerializationFailure, cause: "Serialize CCA evidence failed"@ }
}

/// The evidence owed for what the exchange with the device came to.
pub open spec fn evidence_for(outcome: Result<Seq<u8>, ErrorView>) -> Result<Seq<char>, ErrorView> {
    match outcome {
        Ok(token) => if base64_fits(token.len()) {
            Ok(cca_evidence(token))
        } else {
            Err(evidence_not_encodable())
        },
        Err(e) => Err(e),
    }
}

/// Mathematical value of evidence or the failure to get it.
pub open spec fn evidence_view(evidence: Result<String, AgentError>) -> Result<
    Seq<char>,
    ErrorView,
> {
    match evidence {
        Ok(text) => Ok(text@),
        Err(e) => Err(e@),
    }
}

/// The failure to encode the evidence.
fn not_serialized() -> (e: AgentError)
    ensures
        e@ == evidence_not_encodable(),
{
    AgentError::with_message(ErrorKind::SerializationFailure, "Serialize CCA evidence failed")
}

impl CCAAttester {
    /// Evidence from what the exchange with the device came to: the token
    /// wrapped in the evidence record, or the failure of the exchange as it
    /// is. Evidence is never made up where the device gave none.
    pub fn get_evidence(&self, token: Result<Vec<u8>, AgentError>) -> (evidence: Result<
        String,
        AgentError,
    >)
        ensures
            evidence_view(evidence) == evidence_for(outcome_view(token)),
    {
        match token {
            Ok(token) => match encode_base64(token.as_slice()) {
                Some(encoded) => {
                    let mut members: Vec<(String, String)> = Vec::new();
                    members.push((String::from_str("token"), encoded));
                    assert(members_view(members@) == seq![("token"@, base64_standard(token@))]);
                    match json_record(&members) {
                        Ok(text) => Ok(text),
                        Err(_) => Err(not_serialized()),
                    }
                },
                None => Err(not_serialized()),
            },
            Err(e) => Err(e),
        }
    }
}

} // verus!
