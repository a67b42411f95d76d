//! Error types of the session engine.
//!
//! Terminal protocol failures carry a structured reply meant to be relayed
//! back to the sender; local and transient failures stay with the caller and
//! never reach the event log.

use vstd::prelude::*;

verus! {

/// Machine-readable code of a reply sent back to the sender after a
/// terminal protocol failure.
#[derive(PartialEq, Eq, Structural, Clone, Copy, Debug)]
pub enum ErrorCode {
    Unavailable,
    NotEnoughMoney,
    VersionUnsupported,
    OriginalPsbtRejected,
}

/// Structured error payload relayed back to the sender.
#[derive(PartialEq, Eq, Structural, Clone, Copy, Debug)]
pub struct JsonReply {
    pub code: ErrorCode,
}

/// An error reported by a host-supplied callback.
#[derive(Debug)]
pub struct ForeignError {
    pub message: String,
}

#[verifier::ext_equal]
pub ghost struct ForeignErrorV {
    pub message: Seq<char>,
}

impl View for ForeignError {
    type V = ForeignErrorV;

    open spec fn view(&self) -> ForeignErrorV {
        ForeignErrorV { message: self.message@ }
    }
}

/// A terminal protocol failure. Reaching one moves the session to its failed
/// state and is recorded as the session's final event.
#[derive(Debug)]
pub enum ReplyableError {
    /// The original PSBT is structurally inconsistent or misses the output
    /// spent by one of its inputs.
    PsbtInconsistent,
    /// Input or output values are out of range or the outputs pay out more
    /// than the inputs provide.
    ValueOutOfRange,
    /// The original transaction pays a lower fee rate than the declared
    /// minimum.
    FeeRateTooLow,
    /// The host refused to schedule the original transaction for broadcast.
    NotBroadcastable,
    /// An input of the original transaction spends one of the receiver's own
    /// outputs.
    InputOwned,
    /// An input of the original transaction was already seen in an earlier
    /// session.
    InputSeenBefore,
    /// No output of the original transaction pays the receiver.
    NoReceiverOutputs,
    /// The fee charged to the receiver would exceed its declared maximum
    /// effective fee rate.
    FeeTooHigh,
    /// The receiver's change output cannot cover the fee charged to the
    /// receiver.
    ChangeUnderflow,
    /// Fee arithmetic left the representable range.
    FeeOverflow,
    /// The directory rejected the finished proposal.
    ResponseRejected,
    /// A host callback failed with its own error.
    Implementation(ForeignError),
}

#[verifier::ext_equal]
pub ghost enum ReplyableErrorV {
    PsbtInconsistent,
    ValueOutOfRange,
    FeeRateTooLow,
    NotBroadcastable,
    InputOwned,
    InputSeenBefore,
    NoReceiverOutputs,
    FeeTooHigh,
    ChangeUnderflow,
    FeeOverflow,
    ResponseRejected,
    Implementation(ForeignErrorV),
}

impl View for ReplyableError {
    type V = ReplyableErrorV;

    open spec fn view(&self) -> ReplyableErrorV {
        match self {
            ReplyableError::PsbtInconsistent => ReplyableErrorV::PsbtInconsistent,
            ReplyableError::ValueOutOfRange => ReplyableErrorV::ValueOutOfRange,
            ReplyableError::FeeRateTooLow => ReplyableErrorV::FeeRateTooLow,
            ReplyableError::NotBroadcastable => ReplyableErrorV::NotBroadcastable,
            ReplyableError::InputOwned => ReplyableErrorV::InputOwned,
            ReplyableError::InputSeenBefore => ReplyableErrorV::InputSeenBefore,
            ReplyableError::NoReceiverOutputs => ReplyableErrorV::NoReceiverOutputs,
            ReplyableError::FeeTooHigh => ReplyableErrorV::FeeTooHigh,
            ReplyableError::ChangeUnderflow => ReplyableErrorV::ChangeUnderflow,
            ReplyableError::FeeOverflow => ReplyableErrorV::FeeOverflow,
            ReplyableError::ResponseRejected => ReplyableErrorV::ResponseRejected,
            ReplyableError::Implementation(e) => ReplyableErrorV::Implementation(e@),
        }
    }
}

impl ForeignError {
    /// Copies this error; the copy has the same view.
    pub fn duplicate(&self) -> (r: ForeignError)
        ensures
            r@ == self@,
    {
        let r = ForeignError { message: self.message.clone() };
        proof {
            assert(r@ =~= self@);
        }
        r
    }
}

impl ReplyableError {
    /// Copies this failure; the copy has the same view.
    pub fn duplicate(&self) -> (r: ReplyableError)
        ensures
            r@ == self@,
    {
        match self {
            ReplyableError::PsbtInconsistent => ReplyableError::PsbtInconsistent,
            ReplyableError::ValueOutOfRange => ReplyableError::ValueOutOfRange,
            ReplyableError::FeeRateTooLow => ReplyableError::FeeRateTooLow,
            ReplyableError::NotBroadcastable => ReplyableError::NotBroadcastable,
            ReplyableError::InputOwned => ReplyableError::InputOwned,
            ReplyableError::InputSeenBefore => ReplyableError::InputSeenBefore,
            ReplyableError::NoReceiverOutputs => ReplyableError::NoReceiverOutputs,
            ReplyableError::FeeTooHigh => ReplyableError::FeeTooHigh,
            ReplyableError::ChangeUnderflow => ReplyableError::ChangeUnderflow,
            ReplyableError::FeeOverflow => ReplyableError::FeeOverflow,
            ReplyableError::ResponseRejected => ReplyableError::ResponseRejected,
            ReplyableError::Implementation(f) => ReplyableError::Implementation(f.duplicate()),
        }
    }
}

/// The reply relayed to the sender for a given terminal failure, if one is
/// owed. Host-callback failures expose nothing to the sender.
pub open spec fn spec_reply_of(e: ReplyableErrorV) -> Option<JsonReply> {
    match e {
        ReplyableErrorV::PsbtInconsistent => Option::Some(
            JsonReply { code: ErrorCode::OriginalPsbtRejected },
        ),
        ReplyableErrorV::ValueOutOfRange => Option::Some(
            JsonReply { code: ErrorCode::OriginalPsbtRejected },
        ),
        ReplyableErrorV::FeeRateTooLow => Option::Some(
            JsonReply { code: ErrorCode::OriginalPsbtRejected },
        ),
        ReplyableErrorV::NotBroadcastable => Option::Some(
            JsonReply { code: ErrorCode::OriginalPsbtRejected },
        ),
        ReplyableErrorV::InputOwned => Option::Some(
            JsonReply { code: ErrorCode::OriginalPsbtRejected },
        ),
        ReplyableErrorV::InputSeenBefore => Option::Some(
            JsonReply { code: ErrorCode::OriginalPsbtRejected },
        ),
        ReplyableErrorV::NoReceiverOutputs => Option::Some(
            JsonReply { code: ErrorCode::OriginalPsbtRejected },
        ),
        ReplyableErrorV::FeeTooHigh => Option::Some(
            JsonReply { code: ErrorCode::NotEnoughMoney },
        ),
        ReplyableErrorV::ChangeUnderflow => Option::Some(
            JsonReply { code: ErrorCode::NotEnoughMoney },
        ),
        ReplyableErrorV::FeeOverflow => Option::Some(
            JsonReply { code: ErrorCode::NotEnoughMoney },
        ),
        ReplyableErrorV::ResponseRejected => Option::Some(
            JsonReply { code: ErrorCode::Unavailable },
        ),
        ReplyableErrorV::Implementation(_) => Option::None,
    }
}

impl ReplyableError {
    /// The reply relayed to the sender for this failure, if one is owed.
    pub fn reply(&self) -> (r: Option<JsonReply>)
        ensures
            r == spec_reply_of(self@),
    {
        match self {
            ReplyableError::FeeTooHigh => Option::Some(JsonReply { code: ErrorCode::NotEnoughMoney }),
            ReplyableError::ChangeUnderflow => Option::Some(
                JsonReply { code: ErrorCode::NotEnoughMoney },
            ),
            ReplyableError::FeeOverflow => Option::Some(JsonReply { code: ErrorCode::NotEnoughMoney }),
            ReplyableError::ResponseRejected => Option::Some(
                JsonReply { code: ErrorCode::Unavailable },
            ),
            ReplyableError::Implementation(_) => Option::None,
            _ => Option::Some(JsonReply { code: ErrorCode::OriginalPsbtRejected }),
        }
    }
}

/// Description of a terminal failure, rendered for the session history.
pub open spec fn spec_error_text(e: ReplyableErrorV) -> Seq<char> {
    match e {
        ReplyableErrorV::PsbtInconsistent => "original PSBT is inconsistent"@,
        ReplyableErrorV::ValueOutOfRange => "transaction values are out of range"@,
        ReplyableErrorV::FeeRateTooLow => "original fee rate is below the minimum"@,
        ReplyableErrorV::NotBroadcastable => "original transaction is not broadcastable"@,
        ReplyableErrorV::InputOwned => "an original input is owned by the receiver"@,
        ReplyableErrorV::InputSeenBefore => "an original input was seen in an earlier session"@,
        ReplyableErrorV::NoReceiverOutputs => "no output pays the receiver"@,
        ReplyableErrorV::FeeTooHigh => "receiver fee rate would exceed its maximum"@,
        ReplyableErrorV::ChangeUnderflow => "receiver change cannot cover the fee"@,
        ReplyableErrorV::FeeOverflow => "fee arithmetic overflowed"@,
        ReplyableErrorV::ResponseRejected => "the directory rejected the proposal"@,
        ReplyableErrorV::Implementation(f) => f.message,
    }
}

impl ReplyableError {
    /// Renders this failure for the session history.
    pub fn error_text(&self) -> (r: String)
        ensures
            r@ == spec_error_text(self@),
    {
        match self {
            ReplyableError::PsbtInconsistent => "original PSBT is inconsistent".to_owned(),
            ReplyableError::ValueOutOfRange => "transaction values are out of range".to_owned(),
            ReplyableError::FeeRateTooLow => "original fee rate is below the minimum".to_owned(),
            ReplyableError::NotBroadcastable => "original transaction is not broadcastable".to_owned(),
            ReplyableError::InputOwned => "an original input is owned by the receiver".to_owned(),
            ReplyableError::InputSeenBefore => "an original input was seen in an earlier session".to_owned(),
            ReplyableError::NoReceiverOutputs => "no output pays the receiver".to_owned(),
            ReplyableError::FeeTooHigh => "receiver fee rate would exceed its maximum".to_owned(),
            ReplyableError::ChangeUnderflow => "receiver change cannot cover the fee".to_owned(),
            ReplyableError::FeeOverflow => "fee arithmetic overflowed".to_owned(),
            ReplyableError::ResponseRejected => "the directory rejected the proposal".to_owned(),
            ReplyableError::Implementation(f) => f.message.clone(),
        }
    }
}

/// Why a session could not be created.
#[derive(PartialEq, Eq, Structural, Clone, Copy, Debug)]
pub enum BadInitInputsError {
    /// The directory endpoint is not a well-formed URL.
    InvalidDirectoryUrl,
    /// The directory endpoint does not use the https scheme.
    InsecureDirectoryUrl,
    /// The server key material is too large to frame.
    OversizedKeyMaterial,
}

/// Why an outbound request could not be built.
#[derive(PartialEq, Eq, Structural, Clone, Copy, Debug)]
pub enum ReceiverError {
    /// The relay endpoint is not a well-formed URL.
    InvalidRelayUrl,
    /// The relay endpoint does not use the https scheme.
    InsecureRelayUrl,
    /// The finished proposal is too large to frame.
    OversizedProposal,
}

/// Why a response handed to the session could not be used. The session stage
/// is unchanged and the caller may retry with a fresh response.
#[derive(PartialEq, Eq, Structural, Clone, Copy, Debug)]
pub enum TransientError {
    /// The response bytes do not decode to anything this stage expects.
    MalformedResponse,
    /// The response was produced for a different kind of request.
    ContextMismatch,
}

/// Why a candidate list was rejected by coin selection.
#[derive(PartialEq, Eq, Structural, Clone, Copy, Debug)]
pub enum SelectionError {
    /// No candidates were supplied.
    Empty,
    /// No candidate is compatible with the script types already spent by the
    /// proposal's inputs.
    NoCompatibleCandidate,
}

/// Why an explicit input contribution was rejected.
#[derive(PartialEq, Eq, Structural, Clone, Copy, Debug)]
pub enum InputContributionError {
    /// A contributed input does not carry the output it spends.
    MissingWitnessUtxo,
    /// A contributed input's script type differs from the type already spent
    /// by the proposal's inputs.
    IncompatibleScriptType,
    /// A contributed input has a malformed transaction id, an oversized
    /// script, or a value out of range.
    MalformedInput,
    /// The contributed inputs together add more virtual size than a
    /// standard transaction can carry.
    OversizedContribution,
    /// A contributed input spends an outpoint the proposal already spends,
    /// or one contributed twice.
    DuplicateOutpoint,
}

/// Why an output replacement was rejected.
#[derive(PartialEq, Eq, Structural, Clone, Copy, Debug)]
pub enum OutputSubstitutionError {
    /// The sender disallowed output substitution.
    Disabled,
    /// No replacement output uses the requested drain script.
    DrainScriptNotFound,
    /// The replacement output list is empty.
    NoOutputs,
    /// The replacement list has fewer outputs than the receiver-owned
    /// positions it must fill.
    NotEnoughOutputs,
    /// The replacement outputs are too large to stand in a standard
    /// transaction.
    OversizedOutputs,
}

/// Why a PSBT input pair could not be built.
#[derive(PartialEq, Eq, Structural, Clone, Copy, Debug)]
pub enum PsbtInputError {
    /// The input does not carry the output it spends.
    MissingWitnessUtxo,
}

/// Why an error report could not be built from the session history.
#[derive(PartialEq, Eq, Structural, Clone, Copy, Debug)]
pub enum SessionError {
    /// The relay endpoint is not a well-formed URL.
    InvalidRelayUrl,
    /// The relay endpoint does not use the https scheme.
    InsecureRelayUrl,
}

/// An error produced while committing a transition.
#[derive(Debug)]
pub enum ReceiverPersistedError {
    /// The persister failed; nothing was appended and the transition is lost.
    Storage(ForeignError),
    /// The transition was a terminal protocol failure; the failure event was
    /// appended and the session is now failed.
    Terminal(ReplyableError),
    /// The transition failed transiently; nothing was appended and the
    /// operation may be retried on the unchanged stage.
    Transient(TransientError),
    /// The signer callback failed; nothing was appended and the finalize
    /// step may be retried.
    Signer(ForeignError),
    /// The session could not be created from its inputs.
    BadInitInputs(BadInitInputsError),
}

/// An error produced while replaying an event log.
#[derive(Debug)]
pub enum ReceiverReplayError {
    /// The persister failed to load the log.
    Storage(ForeignError),
    /// The log is not one a run of this engine could have written.
    IncoherentLog,
}

} // verus!
