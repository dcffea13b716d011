//! The auto-paste machine: after a settle delay it pastes the clipboard into
//! the focused application, by an OS script where input injection is
//! restricted and by simulated keys elsewhere, and reports the outcome.
//! The caller performs each action, inside a boundary that turns an abnormal
//! termination into the `Crashed` event, and feeds back what happened.
use vstd::prelude::*;
use crate::notify::NoticeKind;
use crate::shortcut::Platform;
use crate::text::{decimal, decimal_text, padded_decimal, padded_decimal_text};
use vstd::string::*;

verus! {

/// How long the machine waits, in milliseconds, before injecting input, so
/// that the success notice is seen first.
pub const SETTLE_DELAY_MS: u64 = 1200;

/// Where a paste run stands.
#[derive(Clone, Copy, Debug, PartialEq, Eq, Structural)]
pub enum PasteStage {
    Idle,
    Settling,
    /// Waiting for the permission probe.
    Probing,
    /// Waiting for the scripted paste.
    Scripting,
    /// Waiting for the input driver.
    Starting,
    PressingModifier,
    ClickingKey,
    ReleasingModifier,
    /// Waiting for the modifier+V combination sent the second way.
    Retrying,
    Finished,
}

/// What happened to the last action.
#[derive(Clone, Copy, Debug, PartialEq, Eq, Structural)]
pub enum PasteEvent {
    /// A paste was asked for.
    Begin,
    /// The settle delay has passed.
    Settled,
    Succeeded,
    Failed,
    /// The action ended abnormally and was contained.
    Crashed,
}

/// What the caller does next.
#[derive(Clone, Copy, Debug, PartialEq, Eq, Structural)]
pub enum PasteAction {
    /// Sleep this many milliseconds, then report `Settled`.
    Wait(u64),
    ProbePermission,
    RunPasteScript,
    CreateDriver,
    PressModifier,
    ClickV,
    ReleaseModifier,
    /// Release any held modifier and send modifier+V a second way.
    SendCombination,
    /// Show this notice; the run is over.
    Notify(NoticeKind),
    Nothing,
}

/// The step of the machine from `stage` on `event`.
pub open spec fn paste_transition(stage: PasteStage, event: PasteEvent, p: Platform) -> (PasteStage, PasteAction) {
    match (stage, event) {
        (PasteStage::Idle, PasteEvent::Begin) => (PasteStage::Settling, PasteAction::Wait(SETTLE_DELAY_MS)),
        (PasteStage::Idle, _) => (stage, PasteAction::Nothing),
        (PasteStage::Finished, _) => (stage, PasteAction::Nothing),
        (_, PasteEvent::Crashed) => (PasteStage::Finished, PasteAction::Notify(NoticeKind::PasteCrashed)),
        (PasteStage::Settling, PasteEvent::Settled) => if p == Platform::MacOs {
            (PasteStage::Probing, PasteAction::ProbePermission)
        } else {
            (PasteStage::Starting, PasteAction::CreateDriver)
        },
        (PasteStage::Probing, PasteEvent::Succeeded) => (PasteStage::Scripting, PasteAction::RunPasteScript),
        (PasteStage::Probing, PasteEvent::Failed) => (
            PasteStage::Finished,
            PasteAction::Notify(NoticeKind::PastePermissionRequired),
        ),
        (PasteStage::Scripting, PasteEvent::Succeeded) => (PasteStage::Finished, PasteAction::Notify(NoticeKind::Pasted)),
        (PasteStage::Scripting, PasteEvent::Failed) => (PasteStage::Finished, PasteAction::Notify(NoticeKind::PasteFailed)),
        (PasteStage::Starting, PasteEvent::Succeeded) => (PasteStage::PressingModifier, PasteAction::PressModifier),
        (PasteStage::Starting, PasteEvent::Failed) => (
            PasteStage::Finished,
            PasteAction::Notify(NoticeKind::PasteDriverFailed),
        ),
        (PasteStage::PressingModifier, PasteEvent::Succeeded) => (PasteStage::ClickingKey, PasteAction::ClickV),
        (PasteStage::PressingModifier, PasteEvent::Failed) => (PasteStage::Retrying, PasteAction::SendCombination),
        (PasteStage::ClickingKey, PasteEvent::Succeeded) => (PasteStage::ReleasingModifier, PasteAction::ReleaseModifier),
        (PasteStage::ClickingKey, PasteEvent::Failed) => (PasteStage::Retrying, PasteAction::SendCombination),
        (PasteStage::ReleasingModifier, PasteEvent::Succeeded) => (PasteStage::Finished, PasteAction::Notify(NoticeKind::Pasted)),
        (PasteStage::ReleasingModifier, PasteEvent::Failed) => (PasteStage::Finished, PasteAction::Notify(NoticeKind::PasteFailed)),
        (PasteStage::Retrying, PasteEvent::Succeeded) => (PasteStage::Finished, PasteAction::Notify(NoticeKind::Pasted)),
        (PasteStage::Retrying, PasteEvent::Failed) => (PasteStage::Finished, PasteAction::Notify(NoticeKind::PasteFailed)),
        _ => (stage, PasteAction::Nothing),
    }
}

/// Advances the machine from `stage` on `event`.
pub fn paste_step(stage: PasteStage, event: PasteEvent, platform: Platform) -> (r: (PasteStage, PasteAction))
    ensures
        r == paste_transition(stage, event, platform),
{
    match (stage, event) {
        (PasteStage::Idle, PasteEvent::Begin) => (PasteStage::Settling, PasteAction::Wait(SETTLE_DELAY_MS)),
        (PasteStage::Idle, _) => (stage, PasteAction::Nothing),
        (PasteStage::Finished, _) => (stage, PasteAction::Nothing),
        (_, PasteEvent::Crashed) => (PasteStage::Finished, PasteAction::Notify(NoticeKind::PasteCrashed)),
        (PasteStage::Settling, PasteEvent::Settled) => match platform {
            Platform::MacOs => (PasteStage::Probing, PasteAction::ProbePermission),
            Platform::Other => (PasteStage::Starting, PasteAction::CreateDriver),
        },
        (PasteStage::Probing, PasteEvent::Succeeded) => (PasteStage::Scripting, PasteAction::RunPasteScript),
        (PasteStage::Probing, PasteEvent::Failed) => (
            PasteStage::Finished,
            PasteAction::Notify(NoticeKind::PastePermissionRequired),
        ),
        (PasteStage::Scripting, PasteEvent::Succeeded) => (PasteStage::Finished, PasteAction::Notify(NoticeKind::Pasted)),
        (PasteStage::Scripting, PasteEvent::Failed) => (PasteStage::Finished, PasteAction::Notify(NoticeKind::PasteFailed)),
        (PasteStage::Starting, PasteEvent::Succeeded) => (PasteStage::PressingModifier, PasteAction::PressModifier),
        (PasteStage::Starting, PasteEvent::Failed) => (
            PasteStage::Finished,
            PasteAction::Notify(NoticeKind::PasteDriverFailed),
        ),
        (PasteStage::PressingModifier, PasteEvent::Succeeded) => (PasteStage::ClickingKey, PasteAction::ClickV),
        (PasteStage::PressingModifier, PasteEvent::Failed) => (PasteStage::Retrying, PasteAction::SendCombination),
        (PasteStage::ClickingKey, PasteEvent::Succeeded) => (PasteStage::ReleasingModifier, PasteAction::ReleaseModifier),
        (PasteStage::ClickingKey, PasteEvent::Failed) => (PasteStage::Retrying, PasteAction::SendCombination),
        (PasteStage::ReleasingModifier, PasteEvent::Succeeded) => (PasteStage::Finished, PasteAction::Notify(NoticeKind::Pasted)),
        (PasteStage::ReleasingModifier, PasteEvent::Failed) => (PasteStage::Finished, PasteAction::Notify(NoticeKind::PasteFailed)),
        (PasteStage::Retrying, PasteEvent::Succeeded) => (PasteStage::Finished, PasteAction::Notify(NoticeKind::Pasted)),
        (PasteStage::Retrying, PasteEvent::Failed) => (PasteStage::Finished, PasteAction::Notify(NoticeKind::PasteFailed)),
        _ => (stage, PasteAction::Nothing),
    }
}

/// How far a stage is from the end of a run.
pub open spec fn remaining_steps(stage: PasteStage) -> nat {
    match stage {
        PasteStage::Idle => 9,
        PasteStage::Settling => 8,
        PasteStage::Probing => 7,
        PasteStage::Scripting => 6,
        PasteStage::Starting => 6,
        PasteStage::PressingModifier => 5,
        PasteStage::ClickingKey => 4,
        PasteStage::ReleasingModifier => 3,
        PasteStage::Retrying => 2,
        PasteStage::Finished => 0,
    }
}

/// A paste run never repeats itself: every step that asks for an action
/// moves strictly closer to the end, so a run takes at most nine actions and
/// retries nothing automatically beyond the one second way. Every notice
/// ends the run, and a contained crash ends any run under way with the
/// crash notice.
pub proof fn lemma_paste_run_is_bounded(stage: PasteStage, event: PasteEvent, p: Platform)
    ensures
        paste_transition(stage, event, p).1 != PasteAction::Nothing ==> remaining_steps(paste_transition(stage, event, p).0) < remaining_steps(stage),
        paste_transition(stage, event, p).1 is Notify ==> paste_transition(stage, event, p).0 == PasteStage::Finished,
        (stage != PasteStage::Idle && stage != PasteStage::Finished && event == PasteEvent::Crashed) ==> paste_transition(stage, event, p) == (PasteStage::Finished, PasteAction::Notify(NoticeKind::PasteCrashed)),
{
}

/// A line of the debug log: the time in seconds since the epoch with three
/// decimals in brackets, then the message.
pub open spec fn log_line_text(epoch_ms: nat, message: Seq<char>) -> Seq<char> {
    "["@ + decimal(epoch_ms / 1000) + "."@ + padded_decimal(epoch_ms % 1000, 3) + "] "@ + message + "\n"@
}

/// Formats a line of the debug log.
pub fn log_line(epoch_ms: u64, message: &str) -> (r: String)
    ensures
        r@ == log_line_text(epoch_ms as nat, message@),
{
    let mut r = String::from_str("[");
    let secs = decimal_text(epoch_ms / 1000);
    r.append(secs.as_str());
    r.append(".");
    let millis = padded_decimal_text(epoch_ms % 1000, 3);
    r.append(millis.as_str());
    r.append("] ");
    r.append(message);
    r.append("\n");
    r
}

} // verus!
