//! Decides how the session reacts to inbound toggle commands from the host
//! side channel, and what affordance-state and status updates it emits; the
//! channel I/O itself lives outside the library.

use vstd::prelude::*;

use crate::adb::BtsnoopLogMode;

verus! {

/// The control number of the toggle that turns device logging on.
pub const LOGGING_ON_CONTROL: u8 = 0;

/// The control number of the toggle that turns device logging off.
pub const LOGGING_OFF_CONTROL: u8 = 1;

/// A toggle-button descriptor surfaced to the host: constructed once at
/// process start and shared, never mutated.
#[derive(Debug)]
pub struct ButtonDescriptor {
    pub control_number: u8,
    pub display: String,
}

/// The descriptor of the toggle that turns device logging on.
pub fn logging_on_button() -> (r: ButtonDescriptor)
    ensures
        r.control_number == LOGGING_ON_CONTROL,
        r.display@ == "Turn on BT logging"@,
{
    ButtonDescriptor { control_number: LOGGING_ON_CONTROL, display: "Turn on BT logging".to_owned() }
}

/// The descriptor of the toggle that turns device logging off.
pub fn logging_off_button() -> (r: ButtonDescriptor)
    ensures
        r.control_number == LOGGING_OFF_CONTROL,
        r.display@ == "Turn off BT logging"@,
{
    ButtonDescriptor {
        control_number: LOGGING_OFF_CONTROL,
        display: "Turn off BT logging".to_owned(),
    }
}

/// The kind of an inbound control packet; the handler reacts only to a
/// value being set, every other kind is ignored.
#[derive(Clone, Copy, Debug, PartialEq, Eq, Structural)]
pub enum ControlCommandKind {
    Initialized,
    SetValue,
    Other,
}

/// Whether each toggle is currently enabled in the host UI; the two flip
/// in lockstep, so exactly one is enabled at a time.
#[derive(Clone, Copy, Debug, PartialEq, Eq, Structural)]
pub struct ToggleAffordanceState {
    pub logging_on_enabled: bool,
    pub logging_off_enabled: bool,
}

impl ToggleAffordanceState {
    /// The two toggles are mutually exclusive.
    pub open spec fn wf(&self) -> bool {
        self.logging_on_enabled == !self.logging_off_enabled
    }
}

/// One step the session must perform in reaction to a control command, in
/// order: switch the device's log mode, or send an outbound update.
#[derive(Debug)]
pub enum ControlAction {
    SetLogMode(BtsnoopLogMode),
    SendUpdate(ControlUpdate),
}

/// An outbound packet to the host: an affordance-state change for one
/// control, or a free-text message.
#[derive(Debug)]
pub enum ControlUpdate {
    AffordanceState { control_number: u8, enabled: bool },
    StatusMessage(String),
    InfoMessage(String),
}

/// An inbound command named a control this session never declared: a
/// contract violation between host and session, fatal to the session.
#[derive(Clone, Copy, Debug, PartialEq, Eq, Structural)]
pub struct ProtocolViolation {
    pub control_number: u8,
}

/// The affordance pair after a mode query or a toggle: full logging leaves
/// only the turn-off toggle enabled, anything else only the turn-on one.
pub open spec fn affordances_for_mode(mode: BtsnoopLogMode) -> ToggleAffordanceState {
    ToggleAffordanceState {
        logging_on_enabled: mode != BtsnoopLogMode::Full,
        logging_off_enabled: mode == BtsnoopLogMode::Full,
    }
}

/// The affordance pair after a mode query or a toggle is always
/// well-formed: exactly one toggle is enabled.
pub proof fn lemma_affordances_well_formed(mode: BtsnoopLogMode)
    ensures
        affordances_for_mode(mode).wf(),
{
}

/// The startup updates: after the initial mode query, a fully-enabled log
/// disables the turn-on toggle and enables the turn-off one; any other
/// mode emits the opposite pair and a status line noting logging is off.
pub fn startup_updates(mode: BtsnoopLogMode) -> (r: (ToggleAffordanceState, Vec<ControlUpdate>))
    ensures
        r.0 == affordances_for_mode(mode),
        r.0.wf(),
        mode == BtsnoopLogMode::Full ==> {
            &&& r.1@.len() == 2
            &&& r.1@[0] matches ControlUpdate::AffordanceState { control_number, enabled }
                && control_number == LOGGING_ON_CONTROL && !enabled
            &&& r.1@[1] matches ControlUpdate::AffordanceState { control_number, enabled }
                && control_number == LOGGING_OFF_CONTROL && enabled
        },
        mode != BtsnoopLogMode::Full ==> {
            &&& r.1@.len() == 3
            &&& r.1@[0] matches ControlUpdate::AffordanceState { control_number, enabled }
                && control_number == LOGGING_OFF_CONTROL && !enabled
            &&& r.1@[1] matches ControlUpdate::AffordanceState { control_number, enabled }
                && control_number == LOGGING_ON_CONTROL && enabled
            &&& r.1@[2] matches ControlUpdate::StatusMessage(m) && m@
                == "BTsnoop logging is turned off. Use View > Interface Toolbars to show the buttons to turn it on"@
        },
{
    let mut updates: Vec<ControlUpdate> = Vec::new();
    match mode {
        BtsnoopLogMode::Full => {
            updates.push(
                ControlUpdate::AffordanceState {
                    control_number: LOGGING_ON_CONTROL,
                    enabled: false,
                },
            );
            updates.push(
                ControlUpdate::AffordanceState {
                    control_number: LOGGING_OFF_CONTROL,
                    enabled: true,
                },
            );
            (
                ToggleAffordanceState { logging_on_enabled: false, logging_off_enabled: true },
                updates,
            )
        },
        _ => {
            updates.push(
                ControlUpdate::AffordanceState {
                    control_number: LOGGING_OFF_CONTROL,
                    enabled: false,
                },
            );
            updates.push(
                ControlUpdate::AffordanceState {
                    control_number: LOGGING_ON_CONTROL,
                    enabled: true,
                },
            );
            updates.push(
                ControlUpdate::StatusMessage(
                    "BTsnoop logging is turned off. Use View > Interface Toolbars to show the buttons to turn it on".to_owned(),
                ),
            );
            (
                ToggleAffordanceState { logging_on_enabled: true, logging_off_enabled: false },
                updates,
            )
        },
    }
}

/// Reacts to one inbound control command. A set on the turn-on control
/// yields, in order, a mode change to full logging and two affordance
/// updates (turn-on disabled, turn-off enabled); a set on the turn-off
/// control yields the mode change to disabled and the opposite pair; a set
/// on any other control is a protocol violation; every other command kind
/// does nothing. The shared affordance pair is flipped in lockstep.
pub fn handle_control_command(
    state: &mut ToggleAffordanceState,
    kind: ControlCommandKind,
    control_number: u8,
) -> (r: Result<Vec<ControlAction>, ProtocolViolation>)
    ensures
        kind != ControlCommandKind::SetValue ==> (r matches Ok(actions) && actions@.len() == 0
            && *final(state) == *old(state)),
        kind == ControlCommandKind::SetValue && control_number == LOGGING_ON_CONTROL ==> {
            &&& r matches Ok(actions) && actions@.len() == 3 && (actions@[0]
                matches ControlAction::SetLogMode(m) && m == BtsnoopLogMode::Full) && (actions@[1]
                matches ControlAction::SendUpdate(
                    ControlUpdate::AffordanceState { control_number: c, enabled: e },
                ) && c == LOGGING_ON_CONTROL && !e) && (actions@[2]
                matches ControlAction::SendUpdate(
                    ControlUpdate::AffordanceState { control_number: c, enabled: e },
                ) && c == LOGGING_OFF_CONTROL && e)
            &&& *final(state) == affordances_for_mode(BtsnoopLogMode::Full)
        },
        kind == ControlCommandKind::SetValue && control_number == LOGGING_OFF_CONTROL ==> {
            &&& r matches Ok(actions) && actions@.len() == 3 && (actions@[0]
                matches ControlAction::SetLogMode(m) && m == BtsnoopLogMode::Disabled) && (
            actions@[1] matches ControlAction::SendUpdate(
                ControlUpdate::AffordanceState { control_number: c, enabled: e },
            ) && c == LOGGING_OFF_CONTROL && !e) && (actions@[2]
                matches ControlAction::SendUpdate(
                    ControlUpdate::AffordanceState { control_number: c, enabled: e },
                ) && c == LOGGING_ON_CONTROL && e)
            &&& *final(state) == affordances_for_mode(BtsnoopLogMode::Disabled)
        },
        kind == ControlCommandKind::SetValue && control_number != LOGGING_ON_CONTROL
            && control_number != LOGGING_OFF_CONTROL ==> (r matches Err(v) && v.control_number
            == control_number && *final(state) == *old(state)),
        final(state).wf() || *final(state) == *old(state),
{
    if !matches!(kind, ControlCommandKind::SetValue) {
        return Ok(Vec::new());
    }
    let mut actions: Vec<ControlAction> = Vec::new();
    if control_number == LOGGING_ON_CONTROL {
        actions.push(ControlAction::SetLogMode(BtsnoopLogMode::Full));
        actions.push(
            ControlAction::SendUpdate(
                ControlUpdate::AffordanceState {
                    control_number: LOGGING_ON_CONTROL,
                    enabled: false,
                },
            ),
        );
        actions.push(
            ControlAction::SendUpdate(
                ControlUpdate::AffordanceState {
                    control_number: LOGGING_OFF_CONTROL,
                    enabled: true,
                },
            ),
        );
        *state = ToggleAffordanceState { logging_on_enabled: false, logging_off_enabled: true };
        Ok(actions)
    } else if control_number == LOGGING_OFF_CONTROL {
        actions.push(ControlAction::SetLogMode(BtsnoopLogMode::Disabled));
        actions.push(
            ControlAction::SendUpdate(
                ControlUpdate::AffordanceState {
                    control_number: LOGGING_OFF_CONTROL,
                    enabled: false,
                },
            ),
        );
        actions.push(
            ControlAction::SendUpdate(
                ControlUpdate::AffordanceState {
                    control_number: LOGGING_ON_CONTROL,
                    enabled: true,
                },
            ),
        );
        *state = ToggleAffordanceState { logging_on_enabled: true, logging_off_enabled: false };
        Ok(actions)
    } else {
        Err(ProtocolViolation { control_number })
    }
}

} // verus!
