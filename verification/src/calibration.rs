//! VCO calibration as a state machine.
//!
//! Calibration reads register 0x1C, writes its bit 7 (calibration start) as
//! 0, 1 and 0 again with the other bits as read, then reads register 0x99,
//! whose five high bits are the band the VCO settled in. The machine decides
//! each register access from what came back from the one before; the caller
//! performs the accesses on the bus and reports back.

use vstd::prelude::*;

verus! {

/// The register that holds the calibration start bit.
pub const VCO_CONTROL_REGISTER: u8 = 0x1C;

/// The register whose five high bits report the VCO band index.
pub const VCO_STATUS_REGISTER: u8 = 0x99;

/// Where the calibration stands.
#[derive(Clone, Copy, Debug, PartialEq, Eq, Structural)]
pub enum CalibrationState {
    /// Nothing done yet.
    Idle,
    /// Reading the control register.
    ReadingControl,
    /// Writing the control register with the start bit clear.
    ClearingBit { control: u8 },
    /// Writing the control register with the start bit set.
    SettingBit { control: u8 },
    /// Writing the control register with the start bit clear again.
    RestoringBit { control: u8 },
    /// Reading the status register.
    ReadingIndex,
    /// Done; the VCO band index was reported.
    Finished { vco_index: u8 },
}

/// What the bus reports back to the machine.
#[derive(Clone, Copy, Debug, PartialEq, Eq, Structural)]
pub enum CalibrationEvent {
    /// Start the calibration.
    Begin,
    /// A register read returned this byte.
    Read(u8),
    /// A register write completed.
    Written,
}

/// What the machine asks the caller to do next.
#[derive(Clone, Copy, Debug, PartialEq, Eq, Structural)]
pub enum CalibrationAction {
    /// Read one byte from this register.
    ReadRegister(u8),
    /// Write this value (second) to this register (first).
    WriteRegister(u8, u8),
    /// Calibration is over; this is the VCO band index.
    Report(u8),
}

/// The control value with the calibration start bit (bit 7) clear.
pub open spec fn bit_cleared(control: u8) -> u8 {
    control & 0x7F
}

/// The control value with the calibration start bit (bit 7) set.
pub open spec fn bit_set(control: u8) -> u8 {
    control | 0x80
}

/// The VCO band index in a status byte: its five high bits.
pub open spec fn index_of(status: u8) -> u8 {
    (status / 8) as u8
}

/// The transition table: the next state and action for a state and an
/// event, or `None` for an event the state does not wait for.
pub open spec fn next_step(state: CalibrationState, event: CalibrationEvent) -> Option<
    (CalibrationState, CalibrationAction),
> {
    match (state, event) {
        (CalibrationState::Idle, CalibrationEvent::Begin) => Some(
            (CalibrationState::ReadingControl, CalibrationAction::ReadRegister(VCO_CONTROL_REGISTER)),
        ),
        (CalibrationState::ReadingControl, CalibrationEvent::Read(control)) => Some(
            (
                CalibrationState::ClearingBit { control },
                CalibrationAction::WriteRegister(VCO_CONTROL_REGISTER, bit_cleared(control)),
            ),
        ),
        (CalibrationState::ClearingBit { control }, CalibrationEvent::Written) => Some(
            (
                CalibrationState::SettingBit { control },
                CalibrationAction::WriteRegister(VCO_CONTROL_REGISTER, bit_set(control)),
            ),
        ),
        (CalibrationState::SettingBit { control }, CalibrationEvent::Written) => Some(
            (
                CalibrationState::RestoringBit { control },
                CalibrationAction::WriteRegister(VCO_CONTROL_REGISTER, bit_cleared(control)),
            ),
        ),
        (CalibrationState::RestoringBit { control }, CalibrationEvent::Written) => Some(
            (CalibrationState::ReadingIndex, CalibrationAction::ReadRegister(VCO_STATUS_REGISTER)),
        ),
        (CalibrationState::ReadingIndex, CalibrationEvent::Read(status)) => Some(
            (
                CalibrationState::Finished { vco_index: index_of(status) },
                CalibrationAction::Report(index_of(status)),
            ),
        ),
        _ => None,
    }
}

/// Runs the machine over a sequence of events: the final state and the
/// actions taken, or `None` if some event came when it was not waited for.
pub open spec fn run(state: CalibrationState, events: Seq<CalibrationEvent>) -> Option<
    (CalibrationState, Seq<CalibrationAction>),
>
    decreases events.len(),
{
    if events.len() == 0 {
        Some((state, Seq::empty()))
    } else {
        match next_step(state, events[0]) {
            None => None,
            Some((after, action)) => match run(after, events.drop_first()) {
                None => None,
                Some((last, actions)) => Some((last, seq![action] + actions)),
            },
        }
    }
}

/// The control value to write with the calibration start bit clear: bits
/// 6..0 as read, bit 7 zero.
pub fn clear_calibration_bit(control: u8) -> (value: u8)
    ensures
        value == bit_cleared(control),
        value % 128 == control % 128,
        value < 128,
{
    assert((control & 0x7F) % 128 == control % 128 && (control & 0x7F) < 128) by (bit_vector);
    control & 0x7F
}

/// The control value to write with the calibration start bit set: bits
/// 6..0 as read, bit 7 one.
pub fn set_calibration_bit(control: u8) -> (value: u8)
    ensures
        value == bit_set(control),
        value % 128 == control % 128,
        value >= 128,
{
    assert((control | 0x80) % 128 == control % 128 && (control | 0x80) >= 128) by (bit_vector);
    control | 0x80
}

/// The VCO band index in a status byte: its five high bits.
pub fn vco_index(status: u8) -> (index: u8)
    ensures
        index == index_of(status),
        index == status / 8,
        index < 32,
{
    assert(status >> 3u8 == status / 8) by (bit_vector);
    status >> 3u8
}

/// One step of the calibration: the next state and the action to perform,
/// or `None` when the state does not wait for this event.
pub fn calibration_step(state: CalibrationState, event: CalibrationEvent) -> (step: Option<
    (CalibrationState, CalibrationAction),
>)
    ensures
        step == next_step(state, event),
{
    match (state, event) {
        (CalibrationState::Idle, CalibrationEvent::Begin) => Some(
            (CalibrationState::ReadingControl, CalibrationAction::ReadRegister(VCO_CONTROL_REGISTER)),
        ),
        (CalibrationState::ReadingControl, CalibrationEvent::Read(control)) => Some(
            (
                CalibrationState::ClearingBit { control },
                CalibrationAction::WriteRegister(
                    VCO_CONTROL_REGISTER,
                    clear_calibration_bit(control),
                ),
            ),
        ),
        (CalibrationState::ClearingBit { control }, CalibrationEvent::Written) => Some(
            (
                CalibrationState::SettingBit { control },
                CalibrationAction::WriteRegister(VCO_CONTROL_REGISTER, set_calibration_bit(control)),
            ),
        ),
        (CalibrationState::SettingBit { control }, CalibrationEvent::Written) => Some(
            (
                CalibrationState::RestoringBit { control },
                CalibrationAction::WriteRegister(
                    VCO_CONTROL_REGISTER,
                    clear_calibration_bit(control),
                ),
            ),
        ),
        (CalibrationState::RestoringBit { .. }, CalibrationEvent::Written) => Some(
            (CalibrationState::ReadingIndex, CalibrationAction::ReadRegister(VCO_STATUS_REGISTER)),
        ),
        (CalibrationState::ReadingIndex, CalibrationEvent::Read(status)) => {
            let index: u8 = vco_index(status);
            Some((CalibrationState::Finished { vco_index: index }, CalibrationAction::Report(index)))
        },
        _ => None,
    }
}

/// The events of a calibration in which the control register reads
/// `control` and the status register `status`.
pub open spec fn calibration_events(control: u8, status: u8) -> Seq<CalibrationEvent> {
    seq![
        CalibrationEvent::Begin,
        CalibrationEvent::Read(control),
        CalibrationEvent::Written,
        CalibrationEvent::Written,
        CalibrationEvent::Written,
        CalibrationEvent::Read(status),
    ]
}

/// The register accesses of a calibration in which the control register
/// reads `control` and the status register `status`, and the report.
pub open spec fn calibration_actions(control: u8, status: u8) -> Seq<CalibrationAction> {
    seq![
        CalibrationAction::ReadRegister(VCO_CONTROL_REGISTER),
        CalibrationAction::WriteRegister(VCO_CONTROL_REGISTER, bit_cleared(control)),
        CalibrationAction::WriteRegister(VCO_CONTROL_REGISTER, bit_set(control)),
        CalibrationAction::WriteRegister(VCO_CONTROL_REGISTER, bit_cleared(control)),
        CalibrationAction::ReadRegister(VCO_STATUS_REGISTER),
        CalibrationAction::Report(index_of(status)),
    ]
}

/// A calibration from the idle state reads the control register, writes it
/// back three times with the start bit 0, 1, 0, reads the status register
/// and reports the index in its five high bits, then is finished.
pub proof fn lemma_calibration_run(control: u8, status: u8)
    ensures
        run(CalibrationState::Idle, calibration_events(control, status)) == Some(
            (
                CalibrationState::Finished { vco_index: index_of(status) },
                calibration_actions(control, status),
            ),
        ),
{
    let events: Seq<CalibrationEvent> = calibration_events(control, status);
    let e1: Seq<CalibrationEvent> = events.drop_first();
    let e2: Seq<CalibrationEvent> = e1.drop_first();
    let e3: Seq<CalibrationEvent> = e2.drop_first();
    let e4: Seq<CalibrationEvent> = e3.drop_first();
    let e5: Seq<CalibrationEvent> = e4.drop_first();
    let e6: Seq<CalibrationEvent> = e5.drop_first();
    assert(e6.len() == 0);
    let done = CalibrationState::Finished { vco_index: index_of(status) };
    assert(run(done, e6) == Some((done, Seq::<CalibrationAction>::empty())));
    let a6 = CalibrationAction::Report(index_of(status));
    assert(run(CalibrationState::ReadingIndex, e5) == Some((done, seq![a6])));
    let a5 = CalibrationAction::ReadRegister(VCO_STATUS_REGISTER);
    assert(run(CalibrationState::RestoringBit { control }, e4) == Some((done, seq![a5, a6]))) by {
        assert(seq![a5] + seq![a6] =~= seq![a5, a6]);
    }
    let a4 = CalibrationAction::WriteRegister(VCO_CONTROL_REGISTER, bit_cleared(control));
    assert(run(CalibrationState::SettingBit { control }, e3) == Some((done, seq![a4, a5, a6]))) by {
        assert(seq![a4] + seq![a5, a6] =~= seq![a4, a5, a6]);
    }
    let a3 = CalibrationAction::WriteRegister(VCO_CONTROL_REGISTER, bit_set(control));
    assert(run(CalibrationState::ClearingBit { control }, e2) == Some(
        (done, seq![a3, a4, a5, a6]),
    )) by {
        assert(seq![a3] + seq![a4, a5, a6] =~= seq![a3, a4, a5, a6]);
    }
    let a2 = CalibrationAction::WriteRegister(VCO_CONTROL_REGISTER, bit_cleared(control));
    assert(run(CalibrationState::ReadingControl, e1) == Some((done, seq![a2, a3, a4, a5, a6])))
        by {
        assert(seq![a2] + seq![a3, a4, a5, a6] =~= seq![a2, a3, a4, a5, a6]);
    }
    let a1 = CalibrationAction::ReadRegister(VCO_CONTROL_REGISTER);
    assert(seq![a1] + seq![a2, a3, a4, a5, a6] =~= calibration_actions(control, status));
}

/// The three writes of a calibration keep bits 6..0 of the control
/// register as read and drive its start bit 0, 1, 0.
pub proof fn lemma_calibration_pulse(control: u8)
    ensures
        bit_cleared(control) % 128 == control % 128,
        bit_set(control) % 128 == control % 128,
        bit_cleared(control) / 128 == 0,
        bit_set(control) / 128 == 1,
{
    assert((control & 0x7F) % 128 == control % 128 && (control | 0x80) % 128 == control % 128
        && (control & 0x7F) / 128 == 0 && (control | 0x80) / 128 == 1) by (bit_vector);
}

/// Once finished, the machine takes no further event.
pub proof fn lemma_finished_is_final(vco_index: u8, event: CalibrationEvent)
    ensures
        next_step(CalibrationState::Finished { vco_index }, event) is None,
{
}

} // verus!
