//! The alphabet in which the controller talks to its caller.
//!
//! The controller performs no input or output. It hands out [`Action`]s, one
//! at a time; the caller performs each on the real bus and control lines and
//! answers with an [`Event`]. A run of actions ends with
//! [`Progress::Finished`].

use vstd::prelude::*;

use crate::error::Error;

verus! {

/// The control lines that the controller drives.
#[derive(Clone, Copy, Debug, PartialEq, Eq, Structural)]
pub enum Line {
    /// Selects the panel on the bus; active low.
    ChipSelect,
    /// Low while a command byte is on the bus, high while data is.
    DataCommand,
    /// Hardware reset; active low.
    Reset,
}

/// One thing for the caller to do on the hardware. `B` is the form of a
/// payload: `Vec<u8>` in executable code, `Seq<u8>` in specifications.
#[derive(Debug, PartialEq, Eq)]
pub enum Action<B> {
    /// Drive a control line high or low.
    Drive { line: Line, high: bool },
    /// Write these bytes to the bus.
    Write { bytes: B },
    /// Do nothing for this many milliseconds.
    Delay { ms: u32 },
    /// Read the level of the busy line.
    SampleBusy,
}

/// What the controller wants next: an action performed, or nothing more
/// because the operation has ended.
#[derive(Debug, PartialEq, Eq)]
pub enum Progress<B> {
    Perform(Action<B>),
    Finished(Result<(), Error>),
}

/// What the caller reports after performing an action.
#[derive(Clone, Copy, Debug, PartialEq, Eq, Structural)]
pub enum Event {
    /// A line was driven, bytes were written or a delay has passed.
    Done,
    /// The busy line was read and had this level.
    Level { high: bool },
    /// The action failed.
    Fault,
}

impl View for Action<Vec<u8>> {
    type V = Action<Seq<u8>>;

    open spec fn view(&self) -> Action<Seq<u8>> {
        match *self {
            Action::Drive { line, high } => Action::Drive { line, high },
            Action::Write { bytes } => Action::Write { bytes: bytes@ },
            Action::Delay { ms } => Action::Delay { ms },
            Action::SampleBusy => Action::SampleBusy,
        }
    }
}

impl View for Progress<Vec<u8>> {
    type V = Progress<Seq<u8>>;

    open spec fn view(&self) -> Progress<Seq<u8>> {
        match *self {
            Progress::Perform(action) => Progress::Perform(action@),
            Progress::Finished(result) => Progress::Finished(result),
        }
    }
}

/// The actions of a stored program, payloads as sequences.
pub open spec fn listing(program: Seq<Action<Vec<u8>>>) -> Seq<Action<Seq<u8>>> {
    Seq::new(program.len(), |i: int| program[i]@)
}

/// Sends one command byte: data/command low, then the byte inside a
/// chip-select frame.
pub open spec fn command(opcode: u8) -> Seq<Action<Seq<u8>>> {
    seq![
        Action::Drive { line: Line::DataCommand, high: false },
        Action::Drive { line: Line::ChipSelect, high: false },
        Action::Write { bytes: seq![opcode] },
        Action::Drive { line: Line::ChipSelect, high: true },
    ]
}

/// Sends data bytes: data/command high, then the bytes inside a chip-select
/// frame.
pub open spec fn data(bytes: Seq<u8>) -> Seq<Action<Seq<u8>>> {
    seq![
        Action::Drive { line: Line::DataCommand, high: true },
        Action::Drive { line: Line::ChipSelect, high: false },
        Action::Write { bytes },
        Action::Drive { line: Line::ChipSelect, high: true },
    ]
}

/// A command followed by its parameter bytes.
pub open spec fn command_with_data(opcode: u8, bytes: Seq<u8>) -> Seq<Action<Seq<u8>>> {
    command(opcode) + data(bytes)
}

/// Pulls the reset line low for `low_ms`, then releases it and lets the
/// panel settle for `high_ms`.
pub open spec fn reset_pulse(low_ms: u32, high_ms: u32) -> Seq<Action<Seq<u8>>> {
    seq![
        Action::Drive { line: Line::Reset, high: false },
        Action::Delay { ms: low_ms },
        Action::Drive { line: Line::Reset, high: true },
        Action::Delay { ms: high_ms },
    ]
}

/// A fixed delay.
pub open spec fn pause(ms: u32) -> Seq<Action<Seq<u8>>> {
    seq![Action::Delay { ms }]
}

/// Waits until the panel reports idle. In a program, a `SampleBusy` entry
/// is repeated, with a delay between samples, until the busy line clears.
pub open spec fn await_idle() -> Seq<Action<Seq<u8>>> {
    seq![Action::SampleBusy]
}

/// `count` bytes of one value.
pub open spec fn filled(value: u8, count: nat) -> Seq<u8> {
    Seq::new(count, |i: int| value)
}

/// Appends the actions of one command byte.
pub(crate) fn emit_command(program: &mut Vec<Action<Vec<u8>>>, opcode: u8)
    ensures
        listing(final(program)@) == listing(old(program)@) + command(opcode),
{
    let mut bytes: Vec<u8> = Vec::new();
    bytes.push(opcode);
    assert(bytes@ =~= seq![opcode]);
    program.push(Action::Drive { line: Line::DataCommand, high: false });
    program.push(Action::Drive { line: Line::ChipSelect, high: false });
    program.push(Action::Write { bytes });
    program.push(Action::Drive { line: Line::ChipSelect, high: true });
    assert(listing(program@) =~= listing(old(program)@) + command(opcode));
}

/// Appends the actions of a run of data bytes.
pub(crate) fn emit_data(program: &mut Vec<Action<Vec<u8>>>, bytes: Vec<u8>)
    ensures
        listing(final(program)@) == listing(old(program)@) + data(bytes@),
{
    let ghost payload = bytes@;
    program.push(Action::Drive { line: Line::DataCommand, high: true });
    program.push(Action::Drive { line: Line::ChipSelect, high: false });
    program.push(Action::Write { bytes });
    program.push(Action::Drive { line: Line::ChipSelect, high: true });
    assert(listing(program@) =~= listing(old(program)@) + data(payload));
}

/// Appends the actions of a command and its parameter bytes.
pub(crate) fn emit_command_with_data(program: &mut Vec<Action<Vec<u8>>>, opcode: u8, bytes: Vec<u8>)
    ensures
        listing(final(program)@) == listing(old(program)@) + command_with_data(opcode, bytes@),
{
    emit_command(program, opcode);
    emit_data(program, bytes);
    assert(listing(program@) =~= listing(old(program)@) + command_with_data(opcode, bytes@));
}

/// Appends the actions of a reset pulse.
pub(crate) fn emit_reset(program: &mut Vec<Action<Vec<u8>>>, low_ms: u32, high_ms: u32)
    ensures
        listing(final(program)@) == listing(old(program)@) + reset_pulse(low_ms, high_ms),
{
    program.push(Action::Drive { line: Line::Reset, high: false });
    program.push(Action::Delay { ms: low_ms });
    program.push(Action::Drive { line: Line::Reset, high: true });
    program.push(Action::Delay { ms: high_ms });
    assert(listing(program@) =~= listing(old(program)@) + reset_pulse(low_ms, high_ms));
}

/// Appends a fixed delay.
pub(crate) fn emit_pause(program: &mut Vec<Action<Vec<u8>>>, ms: u32)
    ensures
        listing(final(program)@) == listing(old(program)@) + pause(ms),
{
    program.push(Action::Delay { ms });
    assert(listing(program@) =~= listing(old(program)@) + pause(ms));
}

/// Appends a wait for the panel.
pub(crate) fn emit_await_idle(program: &mut Vec<Action<Vec<u8>>>)
    ensures
        listing(final(program)@) == listing(old(program)@) + await_idle(),
{
    program.push(Action::SampleBusy);
    assert(listing(program@) =~= listing(old(program)@) + await_idle());
}

/// A vector of `count` bytes of one value.
pub fn fill_bytes(value: u8, count: usize) -> (bytes: Vec<u8>)
    ensures
        bytes@ == filled(value, count as nat),
{
    let mut bytes: Vec<u8> = Vec::new();
    let mut i: usize = 0;
    while i < count
        invariant
            i <= count,
            bytes@.len() == i,
            forall|k: int| 0 <= k < i ==> bytes@[k] == value,
        decreases count - i,
    {
        bytes.push(value);
        i += 1;
    }
    assert(bytes@ =~= filled(value, count as nat));
    bytes
}

/// A copy of `source`.
pub fn copy_bytes(source: &[u8]) -> (bytes: Vec<u8>)
    ensures
        bytes@ == source@,
{
    let mut bytes: Vec<u8> = Vec::new();
    let mut i: usize = 0;
    while i < source.len()
        invariant
            i <= source@.len(),
            bytes@ == source@.take(i as int),
        decreases source@.len() - i,
    {
        bytes.push(source[i]);
        i += 1;
        assert(bytes@ =~= source@.take(i as int));
    }
    assert(source@.take(source@.len() as int) =~= source@);
    bytes
}

} // verus!
