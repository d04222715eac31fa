//! Command set and command sequences of the 1.54 inch panel, 200 by 200
//! pixels.

use vstd::prelude::*;

use crate::panel::WaveformTable;
use crate::wire::{
    await_idle, command, command_with_data, copy_bytes, data, emit_await_idle, emit_command,
    emit_command_with_data, emit_data, emit_reset, fill_bytes, filled, listing, reset_pulse,
    Action,
};

verus! {

pub const WIDTH: u32 = 200;

pub const HEIGHT: u32 = 200;

/// Pixels per addressing unit of a partial update.
pub const GRANULARITY: u32 = 8;

/// Bytes of one full frame.
pub const FRAME_BYTES: usize = 5000;

/// The busy line is high while the panel works.
pub const BUSY_LEVEL: bool = true;

pub const DRIVER_OUTPUT_CONTROL: u8 = 0x01;

pub const BOOSTER_SOFT_START_CONTROL: u8 = 0x0C;

pub const DEEP_SLEEP_MODE: u8 = 0x10;

pub const DATA_ENTRY_MODE_SETTING: u8 = 0x11;

pub const MASTER_ACTIVATION: u8 = 0x20;

pub const DISPLAY_UPDATE_CONTROL_2: u8 = 0x22;

pub const WRITE_RAM: u8 = 0x24;

pub const WRITE_VCOM_REGISTER: u8 = 0x2C;

pub const WRITE_LUT_REGISTER: u8 = 0x32;

pub const SET_DUMMY_LINE_PERIOD: u8 = 0x3A;

pub const SET_GATE_LINE_WIDTH: u8 = 0x3B;

pub const SET_RAM_X_ADDRESS_START_END_POSITION: u8 = 0x44;

pub const SET_RAM_Y_ADDRESS_START_END_POSITION: u8 = 0x45;

pub const SET_RAM_X_ADDRESS_COUNTER: u8 = 0x4E;

pub const SET_RAM_Y_ADDRESS_COUNTER: u8 = 0x4F;

pub const NOP: u8 = 0xFF;

/// Waveform of a full refresh.
pub const LUT_FULL_UPDATE: [u8; 30] = [
    0x02, 0x02, 0x01, 0x11, 0x12, 0x12, 0x22, 0x22,
    0x66, 0x69, 0x69, 0x59, 0x58, 0x99, 0x99, 0x88,
    0x00, 0x00, 0x00, 0x00, 0xF8, 0xB4, 0x13, 0x51,
    0x35, 0x51, 0x51, 0x19, 0x01, 0x00,
];

/// Waveform of a quick, partial refresh.
pub const LUT_PARTIAL_UPDATE: [u8; 30] = [
    0x10, 0x18, 0x18, 0x08, 0x18, 0x18, 0x08, 0x00,
    0x00, 0x00, 0x00, 0x00, 0x00, 0x00, 0x00, 0x00,
    0x00, 0x00, 0x00, 0x00, 0x13, 0x14, 0x44, 0x12,
    0x00, 0x00, 0x00, 0x00, 0x00, 0x00,
];

/// The bytes of a waveform table; the panel's default is the full refresh.
pub open spec fn waveform(table: Option<WaveformTable>) -> Seq<u8> {
    match table {
        Some(WaveformTable::Quick) => LUT_PARTIAL_UPDATE@,
        _ => LUT_FULL_UPDATE@,
    }
}

/// Loads a waveform table and waits for the panel to take it.
pub open spec fn set_lut(table: Option<WaveformTable>) -> Seq<Action<Seq<u8>>> {
    command_with_data(WRITE_LUT_REGISTER, waveform(table)) + await_idle()
}

/// Hardware reset, register programming, a wait for the panel, and the
/// default waveform table.
pub open spec fn init(reset_low_ms: u32, reset_high_ms: u32) -> Seq<Action<Seq<u8>>> {
    reset_pulse(reset_low_ms, reset_high_ms) + command_with_data(
        DRIVER_OUTPUT_CONTROL,
        [200u8, 0x00u8, 0x00u8]@,
    ) + command_with_data(BOOSTER_SOFT_START_CONTROL, [0xD7u8, 0xD6u8, 0x9Du8]@)
        + command_with_data(WRITE_VCOM_REGISTER, [0xA8u8]@) + command_with_data(
        SET_DUMMY_LINE_PERIOD,
        [0x1Au8]@,
    ) + command_with_data(SET_GATE_LINE_WIDTH, [0x08u8]@) + command_with_data(
        DATA_ENTRY_MODE_SETTING,
        [0x03u8]@,
    ) + await_idle() + set_lut(None)
}

/// Points the panel's memory at the window of `w` by `h` pixels whose top
/// left pixel is `(x, y)`: first and last byte column, first and last row,
/// then the address counter at the window's start. Columns are counted in
/// bytes, so the low three bits of `x` are dropped.
pub open spec fn ram_window(x: int, y: int, w: int, h: int) -> Seq<Action<Seq<u8>>> {
    command_with_data(
        SET_RAM_X_ADDRESS_START_END_POSITION,
        [(x / 8) as u8, ((x + w - 1) / 8) as u8]@,
    ) + command_with_data(
        SET_RAM_Y_ADDRESS_START_END_POSITION,
        [(y % 256) as u8, (y / 256) as u8, ((y + h - 1) % 256) as u8, ((y + h - 1) / 256) as u8]@,
    ) + command_with_data(SET_RAM_X_ADDRESS_COUNTER, [(x / 8) as u8]@) + command_with_data(
        SET_RAM_Y_ADDRESS_COUNTER,
        [(y % 256) as u8, (y / 256) as u8]@,
    )
}

/// Fills the whole image memory with white.
pub open spec fn clear_frame() -> Seq<Action<Seq<u8>>> {
    ram_window(0, 0, WIDTH as int, HEIGHT as int) + command(WRITE_RAM) + data(
        filled(0xffu8, FRAME_BYTES as nat),
    ) + await_idle()
}

/// Sends a full frame as the new image.
pub open spec fn update_frame(frame: Seq<u8>) -> Seq<Action<Seq<u8>>> {
    ram_window(0, 0, WIDTH as int, HEIGHT as int) + command_with_data(WRITE_RAM, frame)
        + await_idle()
}

/// Sends the bytes of one window as the new image of that window.
pub open spec fn update_partial_frame(window: Seq<u8>, x: int, y: int, w: int, h: int) -> Seq<
    Action<Seq<u8>>,
> {
    ram_window(x, y, w, h) + command_with_data(WRITE_RAM, window) + await_idle()
}

/// Starts a refresh and waits until the panel has redrawn.
pub open spec fn display_frame() -> Seq<Action<Seq<u8>>> {
    command_with_data(DISPLAY_UPDATE_CONTROL_2, [0xC4u8]@) + command(MASTER_ACTIVATION)
        + command(NOP) + await_idle()
}

/// Sends the panel to deep sleep.
pub open spec fn sleep() -> Seq<Action<Seq<u8>>> {
    command_with_data(DEEP_SLEEP_MODE, [0x00u8]@)
}

/// Appends the actions of a waveform selection.
pub(crate) fn emit_set_lut(program: &mut Vec<Action<Vec<u8>>>, table: Option<WaveformTable>)
    ensures
        listing(final(program)@) == listing(old(program)@) + set_lut(table),
{
    let bytes = match table {
        Some(WaveformTable::Quick) => copy_bytes(&LUT_PARTIAL_UPDATE),
        _ => copy_bytes(&LUT_FULL_UPDATE),
    };
    emit_command_with_data(program, WRITE_LUT_REGISTER, bytes);
    emit_await_idle(program);
    assert(listing(program@) =~= listing(old(program)@) + set_lut(table));
}

/// Appends the actions of initialisation.
pub(crate) fn emit_init(program: &mut Vec<Action<Vec<u8>>>, reset_low_ms: u32, reset_high_ms: u32)
    ensures
        listing(final(program)@) == listing(old(program)@) + init(reset_low_ms, reset_high_ms),
{
    emit_reset(program, reset_low_ms, reset_high_ms);
    emit_command_with_data(program, DRIVER_OUTPUT_CONTROL, vec![200, 0x00, 0x00]);
    emit_command_with_data(program, BOOSTER_SOFT_START_CONTROL, vec![0xD7, 0xD6, 0x9D]);
    emit_command_with_data(program, WRITE_VCOM_REGISTER, vec![0xA8]);
    emit_command_with_data(program, SET_DUMMY_LINE_PERIOD, vec![0x1A]);
    emit_command_with_data(program, SET_GATE_LINE_WIDTH, vec![0x08]);
    emit_command_with_data(program, DATA_ENTRY_MODE_SETTING, vec![0x03]);
    emit_await_idle(program);
    emit_set_lut(program, None);
    assert(listing(program@) =~= listing(old(program)@) + init(reset_low_ms, reset_high_ms));
}

/// Appends the actions of a memory window.
pub(crate) fn emit_ram_window(program: &mut Vec<Action<Vec<u8>>>, x: u32, y: u32, w: u32, h: u32)
    requires
        w > 0,
        h > 0,
        x + w <= WIDTH,
        y + h <= HEIGHT,
    ensures
        listing(final(program)@) == listing(old(program)@) + ram_window(
            x as int,
            y as int,
            w as int,
            h as int,
        ),
{
    let last_x: u32 = x + w - 1;
    let last_y: u32 = y + h - 1;
    emit_command_with_data(
        program,
        SET_RAM_X_ADDRESS_START_END_POSITION,
        vec![(x / 8) as u8, (last_x / 8) as u8],
    );
    emit_command_with_data(
        program,
        SET_RAM_Y_ADDRESS_START_END_POSITION,
        vec![(y % 256) as u8, (y / 256) as u8, (last_y % 256) as u8, (last_y / 256) as u8],
    );
    emit_command_with_data(program, SET_RAM_X_ADDRESS_COUNTER, vec![(x / 8) as u8]);
    emit_command_with_data(
        program,
        SET_RAM_Y_ADDRESS_COUNTER,
        vec![(y % 256) as u8, (y / 256) as u8],
    );
    assert(listing(program@) =~= listing(old(program)@) + ram_window(
        x as int,
        y as int,
        w as int,
        h as int,
    ));
}

/// Appends the actions of a frame clear.
pub(crate) fn emit_clear_frame(program: &mut Vec<Action<Vec<u8>>>)
    ensures
        listing(final(program)@) == listing(old(program)@) + clear_frame(),
{
    emit_ram_window(program, 0, 0, WIDTH, HEIGHT);
    emit_command(program, WRITE_RAM);
    emit_data(program, fill_bytes(0xff, FRAME_BYTES));
    emit_await_idle(program);
    assert(listing(program@) =~= listing(old(program)@) + clear_frame());
}

/// Appends the actions of a full-frame update.
pub(crate) fn emit_update_frame(program: &mut Vec<Action<Vec<u8>>>, frame: Vec<u8>)
    ensures
        listing(final(program)@) == listing(old(program)@) + update_frame(frame@),
{
    emit_ram_window(program, 0, 0, WIDTH, HEIGHT);
    emit_command_with_data(program, WRITE_RAM, frame);
    emit_await_idle(program);
    assert(listing(program@) =~= listing(old(program)@) + update_frame(frame@));
}

/// Appends the actions of a partial update.
pub(crate) fn emit_update_partial_frame(
    program: &mut Vec<Action<Vec<u8>>>,
    window: Vec<u8>,
    x: u32,
    y: u32,
    w: u32,
    h: u32,
)
    requires
        w > 0,
        h > 0,
        x + w <= WIDTH,
        y + h <= HEIGHT,
    ensures
        listing(final(program)@) == listing(old(program)@) + update_partial_frame(
            window@,
            x as int,
            y as int,
            w as int,
            h as int,
        ),
{
    emit_ram_window(program, x, y, w, h);
    emit_command_with_data(program, WRITE_RAM, window);
    emit_await_idle(program);
    assert(listing(program@) =~= listing(old(program)@) + update_partial_frame(
        window@,
        x as int,
        y as int,
        w as int,
        h as int,
    ));
}

/// Appends the actions of a refresh.
pub(crate) fn emit_display_frame(program: &mut Vec<Action<Vec<u8>>>)
    ensures
        listing(final(program)@) == listing(old(program)@) + display_frame(),
{
    emit_command_with_data(program, DISPLAY_UPDATE_CONTROL_2, vec![0xC4]);
    emit_command(program, MASTER_ACTIVATION);
    emit_command(program, NOP);
    emit_await_idle(program);
    assert(listing(program@) =~= listing(old(program)@) + display_frame());
}

/// Appends the actions of the way to deep sleep.
pub(crate) fn emit_sleep(program: &mut Vec<Action<Vec<u8>>>)
    ensures
        listing(final(program)@) == listing(old(program)@) + sleep(),
{
    emit_command_with_data(program, DEEP_SLEEP_MODE, vec![0x00]);
}

} // verus!
