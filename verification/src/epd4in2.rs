//! Command set and command sequences of the 4.2 inch panel, 400 by 300
//! pixels.

use vstd::prelude::*;

use crate::panel::WaveformTable;
use crate::wire::{
    await_idle, command, command_with_data, copy_bytes, data, emit_await_idle, emit_command,
    emit_command_with_data, emit_data, emit_pause, emit_reset, fill_bytes, filled, listing,
    pause, reset_pulse, Action,
};

verus! {

pub const WIDTH: u32 = 400;

pub const HEIGHT: u32 = 300;

/// Pixels per addressing unit of a partial update.
pub const GRANULARITY: u32 = 8;

/// Bytes of one full frame.
pub const FRAME_BYTES: usize = 15000;

/// The busy line is low while the panel works.
pub const BUSY_LEVEL: bool = false;

/// Milliseconds the panel is given after the power-on command.
pub const POWER_ON_MS: u32 = 5;

pub const PANEL_SETTING: u8 = 0x00;

pub const POWER_SETTING: u8 = 0x01;

pub const POWER_OFF: u8 = 0x02;

pub const POWER_ON: u8 = 0x04;

pub const BOOSTER_SOFT_START: u8 = 0x06;

pub const DEEP_SLEEP: u8 = 0x07;

pub const DATA_START_TRANSMISSION_1: u8 = 0x10;

pub const DISPLAY_REFRESH: u8 = 0x12;

pub const DATA_START_TRANSMISSION_2: u8 = 0x13;

pub const LUT_FOR_VCOM: u8 = 0x20;

pub const LUT_WHITE_TO_WHITE: u8 = 0x21;

pub const LUT_BLACK_TO_WHITE: u8 = 0x22;

pub const LUT_WHITE_TO_BLACK: u8 = 0x23;

pub const LUT_BLACK_TO_BLACK: u8 = 0x24;

pub const PLL_CONTROL: u8 = 0x30;

pub const VCOM_AND_DATA_INTERVAL_SETTING: u8 = 0x50;

pub const RESOLUTION_SETTING: u8 = 0x61;

pub const VCM_DC_SETTING: u8 = 0x82;

pub const PARTIAL_WINDOW: u8 = 0x90;

pub const PARTIAL_IN: u8 = 0x91;

pub const PARTIAL_OUT: u8 = 0x92;

pub const LUT_VCOM0: [u8; 44] = [
    0x00, 0x17, 0x00, 0x00, 0x00, 0x02,
    0x00, 0x17, 0x17, 0x00, 0x00, 0x02,
    0x00, 0x0A, 0x01, 0x00, 0x00, 0x01,
    0x00, 0x0E, 0x0E, 0x00, 0x00, 0x02,
    0x00, 0x00, 0x00, 0x00, 0x00, 0x00,
    0x00, 0x00, 0x00, 0x00, 0x00, 0x00,
    0x00, 0x00, 0x00, 0x00, 0x00, 0x00, 0x00, 0x00,
];

pub const LUT_VCOM0_QUICK: [u8; 44] = [
    0x00, 0x0E, 0x00, 0x00, 0x00, 0x01,
    0x00, 0x00, 0x00, 0x00, 0x00, 0x00,
    0x00, 0x00, 0x00, 0x00, 0x00, 0x00,
    0x00, 0x00, 0x00, 0x00, 0x00, 0x00,
    0x00, 0x00, 0x00, 0x00, 0x00, 0x00,
    0x00, 0x00, 0x00, 0x00, 0x00, 0x00,
    0x00, 0x00, 0x00, 0x00, 0x00, 0x00, 0x00, 0x00,
];

pub const LUT_WW: [u8; 42] = [
    0x40, 0x17, 0x00, 0x00, 0x00, 0x02,
    0x90, 0x17, 0x17, 0x00, 0x00, 0x02,
    0x40, 0x0A, 0x01, 0x00, 0x00, 0x01,
    0xA0, 0x0E, 0x0E, 0x00, 0x00, 0x02,
    0x00, 0x00, 0x00, 0x00, 0x00, 0x00,
    0x00, 0x00, 0x00, 0x00, 0x00, 0x00,
    0x00, 0x00, 0x00, 0x00, 0x00, 0x00,
];

pub const LUT_WW_QUICK: [u8; 42] = [
    0xA0, 0x0E, 0x00, 0x00, 0x00, 0x01,
    0x00, 0x00, 0x00, 0x00, 0x00, 0x00,
    0x00, 0x00, 0x00, 0x00, 0x00, 0x00,
    0x00, 0x00, 0x00, 0x00, 0x00, 0x00,
    0x00, 0x00, 0x00, 0x00, 0x00, 0x00,
    0x00, 0x00, 0x00, 0x00, 0x00, 0x00,
    0x00, 0x00, 0x00, 0x00, 0x00, 0x00,
];

pub const LUT_BW: [u8; 42] = [
    0x40, 0x17, 0x00, 0x00, 0x00, 0x02,
    0x90, 0x17, 0x17, 0x00, 0x00, 0x02,
    0x40, 0x0A, 0x01, 0x00, 0x00, 0x01,
    0xA0, 0x0E, 0x0E, 0x00, 0x00, 0x02,
    0x00, 0x00, 0x00, 0x00, 0x00, 0x00,
    0x00, 0x00, 0x00, 0x00, 0x00, 0x00,
    0x00, 0x00, 0x00, 0x00, 0x00, 0x00,
];

pub const LUT_BW_QUICK: [u8; 42] = [
    0xA0, 0x0E, 0x00, 0x00, 0x00, 0x01,
    0x00, 0x00, 0x00, 0x00, 0x00, 0x00,
    0x00, 0x00, 0x00, 0x00, 0x00, 0x00,
    0x00, 0x00, 0x00, 0x00, 0x00, 0x00,
    0x00, 0x00, 0x00, 0x00, 0x00, 0x00,
    0x00, 0x00, 0x00, 0x00, 0x00, 0x00,
    0x00, 0x00, 0x00, 0x00, 0x00, 0x00,
];

pub const LUT_WB: [u8; 42] = [
    0x80, 0x17, 0x00, 0x00, 0x00, 0x02,
    0x90, 0x17, 0x17, 0x00, 0x00, 0x02,
    0x80, 0x0A, 0x01, 0x00, 0x00, 0x01,
    0x50, 0x0E, 0x0E, 0x00, 0x00, 0x02,
    0x00, 0x00, 0x00, 0x00, 0x00, 0x00,
    0x00, 0x00, 0x00, 0x00, 0x00, 0x00,
    0x00, 0x00, 0x00, 0x00, 0x00, 0x00,
];

pub const LUT_WB_QUICK: [u8; 42] = [
    0x50, 0x0E, 0x00, 0x00, 0x00, 0x01,
    0x00, 0x00, 0x00, 0x00, 0x00, 0x00,
    0x00, 0x00, 0x00, 0x00, 0x00, 0x00,
    0x00, 0x00, 0x00, 0x00, 0x00, 0x00,
    0x00, 0x00, 0x00, 0x00, 0x00, 0x00,
    0x00, 0x00, 0x00, 0x00, 0x00, 0x00,
    0x00, 0x00, 0x00, 0x00, 0x00, 0x00,
];

pub const LUT_BB: [u8; 42] = [
    0x80, 0x17, 0x00, 0x00, 0x00, 0x02,
    0x90, 0x17, 0x17, 0x00, 0x00, 0x02,
    0x80, 0x0A, 0x01, 0x00, 0x00, 0x01,
    0x50, 0x0E, 0x0E, 0x00, 0x00, 0x02,
    0x00, 0x00, 0x00, 0x00, 0x00, 0x00,
    0x00, 0x00, 0x00, 0x00, 0x00, 0x00,
    0x00, 0x00, 0x00, 0x00, 0x00, 0x00,
];

pub const LUT_BB_QUICK: [u8; 42] = [
    0x50, 0x0E, 0x00, 0x00, 0x00, 0x01,
    0x00, 0x00, 0x00, 0x00, 0x00, 0x00,
    0x00, 0x00, 0x00, 0x00, 0x00, 0x00,
    0x00, 0x00, 0x00, 0x00, 0x00, 0x00,
    0x00, 0x00, 0x00, 0x00, 0x00, 0x00,
    0x00, 0x00, 0x00, 0x00, 0x00, 0x00,
    0x00, 0x00, 0x00, 0x00, 0x00, 0x00,
];

/// Whether a table selection means the quick waveforms; the panel's default
/// is the full refresh.
pub open spec fn is_quick(table: Option<WaveformTable>) -> bool {
    table == Some(WaveformTable::Quick)
}

/// Loads the five waveform tables and waits for the panel to take them.
pub open spec fn set_lut(table: Option<WaveformTable>) -> Seq<Action<Seq<u8>>> {
    command_with_data(
        LUT_FOR_VCOM,
        if is_quick(table) {
            LUT_VCOM0_QUICK@
        } else {
            LUT_VCOM0@
        },
    ) + command_with_data(
        LUT_WHITE_TO_WHITE,
        if is_quick(table) {
            LUT_WW_QUICK@
        } else {
            LUT_WW@
        },
    ) + command_with_data(
        LUT_BLACK_TO_WHITE,
        if is_quick(table) {
            LUT_BW_QUICK@
        } else {
            LUT_BW@
        },
    ) + command_with_data(
        LUT_WHITE_TO_BLACK,
        if is_quick(table) {
            LUT_WB_QUICK@
        } else {
            LUT_WB@
        },
    ) + command_with_data(
        LUT_BLACK_TO_BLACK,
        if is_quick(table) {
            LUT_BB_QUICK@
        } else {
            LUT_BB@
        },
    ) + await_idle()
}

/// Tells the panel its resolution: width, then height, high byte first.
pub open spec fn resolution() -> Seq<Action<Seq<u8>>> {
    command_with_data(RESOLUTION_SETTING, [0x01u8, 0x90u8, 0x01u8, 0x2Cu8]@)
}

/// Hardware reset, power-on, register programming, a wait for the panel,
/// and the default waveform tables.
pub open spec fn init(reset_low_ms: u32, reset_high_ms: u32) -> Seq<Action<Seq<u8>>> {
    reset_pulse(reset_low_ms, reset_high_ms) + command_with_data(
        POWER_SETTING,
        [0x03u8, 0x00u8, 0x2bu8, 0x2bu8, 0xffu8]@,
    ) + command_with_data(BOOSTER_SOFT_START, [0x17u8, 0x17u8, 0x17u8]@) + command(POWER_ON)
        + pause(POWER_ON_MS) + await_idle() + command_with_data(PANEL_SETTING, [0x3Fu8]@)
        + command_with_data(PLL_CONTROL, [0x3Au8]@) + resolution() + command_with_data(
        VCM_DC_SETTING,
        [0x12u8]@,
    ) + command_with_data(VCOM_AND_DATA_INTERVAL_SETTING, [0x97u8]@) + await_idle() + set_lut(
        None,
    )
}

/// The nine parameter bytes of the partial-window command for the window of
/// `w` by `h` pixels whose top left pixel is `(x, y)`: first and last
/// column, first and last row, each high byte first, then the scan mode.
/// The first column is `x` rounded down to a byte boundary.
pub open spec fn partial_window(x: int, y: int, w: int, h: int) -> Seq<u8> {
    let first = x - x % 8;
    let last = first + w - 1;
    let bottom = y + h - 1;
    [
        (first / 256) as u8,
        (first % 256) as u8,
        (last / 256) as u8,
        (last % 256) as u8,
        (y / 256) as u8,
        (y % 256) as u8,
        (bottom / 256) as u8,
        (bottom % 256) as u8,
        0x01u8,
    ]@
}

/// Fills the old and the new image memory with white.
pub open spec fn clear_frame() -> Seq<Action<Seq<u8>>> {
    resolution() + command(DATA_START_TRANSMISSION_1) + data(filled(0xffu8, FRAME_BYTES as nat))
        + command(DATA_START_TRANSMISSION_2) + data(filled(0xffu8, FRAME_BYTES as nat))
        + await_idle()
}

/// Sends white as the old image and a full frame as the new one.
pub open spec fn update_frame(frame: Seq<u8>) -> Seq<Action<Seq<u8>>> {
    command(DATA_START_TRANSMISSION_1) + data(filled(0xffu8, FRAME_BYTES as nat))
        + command_with_data(DATA_START_TRANSMISSION_2, frame) + await_idle()
}

/// Sends the bytes of one window as the new image of that window.
pub open spec fn update_partial_frame(window: Seq<u8>, x: int, y: int, w: int, h: int) -> Seq<
    Action<Seq<u8>>,
> {
    command(PARTIAL_IN) + command_with_data(PARTIAL_WINDOW, partial_window(x, y, w, h))
        + command_with_data(DATA_START_TRANSMISSION_2, window) + command(PARTIAL_OUT)
        + await_idle()
}

/// Starts a refresh and waits until the panel has redrawn.
pub open spec fn display_frame() -> Seq<Action<Seq<u8>>> {
    command(DISPLAY_REFRESH) + await_idle()
}

/// Floats the border, drops the supply voltages, powers the panel off,
/// waits for it, and sends it to deep sleep.
pub open spec fn sleep() -> Seq<Action<Seq<u8>>> {
    command_with_data(VCOM_AND_DATA_INTERVAL_SETTING, [0x17u8]@) + command(VCM_DC_SETTING)
        + command(PANEL_SETTING) + command_with_data(
        POWER_SETTING,
        [0x00u8, 0x00u8, 0x00u8, 0x00u8]@,
    ) + command(POWER_OFF) + await_idle() + command_with_data(DEEP_SLEEP, [0xA5u8]@)
}

/// Appends the actions of a waveform selection.
pub(crate) fn emit_set_lut(program: &mut Vec<Action<Vec<u8>>>, table: Option<WaveformTable>)
    ensures
        listing(final(program)@) == listing(old(program)@) + set_lut(table),
{
    let quick = match table {
        Some(WaveformTable::Quick) => true,
        _ => false,
    };
    if quick {
        emit_command_with_data(program, LUT_FOR_VCOM, copy_bytes(&LUT_VCOM0_QUICK));
        emit_command_with_data(program, LUT_WHITE_TO_WHITE, copy_bytes(&LUT_WW_QUICK));
        emit_command_with_data(program, LUT_BLACK_TO_WHITE, copy_bytes(&LUT_BW_QUICK));
        emit_command_with_data(program, LUT_WHITE_TO_BLACK, copy_bytes(&LUT_WB_QUICK));
        emit_command_with_data(program, LUT_BLACK_TO_BLACK, copy_bytes(&LUT_BB_QUICK));
    } else {
        emit_command_with_data(program, LUT_FOR_VCOM, copy_bytes(&LUT_VCOM0));
        emit_command_with_data(program, LUT_WHITE_TO_WHITE, copy_bytes(&LUT_WW));
        emit_command_with_data(program, LUT_BLACK_TO_WHITE, copy_bytes(&LUT_BW));
        emit_command_with_data(program, LUT_WHITE_TO_BLACK, copy_bytes(&LUT_WB));
        emit_command_with_data(program, LUT_BLACK_TO_BLACK, copy_bytes(&LUT_BB));
    }
    emit_await_idle(program);
    assert(listing(program@) =~= listing(old(program)@) + set_lut(table));
}

/// Appends the actions of the resolution setting.
pub(crate) fn emit_resolution(program: &mut Vec<Action<Vec<u8>>>)
    ensures
        listing(final(program)@) == listing(old(program)@) + resolution(),
{
    emit_command_with_data(program, RESOLUTION_SETTING, vec![0x01, 0x90, 0x01, 0x2C]);
}

/// Appends the actions of initialisation.
pub(crate) fn emit_init(program: &mut Vec<Action<Vec<u8>>>, reset_low_ms: u32, reset_high_ms: u32)
    ensures
        listing(final(program)@) == listing(old(program)@) + init(reset_low_ms, reset_high_ms),
{
    emit_reset(program, reset_low_ms, reset_high_ms);
    emit_command_with_data(program, POWER_SETTING, vec![0x03, 0x00, 0x2b, 0x2b, 0xff]);
    emit_command_with_data(program, BOOSTER_SOFT_START, vec![0x17, 0x17, 0x17]);
    emit_command(program, POWER_ON);
    emit_pause(program, POWER_ON_MS);
    emit_await_idle(program);
    emit_command_with_data(program, PANEL_SETTING, vec![0x3F]);
    emit_command_with_data(program, PLL_CONTROL, vec![0x3A]);
    emit_resolution(program);
    emit_command_with_data(program, VCM_DC_SETTING, vec![0x12]);
    emit_command_with_data(program, VCOM_AND_DATA_INTERVAL_SETTING, vec![0x97]);
    emit_await_idle(program);
    emit_set_lut(program, None);
    assert(listing(program@) =~= listing(old(program)@) + init(reset_low_ms, reset_high_ms));
}

/// Appends the actions of a frame clear.
pub(crate) fn emit_clear_frame(program: &mut Vec<Action<Vec<u8>>>)
    ensures
        listing(final(program)@) == listing(old(program)@) + clear_frame(),
{
    emit_resolution(program);
    emit_command(program, DATA_START_TRANSMISSION_1);
    emit_data(program, fill_bytes(0xff, FRAME_BYTES));
    emit_command(program, DATA_START_TRANSMISSION_2);
    emit_data(program, fill_bytes(0xff, FRAME_BYTES));
    emit_await_idle(program);
    assert(listing(program@) =~= listing(old(program)@) + clear_frame());
}

/// Appends the actions of a full-frame update.
pub(crate) fn emit_update_frame(program: &mut Vec<Action<Vec<u8>>>, frame: Vec<u8>)
    ensures
        listing(final(program)@) == listing(old(program)@) + update_frame(frame@),
{
    emit_command(program, DATA_START_TRANSMISSION_1);
    emit_data(program, fill_bytes(0xff, FRAME_BYTES));
    emit_command_with_data(program, DATA_START_TRANSMISSION_2, frame);
    emit_await_idle(program);
    assert(listing(program@) =~= listing(old(program)@) + update_frame(frame@));
}

/// Appends the actions of a partial update.
pub(crate) fn emit_update_partial_frame(
    program: &mut Vec<Action<Vec<u8>>>,
    window: Vec<u8>,
    x: u32,
    y: u32,
    w: u32,
    h: u32,
)
    requires
        w > 0,
        h > 0,
        x + w <= WIDTH,
        y + h <= HEIGHT,
    ensures
        listing(final(program)@) == listing(old(program)@) + update_partial_frame(
            window@,
            x as int,
            y as int,
            w as int,
            h as int,
        ),
{
    let first: u32 = x - x % 8;
    let last: u32 = first + w - 1;
    let bottom: u32 = y + h - 1;
    emit_command(program, PARTIAL_IN);
    emit_command_with_data(
        program,
        PARTIAL_WINDOW,
        vec![
            (first / 256) as u8,
            (first % 256) as u8,
            (last / 256) as u8,
            (last % 256) as u8,
            (y / 256) as u8,
            (y % 256) as u8,
            (bottom / 256) as u8,
            (bottom % 256) as u8,
            0x01,
        ],
    );
    emit_command_with_data(program, DATA_START_TRANSMISSION_2, window);
    emit_command(program, PARTIAL_OUT);
    emit_await_idle(program);
    assert(listing(program@) =~= listing(old(program)@) + update_partial_frame(
        window@,
        x as int,
        y as int,
        w as int,
        h as int,
    ));
}

/// Appends the actions of a refresh.
pub(crate) fn emit_display_frame(program: &mut Vec<Action<Vec<u8>>>)
    ensures
        listing(final(program)@) == listing(old(program)@) + display_frame(),
{
    emit_command(program, DISPLAY_REFRESH);
    emit_await_idle(program);
    assert(listing(program@) =~= listing(old(program)@) + display_frame());
}

/// Appends the actions of the way to deep sleep.
pub(crate) fn emit_sleep(program: &mut Vec<Action<Vec<u8>>>)
    ensures
        listing(final(program)@) == listing(old(program)@) + sleep(),
{
    emit_command_with_data(program, VCOM_AND_DATA_INTERVAL_SETTING, vec![0x17]);
    emit_command(program, VCM_DC_SETTING);
    emit_command(program, PANEL_SETTING);
    emit_command_with_data(program, POWER_SETTING, vec![0x00, 0x00, 0x00, 0x00]);
    emit_command(program, POWER_OFF);
    emit_await_idle(program);
    emit_command_with_data(program, DEEP_SLEEP, vec![0xA5]);
    assert(listing(program@) =~= listing(old(program)@) + sleep());
}

} // verus!
