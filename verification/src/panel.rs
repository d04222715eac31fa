//! The panels this driver knows, and what it can ask of each.
//!
//! A panel variant selects a fixed table: geometry, busy polarity and the
//! command sequence of every operation. The sequences themselves are in
//! [`crate::epd1in54`] and [`crate::epd4in2`].

use vstd::prelude::*;

use crate::epd1in54;
use crate::epd4in2;
use crate::framebuffer::{byte_count, row_bytes};
use crate::wire::{listing, Action};

verus! {

/// A supported panel model.
#[derive(Clone, Copy, Debug, PartialEq, Eq, Structural)]
pub enum PanelVariant {
    /// 1.54 inch, 200 by 200 pixels.
    Epd1in54,
    /// 4.2 inch, 400 by 300 pixels.
    Epd4in2,
}

/// A waveform table: the voltage sequence that the panel runs on a refresh.
#[derive(Clone, Copy, Debug, PartialEq, Eq, Structural)]
pub enum WaveformTable {
    /// Full refresh: slow, flashes, leaves little ghosting.
    Full,
    /// Quick refresh: fast, leaves more ghosting.
    Quick,
}

impl PanelVariant {
    pub open spec fn spec_width(self) -> u32 {
        match self {
            PanelVariant::Epd1in54 => epd1in54::WIDTH,
            PanelVariant::Epd4in2 => epd4in2::WIDTH,
        }
    }

    pub open spec fn spec_height(self) -> u32 {
        match self {
            PanelVariant::Epd1in54 => epd1in54::HEIGHT,
            PanelVariant::Epd4in2 => epd4in2::HEIGHT,
        }
    }

    pub open spec fn spec_granularity(self) -> u32 {
        match self {
            PanelVariant::Epd1in54 => epd1in54::GRANULARITY,
            PanelVariant::Epd4in2 => epd4in2::GRANULARITY,
        }
    }

    pub open spec fn spec_busy_level(self) -> bool {
        match self {
            PanelVariant::Epd1in54 => epd1in54::BUSY_LEVEL,
            PanelVariant::Epd4in2 => epd4in2::BUSY_LEVEL,
        }
    }

    pub open spec fn spec_frame_bytes(self) -> usize {
        match self {
            PanelVariant::Epd1in54 => epd1in54::FRAME_BYTES,
            PanelVariant::Epd4in2 => epd4in2::FRAME_BYTES,
        }
    }

    /// Width of the panel in pixels.
    #[verifier::when_used_as_spec(spec_width)]
    pub fn width(self) -> (width: u32)
        ensures
            width == self.spec_width(),
    {
        match self {
            PanelVariant::Epd1in54 => epd1in54::WIDTH,
            PanelVariant::Epd4in2 => epd4in2::WIDTH,
        }
    }

    /// Height of the panel in pixels.
    #[verifier::when_used_as_spec(spec_height)]
    pub fn height(self) -> (height: u32)
        ensures
            height == self.spec_height(),
    {
        match self {
            PanelVariant::Epd1in54 => epd1in54::HEIGHT,
            PanelVariant::Epd4in2 => epd4in2::HEIGHT,
        }
    }

    /// Addressing granularity of partial updates, in pixels: the width and
    /// the height of a window are multiples of it.
    #[verifier::when_used_as_spec(spec_granularity)]
    pub fn granularity(self) -> (granularity: u32)
        ensures
            granularity == self.spec_granularity(),
    {
        match self {
            PanelVariant::Epd1in54 => epd1in54::GRANULARITY,
            PanelVariant::Epd4in2 => epd4in2::GRANULARITY,
        }
    }

    /// The level of the busy line while the panel works.
    #[verifier::when_used_as_spec(spec_busy_level)]
    pub fn busy_level(self) -> (high: bool)
        ensures
            high == self.spec_busy_level(),
    {
        match self {
            PanelVariant::Epd1in54 => epd1in54::BUSY_LEVEL,
            PanelVariant::Epd4in2 => epd4in2::BUSY_LEVEL,
        }
    }

    /// Bytes of one full frame.
    #[verifier::when_used_as_spec(spec_frame_bytes)]
    pub fn frame_bytes(self) -> (bytes: usize)
        ensures
            bytes == self.spec_frame_bytes(),
    {
        match self {
            PanelVariant::Epd1in54 => epd1in54::FRAME_BYTES,
            PanelVariant::Epd4in2 => epd4in2::FRAME_BYTES,
        }
    }

    /// Rows of every panel are whole bytes, so a full frame is the byte
    /// count of the panel's dimensions and holds `height` rows of
    /// `width / 8` bytes.
    pub proof fn lemma_geometry(self)
        ensures
            self.width() % 8 == 0,
            self.granularity() % 8 == 0,
            self.granularity() > 0,
            row_bytes(self.width() as nat) == self.width() / 8,
            self.frame_bytes() == byte_count(self.width() as nat, self.height() as nat),
            self.frame_bytes() == row_bytes(self.width() as nat) * self.height(),
    {
    }

    /// What initialisation sends.
    pub open spec fn init_script(self, reset_low_ms: u32, reset_high_ms: u32) -> Seq<
        Action<Seq<u8>>,
    > {
        match self {
            PanelVariant::Epd1in54 => epd1in54::init(reset_low_ms, reset_high_ms),
            PanelVariant::Epd4in2 => epd4in2::init(reset_low_ms, reset_high_ms),
        }
    }

    /// What selecting a waveform table sends; `None` selects the panel's
    /// default table.
    pub open spec fn set_lut_script(self, table: Option<WaveformTable>) -> Seq<Action<Seq<u8>>> {
        match self {
            PanelVariant::Epd1in54 => epd1in54::set_lut(table),
            PanelVariant::Epd4in2 => epd4in2::set_lut(table),
        }
    }

    /// What clearing the frame sends.
    pub open spec fn clear_frame_script(self) -> Seq<Action<Seq<u8>>> {
        match self {
            PanelVariant::Epd1in54 => epd1in54::clear_frame(),
            PanelVariant::Epd4in2 => epd4in2::clear_frame(),
        }
    }

    /// What a full-frame update sends.
    pub open spec fn update_frame_script(self, frame: Seq<u8>) -> Seq<Action<Seq<u8>>> {
        match self {
            PanelVariant::Epd1in54 => epd1in54::update_frame(frame),
            PanelVariant::Epd4in2 => epd4in2::update_frame(frame),
        }
    }

    /// What a partial update sends, given the bytes of the window.
    pub open spec fn update_partial_frame_script(
        self,
        window: Seq<u8>,
        x: int,
        y: int,
        w: int,
        h: int,
    ) -> Seq<Action<Seq<u8>>> {
        match self {
            PanelVariant::Epd1in54 => epd1in54::update_partial_frame(window, x, y, w, h),
            PanelVariant::Epd4in2 => epd4in2::update_partial_frame(window, x, y, w, h),
        }
    }

    /// What a refresh sends.
    pub open spec fn display_frame_script(self) -> Seq<Action<Seq<u8>>> {
        match self {
            PanelVariant::Epd1in54 => epd1in54::display_frame(),
            PanelVariant::Epd4in2 => epd4in2::display_frame(),
        }
    }

    /// What going to sleep sends.
    pub open spec fn sleep_script(self) -> Seq<Action<Seq<u8>>> {
        match self {
            PanelVariant::Epd1in54 => epd1in54::sleep(),
            PanelVariant::Epd4in2 => epd4in2::sleep(),
        }
    }

    /// The program of initialisation.
    pub(crate) fn init_program(self, reset_low_ms: u32, reset_high_ms: u32) -> (program: Vec<
        Action<Vec<u8>>,
    >)
        ensures
            listing(program@) == self.init_script(reset_low_ms, reset_high_ms),
            program@.len() > 0,
    {
        let mut program: Vec<Action<Vec<u8>>> = Vec::new();
        match self {
            PanelVariant::Epd1in54 => epd1in54::emit_init(
                &mut program,
                reset_low_ms,
                reset_high_ms,
            ),
            PanelVariant::Epd4in2 => epd4in2::emit_init(&mut program, reset_low_ms, reset_high_ms),
        }
        assert(listing(program@) =~= self.init_script(reset_low_ms, reset_high_ms));
        program
    }

    /// The program of a waveform selection.
    pub(crate) fn set_lut_program(self, table: Option<WaveformTable>) -> (program: Vec<
        Action<Vec<u8>>,
    >)
        ensures
            listing(program@) == self.set_lut_script(table),
            program@.len() > 0,
    {
        let mut program: Vec<Action<Vec<u8>>> = Vec::new();
        match self {
            PanelVariant::Epd1in54 => epd1in54::emit_set_lut(&mut program, table),
            PanelVariant::Epd4in2 => epd4in2::emit_set_lut(&mut program, table),
        }
        assert(listing(program@) =~= self.set_lut_script(table));
        program
    }

    /// The program of a frame clear.
    pub(crate) fn clear_frame_program(self) -> (program: Vec<Action<Vec<u8>>>)
        ensures
            listing(program@) == self.clear_frame_script(),
            program@.len() > 0,
    {
        let mut program: Vec<Action<Vec<u8>>> = Vec::new();
        match self {
            PanelVariant::Epd1in54 => epd1in54::emit_clear_frame(&mut program),
            PanelVariant::Epd4in2 => epd4in2::emit_clear_frame(&mut program),
        }
        assert(listing(program@) =~= self.clear_frame_script());
        program
    }

    /// The program of a full-frame update.
    pub(crate) fn update_frame_program(self, frame: Vec<u8>) -> (program: Vec<Action<Vec<u8>>>)
        ensures
            listing(program@) == self.update_frame_script(frame@),
            program@.len() > 0,
    {
        let mut program: Vec<Action<Vec<u8>>> = Vec::new();
        let ghost bytes = frame@;
        match self {
            PanelVariant::Epd1in54 => epd1in54::emit_update_frame(&mut program, frame),
            PanelVariant::Epd4in2 => epd4in2::emit_update_frame(&mut program, frame),
        }
        assert(listing(program@) =~= self.update_frame_script(bytes));
        program
    }

    /// The program of a partial update.
    pub(crate) fn update_partial_frame_program(
        self,
        window: Vec<u8>,
        x: u32,
        y: u32,
        w: u32,
        h: u32,
    ) -> (program: Vec<Action<Vec<u8>>>)
        requires
            w > 0,
            h > 0,
            x + w <= self.width(),
            y + h <= self.height(),
        ensures
            listing(program@) == self.update_partial_frame_script(
                window@,
                x as int,
                y as int,
                w as int,
                h as int,
            ),
            program@.len() > 0,
    {
        let mut program: Vec<Action<Vec<u8>>> = Vec::new();
        let ghost bytes = window@;
        match self {
            PanelVariant::Epd1in54 => epd1in54::emit_update_partial_frame(
                &mut program,
                window,
                x,
                y,
                w,
                h,
            ),
            PanelVariant::Epd4in2 => epd4in2::emit_update_partial_frame(
                &mut program,
                window,
                x,
                y,
                w,
                h,
            ),
        }
        assert(listing(program@) =~= self.update_partial_frame_script(
            bytes,
            x as int,
            y as int,
            w as int,
            h as int,
        ));
        program
    }

    /// The program of a refresh.
    pub(crate) fn display_frame_program(self) -> (program: Vec<Action<Vec<u8>>>)
        ensures
            listing(program@) == self.display_frame_script(),
            program@.len() > 0,
    {
        let mut program: Vec<Action<Vec<u8>>> = Vec::new();
        match self {
            PanelVariant::Epd1in54 => epd1in54::emit_display_frame(&mut program),
            PanelVariant::Epd4in2 => epd4in2::emit_display_frame(&mut program),
        }
        assert(listing(program@) =~= self.display_frame_script());
        program
    }

    /// The program of the way to deep sleep.
    pub(crate) fn sleep_program(self) -> (program: Vec<Action<Vec<u8>>>)
        ensures
            listing(program@) == self.sleep_script(),
            program@.len() > 0,
    {
        let mut program: Vec<Action<Vec<u8>>> = Vec::new();
        match self {
            PanelVariant::Epd1in54 => epd1in54::emit_sleep(&mut program),
            PanelVariant::Epd4in2 => epd4in2::emit_sleep(&mut program),
        }
        assert(listing(program@) =~= self.sleep_script());
        program
    }
}

} // verus!
