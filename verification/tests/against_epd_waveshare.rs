//! Holds the frame buffer and the command sequences against the
//! `epd-waveshare` driver, run on a bus that only records.

use std::cell::RefCell;
use std::convert::Infallible;
use std::rc::Rc;

use embedded_graphics::geometry::Point;
use embedded_graphics::Pixel;
use embedded_hal::delay::DelayNs;
use embedded_hal::digital::{InputPin, OutputPin};
use embedded_hal::spi::{Operation, SpiDevice};
use epd_waveshare::epd1in54::{Display1in54, Epd1in54};
use epd_waveshare::epd4in2::{Display4in2, Epd4in2};
use epd_waveshare::graphics::DisplayRotation;
use epd_waveshare::prelude::{RefreshLut, WaveshareDisplay};

use epaper_driver::color::{Color, Rotation};
use epaper_driver::controller::{DeviceState, DisplayController, Timing};
use epaper_driver::framebuffer::FrameBuffer;
use epaper_driver::panel::{PanelVariant, WaveformTable};
use epaper_driver::window::extract_window;
use epaper_driver::wire::{Action, Event, Line, Progress};

/// Bus writes, each with the level of the data/command line at the time.
type Traffic = Vec<(bool, Vec<u8>)>;

#[derive(Default)]
struct Log {
    data_command_high: bool,
    writes: Traffic,
}

struct RecordingSpi(Rc<RefCell<Log>>);

impl embedded_hal::spi::ErrorType for RecordingSpi {
    type Error = Infallible;
}

impl SpiDevice for RecordingSpi {
    fn transaction(&mut self, operations: &mut [Operation<'_, u8>]) -> Result<(), Infallible> {
        let mut log = self.0.borrow_mut();
        for operation in operations.iter() {
            if let Operation::Write(bytes) = operation {
                let level = log.data_command_high;
                log.writes.push((level, bytes.to_vec()));
            }
        }
        Ok(())
    }
}

struct DataCommandPin(Rc<RefCell<Log>>);

impl embedded_hal::digital::ErrorType for DataCommandPin {
    type Error = Infallible;
}

impl OutputPin for DataCommandPin {
    fn set_low(&mut self) -> Result<(), Infallible> {
        self.0.borrow_mut().data_command_high = false;
        Ok(())
    }

    fn set_high(&mut self) -> Result<(), Infallible> {
        self.0.borrow_mut().data_command_high = true;
        Ok(())
    }
}

struct ResetPin;

impl embedded_hal::digital::ErrorType for ResetPin {
    type Error = Infallible;
}

impl OutputPin for ResetPin {
    fn set_low(&mut self) -> Result<(), Infallible> {
        Ok(())
    }

    fn set_high(&mut self) -> Result<(), Infallible> {
        Ok(())
    }
}

/// A busy line that rests at the given level.
struct BusyPin(bool);

impl embedded_hal::digital::ErrorType for BusyPin {
    type Error = Infallible;
}

impl InputPin for BusyPin {
    fn is_high(&mut self) -> Result<bool, Infallible> {
        Ok(self.0)
    }

    fn is_low(&mut self) -> Result<bool, Infallible> {
        Ok(!self.0)
    }
}

struct NoDelay;

impl DelayNs for NoDelay {
    fn delay_ns(&mut self, _ns: u32) {}
}

/// Joins runs of data writes: the driver writes data byte by byte.
fn joined(writes: &Traffic) -> Traffic {
    let mut joined: Traffic = Vec::new();
    for (high, bytes) in writes {
        match joined.last_mut() {
            Some((true, tail)) if *high => tail.extend_from_slice(bytes),
            _ => joined.push((*high, bytes.clone())),
        }
    }
    joined
}

fn taken(log: &Rc<RefCell<Log>>) -> Traffic {
    let writes = std::mem::take(&mut log.borrow_mut().writes);
    joined(&writes)
}

/// Plays an operation of the controller on an idle panel and returns the
/// bus traffic.
fn played(controller: &mut DisplayController, first: Progress<Vec<u8>>) -> Traffic {
    let idle_level = !controller.panel().busy_level();
    let mut data_command_high = false;
    let mut writes: Traffic = Vec::new();
    let mut progress = first;
    loop {
        match progress {
            Progress::Finished(result) => {
                assert_eq!(result, Ok(()));
                return joined(&writes);
            }
            Progress::Perform(action) => {
                let event = match action {
                    Action::Drive { line, high } => {
                        if line == Line::DataCommand {
                            data_command_high = high;
                        }
                        Event::Done
                    }
                    Action::Write { bytes } => {
                        writes.push((data_command_high, bytes));
                        Event::Done
                    }
                    Action::Delay { .. } => Event::Done,
                    Action::SampleBusy => Event::Level { high: idle_level },
                };
                progress = controller.step(event);
            }
        }
    }
}

type Theirs1in54 = Epd1in54<RecordingSpi, BusyPin, DataCommandPin, ResetPin, NoDelay>;

type Theirs4in2 = Epd4in2<RecordingSpi, BusyPin, DataCommandPin, ResetPin, NoDelay>;

fn their_1in54() -> (Theirs1in54, RecordingSpi, Rc<RefCell<Log>>) {
    let log = Rc::new(RefCell::new(Log::default()));
    let mut spi = RecordingSpi(log.clone());
    let epd = Epd1in54::new(
        &mut spi,
        BusyPin(false),
        DataCommandPin(log.clone()),
        ResetPin,
        &mut NoDelay,
        None,
    )
    .unwrap();
    (epd, spi, log)
}

fn their_4in2() -> (Theirs4in2, RecordingSpi, Rc<RefCell<Log>>) {
    let log = Rc::new(RefCell::new(Log::default()));
    let mut spi = RecordingSpi(log.clone());
    let epd = Epd4in2::new(
        &mut spi,
        BusyPin(true),
        DataCommandPin(log.clone()),
        ResetPin,
        &mut NoDelay,
        None,
    )
    .unwrap();
    (epd, spi, log)
}

fn initialised(panel: PanelVariant) -> (DisplayController, Traffic) {
    let mut controller = DisplayController::new(panel, Timing::standard());
    let first = controller.init();
    let traffic = played(&mut controller, first);
    assert_eq!(controller.state(), DeviceState::Idle);
    (controller, traffic)
}

fn pattern(len: usize) -> Vec<u8> {
    (0..len).map(|i| (i * 7 % 256) as u8).collect()
}

#[test]
fn epd1in54_init_agrees_with_epd_waveshare() {
    let (_, _, log) = their_1in54();
    let (_, ours) = initialised(PanelVariant::Epd1in54);
    assert_eq!(ours, taken(&log));
    assert_eq!(ours.len(), 14);
}

#[test]
fn epd4in2_init_agrees_with_epd_waveshare() {
    let (_, _, log) = their_4in2();
    let (_, ours) = initialised(PanelVariant::Epd4in2);
    assert_eq!(ours, taken(&log));
    assert_eq!(ours.len(), 25);
}

#[test]
fn epd1in54_operations_agree_with_epd_waveshare() {
    let (mut epd, mut spi, log) = their_1in54();
    let (mut controller, _) = initialised(PanelVariant::Epd1in54);
    taken(&log);

    epd.clear_frame(&mut spi, &mut NoDelay).unwrap();
    let first = controller.clear_frame();
    assert_eq!(played(&mut controller, first), taken(&log));

    let frame = pattern(5000);
    epd.update_frame(&mut spi, &frame, &mut NoDelay).unwrap();
    let first = controller.update_frame(&frame);
    assert_eq!(played(&mut controller, first), taken(&log));

    epd.display_frame(&mut spi, &mut NoDelay).unwrap();
    let first = controller.display_frame();
    assert_eq!(played(&mut controller, first), taken(&log));

    epd.set_lut(&mut spi, &mut NoDelay, Some(RefreshLut::Quick)).unwrap();
    let first = controller.set_lut(Some(WaveformTable::Quick));
    assert_eq!(played(&mut controller, first), taken(&log));

    epd.set_lut(&mut spi, &mut NoDelay, Some(RefreshLut::Full)).unwrap();
    let first = controller.set_lut(Some(WaveformTable::Full));
    assert_eq!(played(&mut controller, first), taken(&log));

    epd.sleep(&mut spi, &mut NoDelay).unwrap();
    let first = controller.sleep();
    assert_eq!(played(&mut controller, first), taken(&log));
    assert_eq!(controller.state(), DeviceState::Sleeping);

    epd.wake_up(&mut spi, &mut NoDelay).unwrap();
    let first = controller.init();
    assert_eq!(played(&mut controller, first), taken(&log));
}

#[test]
fn epd4in2_operations_agree_with_epd_waveshare() {
    let (mut epd, mut spi, log) = their_4in2();
    let (mut controller, _) = initialised(PanelVariant::Epd4in2);
    taken(&log);

    epd.clear_frame(&mut spi, &mut NoDelay).unwrap();
    let first = controller.clear_frame();
    assert_eq!(played(&mut controller, first), taken(&log));

    let frame = pattern(15000);
    epd.update_frame(&mut spi, &frame, &mut NoDelay).unwrap();
    let first = controller.update_frame(&frame);
    assert_eq!(played(&mut controller, first), taken(&log));

    epd.display_frame(&mut spi, &mut NoDelay).unwrap();
    let first = controller.display_frame();
    assert_eq!(played(&mut controller, first), taken(&log));

    epd.set_lut(&mut spi, &mut NoDelay, Some(RefreshLut::Quick)).unwrap();
    let first = controller.set_lut(Some(WaveformTable::Quick));
    assert_eq!(played(&mut controller, first), taken(&log));

    epd.set_lut(&mut spi, &mut NoDelay, Some(RefreshLut::Full)).unwrap();
    let first = controller.set_lut(Some(WaveformTable::Full));
    assert_eq!(played(&mut controller, first), taken(&log));

    epd.sleep(&mut spi, &mut NoDelay).unwrap();
    let first = controller.sleep();
    assert_eq!(played(&mut controller, first), taken(&log));

    epd.wake_up(&mut spi, &mut NoDelay).unwrap();
    let first = controller.init();
    assert_eq!(played(&mut controller, first), taken(&log));
}

#[test]
fn epd4in2_partial_update_agrees_with_epd_waveshare() {
    let (mut epd, mut spi, log) = their_4in2();
    let (mut controller, _) = initialised(PanelVariant::Epd4in2);
    taken(&log);
    let frame = pattern(15000);
    for (x, y, w, h) in [(0u32, 0u32, 8u32, 8u32), (20, 20, 160, 160), (100, 260, 152, 40)] {
        let window = extract_window(PanelVariant::Epd4in2, &frame, x, y, w, h).unwrap();
        epd.update_partial_frame(&mut spi, &mut NoDelay, &window, x, y, w, h).unwrap();
        let first = controller.update_partial_frame(&frame, x, y, w, h);
        assert_eq!(played(&mut controller, first), taken(&log));
    }
}

#[test]
fn frame_buffer_of_200_by_200_agrees_with_epd_waveshare() {
    let rotations = [
        (Rotation::Rotate0, DisplayRotation::Rotate0),
        (Rotation::Rotate90, DisplayRotation::Rotate90),
        (Rotation::Rotate180, DisplayRotation::Rotate180),
        (Rotation::Rotate270, DisplayRotation::Rotate270),
    ];
    let mut theirs = Display1in54::default();
    let mut ours = FrameBuffer::new(200, 200, vec![0u8; 5000]).unwrap();
    assert_eq!(ours.as_bytes(), theirs.buffer());
    for (i, (rotation, their_rotation)) in rotations.iter().enumerate() {
        ours.set_rotation(*rotation);
        theirs.set_rotation(*their_rotation);
        for step in 0..400u32 {
            let x = (step * 37 + i as u32 * 11) % 230;
            let y = (step * 53 + i as u32 * 5) % 230;
            let white = step % 3 != 0;
            ours.set_pixel(x, y, if white { Color::White } else { Color::Black });
            theirs.set_pixel(Pixel(
                Point::new(x as i32, y as i32),
                if white {
                    epd_waveshare::color::Color::White
                } else {
                    epd_waveshare::color::Color::Black
                },
            ));
        }
        assert_eq!(ours.as_bytes(), theirs.buffer());
    }
    assert!(ours.as_bytes().iter().any(|byte| *byte != 0));
}

#[test]
fn frame_buffer_of_400_by_300_agrees_with_epd_waveshare_under_half_turns() {
    let mut theirs = Display4in2::default();
    let mut ours = FrameBuffer::new(400, 300, vec![0u8; 15000]).unwrap();
    for (rotation, their_rotation) in [
        (Rotation::Rotate0, DisplayRotation::Rotate0),
        (Rotation::Rotate180, DisplayRotation::Rotate180),
    ] {
        ours.set_rotation(rotation);
        theirs.set_rotation(their_rotation);
        for step in 0..600u32 {
            let x = (step * 37) % 420;
            let y = (step * 53) % 310;
            ours.set_pixel(x, y, Color::White);
            theirs.set_pixel(Pixel(
                Point::new(x as i32, y as i32),
                epd_waveshare::color::Color::White,
            ));
        }
        assert_eq!(ours.as_bytes(), theirs.buffer());
    }
}

#[test]
fn colour_bytes_agree_with_epd_waveshare() {
    assert_eq!(
        Color::Black.get_byte_value(),
        epd_waveshare::color::Color::Black.get_byte_value()
    );
    assert_eq!(
        Color::White.get_byte_value(),
        epd_waveshare::color::Color::White.get_byte_value()
    );
}
