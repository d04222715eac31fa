//! The device state machine.
//!
//! A [`DisplayController`] decides; it never acts. Starting an operation
//! loads the operation's command sequence and returns the first
//! [`Action`]. The caller performs the action and feeds the outcome to
//! [`DisplayController::step`], which returns the next action, until the
//! operation ends with [`Progress::Finished`].
//!
//! [`Model`] is the mathematical state of a controller, and its spec
//! functions say for every state, operation and event what the controller
//! does. The executable functions are proved to do exactly that.

use vstd::prelude::*;

use crate::error::{CommandError, Error, InitError};
use crate::panel::{PanelVariant, WaveformTable};
use crate::window::{extract_window, window_bytes, window_valid};
use crate::wire::{copy_bytes, listing, Action, Event, Progress};

verus! {

/// Where the device is in its life.
#[derive(Clone, Copy, Debug, PartialEq, Eq, Structural)]
pub enum DeviceState {
    /// Nothing has been sent yet.
    Uninit,
    /// The initialisation sequence is under way.
    Initializing,
    /// Initialised and ready for the next operation.
    Idle,
    /// Registers or image memory are being written.
    Updating,
    /// A refresh is under way.
    Displaying,
    /// In deep sleep; only initialisation leads out.
    Sleeping,
    /// A failure was seen; nothing leads out.
    Faulted,
}

/// Hold times of the reset pulse and bound of the busy wait.
#[derive(Clone, Copy, Debug, PartialEq, Eq, Structural)]
pub struct Timing {
    /// Milliseconds the reset line is held low.
    pub reset_low_ms: u32,
    /// Milliseconds the panel is given after the reset line is released.
    pub reset_high_ms: u32,
    /// Milliseconds between two samples of the busy line.
    pub poll_interval_ms: u32,
    /// How many samples may find the panel busy before the wait is given
    /// up. The line is sampled once even where this is zero.
    pub max_polls: u32,
}

impl Timing {
    /// The number of busy samples after which a wait times out.
    pub open spec fn attempts(self) -> nat {
        if self.max_polls == 0 {
            1
        } else {
            self.max_polls as nat
        }
    }

    pub open spec fn standard_spec() -> Timing {
        Timing { reset_low_ms: 10, reset_high_ms: 200, poll_interval_ms: 10, max_polls: 2000 }
    }

    /// A 10 ms reset pulse, 200 ms to settle, and a busy wait of up to 2000
    /// samples 10 ms apart.
    pub fn standard() -> (timing: Timing)
        ensures
            timing == Timing::standard_spec(),
    {
        Timing { reset_low_ms: 10, reset_high_ms: 200, poll_interval_ms: 10, max_polls: 2000 }
    }
}

/// What the controller becomes when the operation in progress completes.
#[derive(Clone, Copy, Debug, PartialEq, Eq, Structural)]
pub struct Landing {
    pub state: DeviceState,
    pub active_lut: Option<WaveformTable>,
    pub frame_written: bool,
}

/// Mathematical state of a controller.
pub struct Model {
    pub panel: PanelVariant,
    pub timing: Timing,
    pub state: DeviceState,
    /// The waveform table last selected; `None` is the panel's default.
    pub active_lut: Option<WaveformTable>,
    /// Whether image memory was written since initialisation.
    pub frame_written: bool,
    /// The actions of the operation in progress.
    pub program: Seq<Action<Seq<u8>>>,
    /// Index in `program` of the action that the caller is performing.
    pub pc: nat,
    /// How many samples of the current wait found the panel busy.
    pub polls: nat,
    /// Whether the caller is performing the delay between two samples.
    pub pausing: bool,
    /// What completion of the operation in progress installs.
    pub landing: Landing,
}

impl Model {
    /// A controller that has sent nothing yet.
    pub open spec fn fresh(panel: PanelVariant, timing: Timing) -> Model {
        Model {
            panel,
            timing,
            state: DeviceState::Uninit,
            active_lut: None,
            frame_written: false,
            program: Seq::empty(),
            pc: 0,
            polls: 0,
            pausing: false,
            landing: Landing { state: DeviceState::Uninit, active_lut: None, frame_written: false },
        }
    }

    /// Whether an operation is under way.
    pub open spec fn in_progress(self) -> bool {
        self.state == DeviceState::Initializing || self.state == DeviceState::Updating
            || self.state == DeviceState::Displaying
    }

    /// Whether the action that the caller is performing belongs to a busy
    /// wait.
    pub open spec fn waiting(self) -> bool {
        self.in_progress() && self.program[self.pc as int] == Action::<Seq<u8>>::SampleBusy
    }

    /// The action that the caller is performing: the program's current
    /// action, or the delay between two samples of a wait.
    pub open spec fn outstanding(self) -> Action<Seq<u8>> {
        if self.waiting() && self.pausing {
            Action::Delay { ms: self.timing.poll_interval_ms }
        } else {
            self.program[self.pc as int]
        }
    }

    /// The number of events after which the operation in progress has
    /// ended at the latest, whatever the events are: one for every action
    /// that is no wait, and for a wait `attempts()` samples with a delay
    /// between each two.
    pub open spec fn budget(self) -> nat {
        if self.in_progress() {
            let per_wait = 2 * self.timing.attempts();
            let current: int = if self.waiting() {
                if self.pausing {
                    per_wait - 2 * self.polls
                } else {
                    per_wait - 2 * self.polls - 1
                }
            } else {
                1
            };
            ((self.program.len() - self.pc - 1) * per_wait + current) as nat
        } else {
            0
        }
    }

    /// What holds of every controller.
    pub open spec fn wf(self) -> bool {
        if self.in_progress() {
            &&& self.pc < self.program.len()
            &&& self.polls < self.timing.attempts()
            &&& (self.landing.state == DeviceState::Idle || self.landing.state
                == DeviceState::Sleeping)
            &&& (!self.waiting() ==> self.polls == 0 && !self.pausing)
        } else {
            &&& self.program.len() == 0
            &&& self.pc == 0
            &&& self.polls == 0
            &&& !self.pausing
            &&& self.landing == (Landing {
                state: self.state,
                active_lut: self.active_lut,
                frame_written: self.frame_written,
            })
        }
    }

    /// Initialisation may start: nothing was sent yet, or the device
    /// sleeps. (A faulted controller answers with `DeviceFaulted`.)
    pub open spec fn accepts_init(self) -> bool {
        self.state == DeviceState::Uninit || self.state == DeviceState::Sleeping || self.state
            == DeviceState::Faulted
    }

    /// An operation other than initialisation and refresh may start: the
    /// device is idle. (A faulted controller answers with `DeviceFaulted`.)
    pub open spec fn accepts_command(self) -> bool {
        self.state == DeviceState::Idle || self.state == DeviceState::Faulted
    }

    /// A refresh may start: the device is idle and image memory was written
    /// since initialisation. (A faulted controller answers with
    /// `DeviceFaulted`.)
    pub open spec fn accepts_display(self) -> bool {
        (self.state == DeviceState::Idle && self.frame_written) || self.state
            == DeviceState::Faulted
    }

    /// The error that a failure is reported as: initialisation has errors of
    /// its own.
    pub open spec fn failure(self, timed_out: bool) -> Error {
        if self.state == DeviceState::Initializing {
            if timed_out {
                Error::Init(InitError::Timeout)
            } else {
                Error::Init(InitError::BusFault)
            }
        } else {
            if timed_out {
                Error::Timeout
            } else {
                Error::Command(CommandError::BusFault)
            }
        }
    }

    /// The controller at rest in `state`.
    pub open spec fn at_rest(
        self,
        state: DeviceState,
        active_lut: Option<WaveformTable>,
        frame_written: bool,
    ) -> Model {
        Model {
            state,
            active_lut,
            frame_written,
            program: Seq::empty(),
            pc: 0,
            polls: 0,
            pausing: false,
            landing: Landing { state, active_lut, frame_written },
            ..self
        }
    }

    /// The operation in progress fails: the controller is faulted for good.
    pub open spec fn fail(self, timed_out: bool) -> (Model, Progress<Seq<u8>>) {
        (
            self.at_rest(DeviceState::Faulted, self.active_lut, self.frame_written),
            Progress::Finished(Err(self.failure(timed_out))),
        )
    }

    /// The action in progress is done: on to the next one, or to the end of
    /// the operation.
    pub open spec fn advance(self) -> (Model, Progress<Seq<u8>>) {
        if self.pc + 1 < self.program.len() {
            (
                Model { pc: self.pc + 1, polls: 0, pausing: false, ..self },
                Progress::Perform(self.program[self.pc as int + 1]),
            )
        } else {
            (
                self.at_rest(
                    self.landing.state,
                    self.landing.active_lut,
                    self.landing.frame_written,
                ),
                Progress::Finished(Ok(())),
            )
        }
    }

    /// An operation starts: its program is loaded and its first action goes
    /// out.
    pub open spec fn begin(
        self,
        state: DeviceState,
        program: Seq<Action<Seq<u8>>>,
        landing: Landing,
    ) -> (Model, Progress<Seq<u8>>) {
        (
            Model { state, program, pc: 0, polls: 0, pausing: false, landing, ..self },
            Progress::Perform(program[0]),
        )
    }

    /// What the controller does with the outcome of the action it handed
    /// out last.
    ///
    /// A faulted controller only ever answers `DeviceFaulted`; one with no
    /// operation in progress has nothing to do. During a busy wait the
    /// answer to a sample must be a level and the answer to the delay
    /// between samples must be `Done`; every other action must be answered
    /// with `Done`. Any other answer is a failure. A sample that finds the
    /// panel idle ends the wait; one that finds it busy for the
    /// `attempts()`-th time is a timeout.
    pub open spec fn step(self, event: Event) -> (Model, Progress<Seq<u8>>) {
        if self.state == DeviceState::Faulted {
            (self, Progress::Finished(Err(Error::DeviceFaulted)))
        } else if !self.in_progress() {
            (self, Progress::Finished(Ok(())))
        } else if self.waiting() {
            if self.pausing {
                if event == Event::Done {
                    (
                        Model { pausing: false, ..self },
                        Progress::Perform(Action::<Seq<u8>>::SampleBusy),
                    )
                } else {
                    self.fail(false)
                }
            } else {
                match event {
                    Event::Level { high } => {
                        if high != self.panel.busy_level() {
                            self.advance()
                        } else if self.polls + 1 >= self.timing.attempts() {
                            self.fail(true)
                        } else {
                            (
                                Model { polls: self.polls + 1, pausing: true, ..self },
                                Progress::Perform(
                                    Action::<Seq<u8>>::Delay { ms: self.timing.poll_interval_ms },
                                ),
                            )
                        }
                    },
                    _ => self.fail(false),
                }
            }
        } else {
            if event == Event::Done {
                self.advance()
            } else {
                self.fail(false)
            }
        }
    }

    /// Starts initialisation, which ends idle with the default waveform
    /// table and no frame written.
    pub open spec fn init(self) -> (Model, Progress<Seq<u8>>) {
        if self.state == DeviceState::Faulted {
            (self, Progress::Finished(Err(Error::DeviceFaulted)))
        } else {
            self.begin(
                DeviceState::Initializing,
                self.panel.init_script(self.timing.reset_low_ms, self.timing.reset_high_ms),
                Landing { state: DeviceState::Idle, active_lut: None, frame_written: false },
            )
        }
    }

    /// Starts loading a waveform table, which becomes the active one when
    /// the operation completes.
    pub open spec fn set_lut(self, table: Option<WaveformTable>) -> (Model, Progress<Seq<u8>>) {
        if self.state == DeviceState::Faulted {
            (self, Progress::Finished(Err(Error::DeviceFaulted)))
        } else {
            self.begin(
                DeviceState::Updating,
                self.panel.set_lut_script(table),
                Landing {
                    state: DeviceState::Idle,
                    active_lut: table,
                    frame_written: self.frame_written,
                },
            )
        }
    }

    /// Starts clearing the frame.
    pub open spec fn clear_frame(self) -> (Model, Progress<Seq<u8>>) {
        if self.state == DeviceState::Faulted {
            (self, Progress::Finished(Err(Error::DeviceFaulted)))
        } else {
            self.begin(
                DeviceState::Updating,
                self.panel.clear_frame_script(),
                Landing {
                    state: DeviceState::Idle,
                    active_lut: self.active_lut,
                    frame_written: true,
                },
            )
        }
    }

    /// Starts a full-frame update, or refuses a buffer that is not a full
    /// frame.
    pub open spec fn update_frame(self, frame: Seq<u8>) -> (Model, Progress<Seq<u8>>) {
        if self.state == DeviceState::Faulted {
            (self, Progress::Finished(Err(Error::DeviceFaulted)))
        } else if frame.len() != self.panel.frame_bytes() {
            (self, Progress::Finished(Err(Error::SizeMismatch)))
        } else {
            self.begin(
                DeviceState::Updating,
                self.panel.update_frame_script(frame),
                Landing {
                    state: DeviceState::Idle,
                    active_lut: self.active_lut,
                    frame_written: true,
                },
            )
        }
    }

    /// Starts a partial update with the bytes of the window cut from
    /// `frame`, or refuses an invalid window or a buffer that is not a full
    /// frame.
    pub open spec fn update_partial_frame(self, frame: Seq<u8>, x: int, y: int, w: int, h: int)
        -> (Model, Progress<Seq<u8>>) {
        if self.state == DeviceState::Faulted {
            (self, Progress::Finished(Err(Error::DeviceFaulted)))
        } else if !window_valid(self.panel, x, y, w, h) {
            (self, Progress::Finished(Err(Error::InvalidWindow)))
        } else if frame.len() != self.panel.frame_bytes() {
            (self, Progress::Finished(Err(Error::SizeMismatch)))
        } else {
            self.begin(
                DeviceState::Updating,
                self.panel.update_partial_frame_script(
                    window_bytes(self.panel, frame, x, y, w, h),
                    x,
                    y,
                    w,
                    h,
                ),
                Landing {
                    state: DeviceState::Idle,
                    active_lut: self.active_lut,
                    frame_written: true,
                },
            )
        }
    }

    /// Starts a refresh.
    pub open spec fn display_frame(self) -> (Model, Progress<Seq<u8>>) {
        if self.state == DeviceState::Faulted {
            (self, Progress::Finished(Err(Error::DeviceFaulted)))
        } else {
            self.begin(
                DeviceState::Displaying,
                self.panel.display_frame_script(),
                Landing {
                    state: DeviceState::Idle,
                    active_lut: self.active_lut,
                    frame_written: self.frame_written,
                },
            )
        }
    }

    /// Starts the way to deep sleep.
    pub open spec fn sleep(self) -> (Model, Progress<Seq<u8>>) {
        if self.state == DeviceState::Faulted {
            (self, Progress::Finished(Err(Error::DeviceFaulted)))
        } else {
            self.begin(
                DeviceState::Updating,
                self.panel.sleep_script(),
                Landing {
                    state: DeviceState::Sleeping,
                    active_lut: self.active_lut,
                    frame_written: false,
                },
            )
        }
    }
}

/// A copy of an action.
fn duplicate(action: &Action<Vec<u8>>) -> (copy: Action<Vec<u8>>)
    ensures
        copy@ == action@,
{
    match action {
        Action::Drive { line, high } => Action::Drive { line: *line, high: *high },
        Action::Write { bytes } => Action::Write { bytes: copy_bytes(bytes.as_slice()) },
        Action::Delay { ms } => Action::Delay { ms: *ms },
        Action::SampleBusy => Action::SampleBusy,
    }
}

/// The state machine of one panel.
pub struct DisplayController {
    panel: PanelVariant,
    timing: Timing,
    state: DeviceState,
    active_lut: Option<WaveformTable>,
    frame_written: bool,
    program: Vec<Action<Vec<u8>>>,
    pc: usize,
    polls: u32,
    pausing: bool,
    landing: Landing,
}

impl View for DisplayController {
    type V = Model;

    closed spec fn view(&self) -> Model {
        Model {
            panel: self.panel,
            timing: self.timing,
            state: self.state,
            active_lut: self.active_lut,
            frame_written: self.frame_written,
            program: listing(self.program@),
            pc: self.pc as nat,
            polls: self.polls as nat,
            pausing: self.pausing,
            landing: self.landing,
        }
    }
}

impl DisplayController {
    #[verifier::type_invariant]
    spec fn well_formed(self) -> bool {
        self@.wf()
    }

    /// A controller for `panel` that has sent nothing yet.
    pub fn new(panel: PanelVariant, timing: Timing) -> (controller: DisplayController)
        ensures
            controller@ == Model::fresh(panel, timing),
            controller@.wf(),
    {
        let controller = DisplayController {
            panel,
            timing,
            state: DeviceState::Uninit,
            active_lut: None,
            frame_written: false,
            program: Vec::new(),
            pc: 0,
            polls: 0,
            pausing: false,
            landing: Landing { state: DeviceState::Uninit, active_lut: None, frame_written: false },
        };
        assert(controller@.program =~= Seq::empty());
        controller
    }

    /// The panel this controller drives.
    pub fn panel(&self) -> (panel: PanelVariant)
        ensures
            panel == self@.panel,
    {
        self.panel
    }

    /// The timing this controller was made with.
    pub fn timing(&self) -> (timing: Timing)
        ensures
            timing == self@.timing,
    {
        self.timing
    }

    /// Where the device is in its life.
    pub fn state(&self) -> (state: DeviceState)
        ensures
            state == self@.state,
            self@.wf(),
    {
        proof {
            use_type_invariant(self);
        }
        self.state
    }

    /// The waveform table last selected; `None` is the panel's default.
    pub fn active_lut(&self) -> (table: Option<WaveformTable>)
        ensures
            table == self@.active_lut,
    {
        self.active_lut
    }

    /// Whether image memory was written since initialisation, so that a
    /// refresh has something to show.
    pub fn frame_written(&self) -> (written: bool)
        ensures
            written == self@.frame_written,
    {
        self.frame_written
    }

    /// Whether an operation is under way, so that `step` has work to do.
    pub fn in_progress(&self) -> (busy: bool)
        ensures
            busy == self@.in_progress(),
    {
        match self.state {
            DeviceState::Initializing | DeviceState::Updating | DeviceState::Displaying => true,
            _ => false,
        }
    }

    /// Whether `init` may be called.
    pub fn accepts_init(&self) -> (accepted: bool)
        ensures
            accepted == self@.accepts_init(),
    {
        match self.state {
            DeviceState::Uninit | DeviceState::Sleeping | DeviceState::Faulted => true,
            _ => false,
        }
    }

    /// Whether `set_lut`, `clear_frame`, `update_frame`,
    /// `update_partial_frame` and `sleep` may be called.
    pub fn accepts_command(&self) -> (accepted: bool)
        ensures
            accepted == self@.accepts_command(),
    {
        match self.state {
            DeviceState::Idle | DeviceState::Faulted => true,
            _ => false,
        }
    }

    /// Whether `display_frame` may be called.
    pub fn accepts_display(&self) -> (accepted: bool)
        ensures
            accepted == self@.accepts_display(),
    {
        match self.state {
            DeviceState::Idle => self.frame_written,
            DeviceState::Faulted => true,
            _ => false,
        }
    }

    /// Comes to rest in `state`, dropping the program.
    fn rest(&mut self, state: DeviceState, active_lut: Option<WaveformTable>, frame_written: bool)
        requires
            state != DeviceState::Initializing,
            state != DeviceState::Updating,
            state != DeviceState::Displaying,
        ensures
            final(self)@ == old(self)@.at_rest(state, active_lut, frame_written),
    {
        *self =
        DisplayController {
            panel: self.panel,
            timing: self.timing,
            state,
            active_lut,
            frame_written,
            program: Vec::new(),
            pc: 0,
            polls: 0,
            pausing: false,
            landing: Landing { state, active_lut, frame_written },
        };
        assert(self@.program =~= Seq::empty());
    }

    /// Gives the operation up: the controller is faulted from now on.
    fn fail(&mut self, timed_out: bool) -> (next: Progress<Vec<u8>>)
        ensures
            final(self)@ == old(self)@.fail(timed_out).0,
            next@ == old(self)@.fail(timed_out).1,
    {
        let error = match self.state {
            DeviceState::Initializing => if timed_out {
                Error::Init(InitError::Timeout)
            } else {
                Error::Init(InitError::BusFault)
            },
            _ => if timed_out {
                Error::Timeout
            } else {
                Error::Command(CommandError::BusFault)
            },
        };
        let active_lut = self.active_lut;
        let frame_written = self.frame_written;
        self.rest(DeviceState::Faulted, active_lut, frame_written);
        Progress::Finished(Err(error))
    }

    /// Moves on to the next action of the program, or ends the operation.
    fn advance(&mut self) -> (next: Progress<Vec<u8>>)
        requires
            old(self)@.in_progress(),
        ensures
            final(self)@ == old(self)@.advance().0,
            next@ == old(self)@.advance().1,
    {
        proof {
            use_type_invariant(&*self);
        }
        let len = self.program.len();
        if self.pc + 1 < len {
            let action = duplicate(&self.program[self.pc + 1]);
            self.polls = 0;
            self.pausing = false;
            self.pc = self.pc + 1;
            Progress::Perform(action)
        } else {
            let landing = self.landing;
            self.rest(landing.state, landing.active_lut, landing.frame_written);
            Progress::Finished(Ok(()))
        }
    }

    /// Loads the program of an operation and hands out its first action.
    fn begin(&mut self, state: DeviceState, program: Vec<Action<Vec<u8>>>, landing: Landing) -> (next:
        Progress<Vec<u8>>)
        requires
            program@.len() > 0,
            state == DeviceState::Initializing || state == DeviceState::Updating || state
                == DeviceState::Displaying,
            landing.state == DeviceState::Idle || landing.state == DeviceState::Sleeping,
        ensures
            final(self)@ == old(self)@.begin(state, listing(program@), landing).0,
            next@ == old(self)@.begin(state, listing(program@), landing).1,
    {
        let first = duplicate(&program[0]);
        *self =
        DisplayController {
            panel: self.panel,
            timing: self.timing,
            state,
            active_lut: self.active_lut,
            frame_written: self.frame_written,
            program,
            pc: 0,
            polls: 0,
            pausing: false,
            landing,
        };
        Progress::Perform(first)
    }

    /// Takes the answer to a sample of the busy line, or to the delay
    /// between two samples.
    fn step_wait(&mut self, event: Event) -> (next: Progress<Vec<u8>>)
        requires
            old(self)@.waiting(),
        ensures
            final(self)@ == old(self)@.step(event).0,
            next@ == old(self)@.step(event).1,
    {
        proof {
            use_type_invariant(&*self);
        }
        if self.pausing {
            match event {
                Event::Done => {
                    self.pausing = false;
                    Progress::Perform(Action::SampleBusy)
                },
                _ => self.fail(false),
            }
        } else {
            match event {
                Event::Level { high } => {
                    if high != self.panel.busy_level() {
                        self.advance()
                    } else if self.timing.max_polls <= 1 || self.polls >= self.timing.max_polls
                        - 1 {
                        self.fail(true)
                    } else {
                        self.polls = self.polls + 1;
                        self.pausing = true;
                        Progress::Perform(Action::Delay { ms: self.timing.poll_interval_ms })
                    }
                },
                _ => self.fail(false),
            }
        }
    }

    /// Takes the outcome of the action handed out last and says what to do
    /// next.
    pub fn step(&mut self, event: Event) -> (next: Progress<Vec<u8>>)
        ensures
            final(self)@ == old(self)@.step(event).0,
            next@ == old(self)@.step(event).1,
            final(self)@.wf(),
    {
        proof {
            use_type_invariant(&*self);
        }
        let next = match self.state {
            DeviceState::Faulted => Progress::Finished(Err(Error::DeviceFaulted)),
            DeviceState::Uninit | DeviceState::Idle | DeviceState::Sleeping => Progress::Finished(
                Ok(()),
            ),
            _ => {
                let waiting = match &self.program[self.pc] {
                    Action::SampleBusy => true,
                    _ => false,
                };
                if waiting {
                    self.step_wait(event)
                } else {
                    match event {
                        Event::Done => self.advance(),
                        _ => self.fail(false),
                    }
                }
            },
        };
        proof {
            use_type_invariant(&*self);
        }
        next
    }

    /// Starts the initialisation sequence: hardware reset, register
    /// programming, a wait for the panel, and the default waveform table.
    /// Also the way out of deep sleep.
    pub fn init(&mut self) -> (next: Progress<Vec<u8>>)
        requires
            old(self)@.accepts_init(),
        ensures
            final(self)@ == old(self)@.init().0,
            next@ == old(self)@.init().1,
            final(self)@.wf(),
    {
        let next = match self.state {
            DeviceState::Faulted => Progress::Finished(Err(Error::DeviceFaulted)),
            _ => {
                let program = self.panel.init_program(
                    self.timing.reset_low_ms,
                    self.timing.reset_high_ms,
                );
                self.begin(
                    DeviceState::Initializing,
                    program,
                    Landing { state: DeviceState::Idle, active_lut: None, frame_written: false },
                )
            },
        };
        proof {
            use_type_invariant(&*self);
        }
        next
    }

    /// Starts loading a waveform table; `None` restores the panel's default
    /// table.
    pub fn set_lut(&mut self, table: Option<WaveformTable>) -> (next: Progress<Vec<u8>>)
        requires
            old(self)@.accepts_command(),
        ensures
            final(self)@ == old(self)@.set_lut(table).0,
            next@ == old(self)@.set_lut(table).1,
            final(self)@.wf(),
    {
        let next = match self.state {
            DeviceState::Faulted => Progress::Finished(Err(Error::DeviceFaulted)),
            _ => {
                let program = self.panel.set_lut_program(table);
                let frame_written = self.frame_written;
                self.begin(
                    DeviceState::Updating,
                    program,
                    Landing { state: DeviceState::Idle, active_lut: table, frame_written },
                )
            },
        };
        proof {
            use_type_invariant(&*self);
        }
        next
    }

    /// Starts filling the panel's image memory with white, which gives
    /// later updates a known image to differ from.
    pub fn clear_frame(&mut self) -> (next: Progress<Vec<u8>>)
        requires
            old(self)@.accepts_command(),
        ensures
            final(self)@ == old(self)@.clear_frame().0,
            next@ == old(self)@.clear_frame().1,
            final(self)@.wf(),
    {
        let next = match self.state {
            DeviceState::Faulted => Progress::Finished(Err(Error::DeviceFaulted)),
            _ => {
                let program = self.panel.clear_frame_program();
                let active_lut = self.active_lut;
                self.begin(
                    DeviceState::Updating,
                    program,
                    Landing { state: DeviceState::Idle, active_lut, frame_written: true },
                )
            },
        };
        proof {
            use_type_invariant(&*self);
        }
        next
    }

    /// Starts sending `buffer` as the panel's new image. The buffer must be
    /// a full frame of the panel, else the operation ends at once with
    /// `SizeMismatch`.
    pub fn update_frame(&mut self, buffer: &[u8]) -> (next: Progress<Vec<u8>>)
        requires
            old(self)@.accepts_command(),
        ensures
            final(self)@ == old(self)@.update_frame(buffer@).0,
            next@ == old(self)@.update_frame(buffer@).1,
            final(self)@.wf(),
    {
        let next = match self.state {
            DeviceState::Faulted => Progress::Finished(Err(Error::DeviceFaulted)),
            _ => {
                if buffer.len() != self.panel.frame_bytes() {
                    Progress::Finished(Err(Error::SizeMismatch))
                } else {
                    let program = self.panel.update_frame_program(copy_bytes(buffer));
                    let active_lut = self.active_lut;
                    self.begin(
                        DeviceState::Updating,
                        program,
                        Landing { state: DeviceState::Idle, active_lut, frame_written: true },
                    )
                }
            },
        };
        proof {
            use_type_invariant(&*self);
        }
        next
    }

    /// Starts sending the window of `w` by `h` pixels at `(x, y)` of
    /// `buffer` as the new image of that window. Only the bytes of the
    /// window go out. An invalid window ends the operation at once with
    /// `InvalidWindow`, a buffer that is not a full frame with
    /// `SizeMismatch`.
    pub fn update_partial_frame(&mut self, buffer: &[u8], x: u32, y: u32, w: u32, h: u32) -> (next:
        Progress<Vec<u8>>)
        requires
            old(self)@.accepts_command(),
        ensures
            final(self)@ == old(self)@.update_partial_frame(
                buffer@,
                x as int,
                y as int,
                w as int,
                h as int,
            ).0,
            next@ == old(self)@.update_partial_frame(
                buffer@,
                x as int,
                y as int,
                w as int,
                h as int,
            ).1,
            final(self)@.wf(),
    {
        let next = match self.state {
            DeviceState::Faulted => Progress::Finished(Err(Error::DeviceFaulted)),
            _ => {
                match extract_window(self.panel, buffer, x, y, w, h) {
                    Err(error) => Progress::Finished(Err(error)),
                    Ok(window) => {
                        let program = self.panel.update_partial_frame_program(window, x, y, w, h);
                        let active_lut = self.active_lut;
                        self.begin(
                            DeviceState::Updating,
                            program,
                            Landing { state: DeviceState::Idle, active_lut, frame_written: true },
                        )
                    },
                }
            },
        };
        proof {
            use_type_invariant(&*self);
        }
        next
    }

    /// Starts a refresh: the panel redraws from its image memory, and the
    /// operation waits until it has.
    pub fn display_frame(&mut self) -> (next: Progress<Vec<u8>>)
        requires
            old(self)@.accepts_display(),
        ensures
            final(self)@ == old(self)@.display_frame().0,
            next@ == old(self)@.display_frame().1,
            final(self)@.wf(),
    {
        let next = match self.state {
            DeviceState::Faulted => Progress::Finished(Err(Error::DeviceFaulted)),
            _ => {
                let program = self.panel.display_frame_program();
                let active_lut = self.active_lut;
                let frame_written = self.frame_written;
                self.begin(
                    DeviceState::Displaying,
                    program,
                    Landing { state: DeviceState::Idle, active_lut, frame_written },
                )
            },
        };
        proof {
            use_type_invariant(&*self);
        }
        next
    }

    /// Starts the way to deep sleep.
    pub fn sleep(&mut self) -> (next: Progress<Vec<u8>>)
        requires
            old(self)@.accepts_command(),
        ensures
            final(self)@ == old(self)@.sleep().0,
            next@ == old(self)@.sleep().1,
            final(self)@.wf(),
    {
        let next = match self.state {
            DeviceState::Faulted => Progress::Finished(Err(Error::DeviceFaulted)),
            _ => {
                let program = self.panel.sleep_program();
                let active_lut = self.active_lut;
                self.begin(
                    DeviceState::Updating,
                    program,
                    Landing { state: DeviceState::Sleeping, active_lut, frame_written: false },
                )
            },
        };
        proof {
            use_type_invariant(&*self);
        }
        next
    }
}

} // verus!
