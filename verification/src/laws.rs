//! Laws of the state machine, proved over its model.
//!
//! [`run`] plays a controller against an environment: a rule that answers
//! every action with an event. The laws say what holds under every
//! environment, follow the controller through whole operations on a panel
//! that always cooperates and on one that never stops being busy, and state
//! what holds of refused requests and of a faulted controller.

use vstd::prelude::*;

use crate::controller::{DeviceState, Model};
use crate::error::Error;
use crate::panel::{PanelVariant, WaveformTable};
use crate::window::{window_bytes, window_valid};
use crate::wire::{await_idle, command, command_with_data, data, pause, reset_pulse};
use crate::wire::{Action, Event, Line, Progress};

verus! {

/// The controller `steps` events later. `reply` is the environment: it says
/// what the action handed out at a given count of events is answered with.
/// `clock` is the count of events so far. Nothing more happens once an
/// operation has finished.
pub open spec fn run(
    model: Model,
    progress: Progress<Seq<u8>>,
    reply: spec_fn(nat, Action<Seq<u8>>) -> Event,
    clock: nat,
    steps: nat,
) -> (Model, Progress<Seq<u8>>)
    decreases steps,
{
    if steps == 0 {
        (model, progress)
    } else {
        match progress {
            Progress::Finished(_) => (model, progress),
            Progress::Perform(action) => {
                let (after, next) = model.step(reply(clock, action));
                run(after, next, reply, clock + 1, (steps - 1) as nat)
            },
        }
    }
}

/// A panel on which every action succeeds and which is idle whenever it is
/// asked.
pub open spec fn cooperative(panel: PanelVariant) -> spec_fn(nat, Action<Seq<u8>>) -> Event {
    |clock: nat, action: Action<Seq<u8>>|
        if action is SampleBusy {
            Event::Level { high: !panel.busy_level() }
        } else {
            Event::Done
        }
}

/// A panel on which every action succeeds but which is busy whenever it is
/// asked.
pub open spec fn stuck(panel: PanelVariant) -> spec_fn(nat, Action<Seq<u8>>) -> Event {
    |clock: nat, action: Action<Seq<u8>>|
        if action is SampleBusy {
            Event::Level { high: panel.busy_level() }
        } else {
            Event::Done
        }
}

/// No action of the sequence samples the busy line.
pub open spec fn free_of_waits(actions: Seq<Action<Seq<u8>>>) -> bool {
    forall|i: int| 0 <= i < actions.len() ==> !(#[trigger] actions[i] is SampleBusy)
}

/// The action at `i` is a bus write.
pub open spec fn writes_at(actions: Seq<Action<Seq<u8>>>, i: int) -> bool {
    0 <= i < actions.len() && actions[i] is Write
}

/// The action at `i` has the control lines around it: two places before it
/// the data/command line is driven, right before it chip select goes low,
/// and right after it chip select goes high.
pub open spec fn framed_at(actions: Seq<Action<Seq<u8>>>, i: int) -> bool {
    &&& 2 <= i
    &&& i + 1 < actions.len()
    &&& actions[i - 2] matches Action::Drive { line: Line::DataCommand, .. }
    &&& actions[i - 1] == Action::<Seq<u8>>::Drive { line: Line::ChipSelect, high: false }
    &&& actions[i + 1] == Action::<Seq<u8>>::Drive { line: Line::ChipSelect, high: true }
}

/// Every bus write of the sequence is framed by the control lines.
#[verifier::opaque]
pub open spec fn framed(actions: Seq<Action<Seq<u8>>>) -> bool {
    forall|i: int| #[trigger] writes_at(actions, i) ==> framed_at(actions, i)
}

/// A faulted controller is faulted for good: every operation and every
/// event is answered with `DeviceFaulted`, nothing is handed out to be
/// written, and the controller does not change.
pub proof fn lemma_faulted_is_terminal(
    model: Model,
    event: Event,
    table: Option<WaveformTable>,
    frame: Seq<u8>,
    x: int,
    y: int,
    w: int,
    h: int,
)
    requires
        model.state == DeviceState::Faulted,
    ensures
        model.step(event) == (model, Progress::<Seq<u8>>::Finished(Err(Error::DeviceFaulted))),
        model.init() == (model, Progress::<Seq<u8>>::Finished(Err(Error::DeviceFaulted))),
        model.set_lut(table) == (model, Progress::<Seq<u8>>::Finished(Err(Error::DeviceFaulted))),
        model.clear_frame() == (model, Progress::<Seq<u8>>::Finished(Err(Error::DeviceFaulted))),
        model.update_frame(frame) == (
            model,
            Progress::<Seq<u8>>::Finished(Err(Error::DeviceFaulted)),
        ),
        model.update_partial_frame(frame, x, y, w, h) == (
            model,
            Progress::<Seq<u8>>::Finished(Err(Error::DeviceFaulted)),
        ),
        model.display_frame() == (model, Progress::<Seq<u8>>::Finished(Err(Error::DeviceFaulted))),
        model.sleep() == (model, Progress::<Seq<u8>>::Finished(Err(Error::DeviceFaulted))),
{
}

/// Every failure leads to the faulted state, whatever the controller was
/// doing.
pub proof fn lemma_failure_faults(model: Model, event: Event)
    requires
        model.wf(),
        model.step(event).1 matches Progress::Finished(Err(_)),
    ensures
        model.step(event).0.state == DeviceState::Faulted,
{
}

/// A partial update whose width or height is not a multiple of the
/// addressing granularity is refused with `InvalidWindow` by a controller
/// that is not faulted. Nothing is handed out to be written and the
/// controller does not change.
pub proof fn lemma_misaligned_window_is_refused(
    model: Model,
    frame: Seq<u8>,
    x: int,
    y: int,
    w: int,
    h: int,
)
    requires
        model.state != DeviceState::Faulted,
        w % (model.panel.granularity() as int) != 0 || h % (model.panel.granularity() as int)
            != 0,
    ensures
        model.update_partial_frame(frame, x, y, w, h) == (
            model,
            Progress::<Seq<u8>>::Finished(Err(Error::InvalidWindow)),
        ),
{
}

/// A request that is refused for its arguments leaves the controller as it
/// was and hands out nothing: a wrong buffer length and an invalid window
/// are found before anything is sent.
pub proof fn lemma_refusals_send_nothing(
    model: Model,
    frame: Seq<u8>,
    x: int,
    y: int,
    w: int,
    h: int,
)
    requires
        model.state != DeviceState::Faulted,
    ensures
        frame.len() != model.panel.frame_bytes() ==> model.update_frame(frame) == (
            model,
            Progress::<Seq<u8>>::Finished(Err(Error::SizeMismatch)),
        ),
        !window_valid(model.panel, x, y, w, h) ==> model.update_partial_frame(frame, x, y, w, h)
            == (model, Progress::<Seq<u8>>::Finished(Err(Error::InvalidWindow))),
        window_valid(model.panel, x, y, w, h) && frame.len() != model.panel.frame_bytes()
            ==> model.update_partial_frame(frame, x, y, w, h) == (
            model,
            Progress::<Seq<u8>>::Finished(Err(Error::SizeMismatch)),
        ),
{
}

/// The command sequence of every operation of every panel has at least one
/// action.
pub proof fn lemma_scripts_are_not_empty(
    panel: PanelVariant,
    reset_low_ms: u32,
    reset_high_ms: u32,
    table: Option<WaveformTable>,
    frame: Seq<u8>,
    x: int,
    y: int,
    w: int,
    h: int,
)
    ensures
        panel.init_script(reset_low_ms, reset_high_ms).len() > 0,
        panel.set_lut_script(table).len() > 0,
        panel.clear_frame_script().len() > 0,
        panel.update_frame_script(frame).len() > 0,
        panel.update_partial_frame_script(frame, x, y, w, h).len() > 0,
        panel.display_frame_script().len() > 0,
        panel.sleep_script().len() > 0,
{
}

/// Where two sequences are framed, so is the one after the other.
pub proof fn lemma_framed_concat(first: Seq<Action<Seq<u8>>>, second: Seq<Action<Seq<u8>>>)
    requires
        framed(first),
        framed(second),
    ensures
        framed(first + second),
{
    reveal(framed);
    let both = first + second;
    assert forall|i: int| #[trigger] writes_at(both, i) implies framed_at(both, i) by {
        if i < first.len() {
            assert(writes_at(first, i));
        } else {
            assert(writes_at(second, i - first.len()));
        }
    }
}

/// The building blocks of every command sequence are framed.
pub proof fn lemma_blocks_are_framed()
    ensures
        forall|opcode: u8| framed(#[trigger] command(opcode)),
        forall|bytes: Seq<u8>| framed(#[trigger] data(bytes)),
        forall|opcode: u8, bytes: Seq<u8>| framed(#[trigger] command_with_data(opcode, bytes)),
        forall|low_ms: u32, high_ms: u32| framed(#[trigger] reset_pulse(low_ms, high_ms)),
        forall|ms: u32| framed(#[trigger] pause(ms)),
        framed(await_idle()),
        forall|first: Seq<Action<Seq<u8>>>, second: Seq<Action<Seq<u8>>>|
            framed(first) && framed(second) ==> framed(#[trigger] (first + second)),
{
    assert forall|opcode: u8| framed(#[trigger] command(opcode)) by {
        reveal(framed);
    }
    assert forall|bytes: Seq<u8>| framed(#[trigger] data(bytes)) by {
        reveal(framed);
    }
    assert forall|low_ms: u32, high_ms: u32| framed(#[trigger] reset_pulse(low_ms, high_ms)) by {
        reveal(framed);
    }
    assert forall|ms: u32| framed(#[trigger] pause(ms)) by {
        reveal(framed);
    }
    assert(framed(await_idle())) by {
        reveal(framed);
    }
    assert forall|opcode: u8, bytes: Seq<u8>| framed(
        #[trigger] command_with_data(opcode, bytes),
    ) by {
        lemma_framed_concat(command(opcode), data(bytes));
    }
    assert forall|first: Seq<Action<Seq<u8>>>, second: Seq<Action<Seq<u8>>>|
        framed(first) && framed(second) implies framed(#[trigger] (first + second)) by {
        lemma_framed_concat(first, second);
    }
}

/// Every bus write of every operation of every panel is paired with the
/// control lines: before the bytes go out the data/command line is driven
/// and the panel is selected, and afterwards it is released.
pub proof fn lemma_scripts_are_framed(
    panel: PanelVariant,
    reset_low_ms: u32,
    reset_high_ms: u32,
    table: Option<WaveformTable>,
    frame: Seq<u8>,
    x: int,
    y: int,
    w: int,
    h: int,
)
    ensures
        framed(panel.init_script(reset_low_ms, reset_high_ms)),
        framed(panel.set_lut_script(table)),
        framed(panel.clear_frame_script()),
        framed(panel.update_frame_script(frame)),
        framed(panel.update_partial_frame_script(frame, x, y, w, h)),
        framed(panel.display_frame_script()),
        framed(panel.sleep_script()),
{
    lemma_blocks_are_framed();
    match panel {
        PanelVariant::Epd1in54 => {
            assert(framed(crate::epd1in54::set_lut(table)));
            assert(framed(crate::epd1in54::set_lut(None)));
            assert(framed(crate::epd1in54::init(reset_low_ms, reset_high_ms)));
            assert(framed(crate::epd1in54::ram_window(0, 0, 200, 200)));
            assert(framed(crate::epd1in54::ram_window(x, y, w, h)));
            assert(framed(crate::epd1in54::clear_frame()));
            assert(framed(crate::epd1in54::update_frame(frame)));
            assert(framed(crate::epd1in54::update_partial_frame(frame, x, y, w, h)));
            assert(framed(crate::epd1in54::display_frame()));
            assert(framed(crate::epd1in54::sleep()));
        },
        PanelVariant::Epd4in2 => {
            assert(framed(crate::epd4in2::set_lut(table)));
            assert(framed(crate::epd4in2::set_lut(None)));
            assert(framed(crate::epd4in2::resolution()));
            assert(framed(crate::epd4in2::init(reset_low_ms, reset_high_ms)));
            assert(framed(crate::epd4in2::clear_frame()));
            assert(framed(crate::epd4in2::update_frame(frame)));
            assert(framed(crate::epd4in2::update_partial_frame(frame, x, y, w, h)));
            assert(framed(crate::epd4in2::display_frame()));
            assert(framed(crate::epd4in2::sleep()));
        },
    }
}

/// Steps keep a controller well formed, and what a step hands out is the
/// action that the controller then waits for: an operation is in progress
/// exactly as long as there is something to perform.
pub proof fn lemma_step_keeps_wf(model: Model, event: Event)
    requires
        model.wf(),
    ensures
        model.step(event).0.wf(),
        model.step(event).0.panel == model.panel,
        model.step(event).0.timing == model.timing,
        model.step(event).1 is Perform ==> model.step(event).0.in_progress() && model.step(
            event,
        ).1 == Progress::Perform(model.step(event).0.outstanding()),
        model.step(event).1 is Finished ==> !model.step(event).0.in_progress(),
{
}

/// Starting an operation keeps a controller well formed. An operation that
/// is not refused is in progress, and its first action is out.
pub proof fn lemma_operations_keep_wf(
    model: Model,
    table: Option<WaveformTable>,
    frame: Seq<u8>,
    x: int,
    y: int,
    w: int,
    h: int,
)
    requires
        model.wf(),
        !model.in_progress(),
    ensures
        started(model, model.init()),
        started(model, model.set_lut(table)),
        started(model, model.clear_frame()),
        started(model, model.update_frame(frame)),
        started(model, model.update_partial_frame(frame, x, y, w, h)),
        started(model, model.display_frame()),
        started(model, model.sleep()),
{
    lemma_scripts_are_not_empty(
        model.panel,
        model.timing.reset_low_ms,
        model.timing.reset_high_ms,
        table,
        frame,
        x,
        y,
        w,
        h,
    );
    lemma_scripts_are_not_empty(
        model.panel,
        model.timing.reset_low_ms,
        model.timing.reset_high_ms,
        table,
        window_bytes(model.panel, frame, x, y, w, h),
        x,
        y,
        w,
        h,
    );
}

/// What holds of the outcome of starting an operation on a controller at
/// rest: the controller is well formed; it was either refused and left
/// alone, or the operation is in progress at its first action with nothing
/// else changed.
pub open spec fn started(before: Model, outcome: (Model, Progress<Seq<u8>>)) -> bool {
    let (after, first) = outcome;
    &&& after.wf()
    &&& after.panel == before.panel
    &&& after.timing == before.timing
    &&& match first {
        Progress::Finished(result) => result is Err && after == before,
        Progress::Perform(action) => {
            &&& after.in_progress()
            &&& after.pc == 0
            &&& after.polls == 0
            &&& !after.pausing
            &&& action == after.outstanding()
            &&& after.active_lut == before.active_lut
            &&& after.frame_written == before.frame_written
        },
    }
}

/// Once an operation has finished, further events change nothing.
pub proof fn lemma_run_rests_when_finished(
    model: Model,
    result: Result<(), Error>,
    reply: spec_fn(nat, Action<Seq<u8>>) -> Event,
    clock: nat,
    steps: nat,
)
    ensures
        run(model, Progress::Finished(result), reply, clock, steps) == (
            model,
            Progress::<Seq<u8>>::Finished(result),
        ),
{
}

/// No operation hangs, whatever the panel does. Under every environment the
/// operation in progress has ended once `budget()` events have come in:
/// one for every action that is no wait, and for every wait at most
/// `attempts()` samples with a delay between each two.
pub proof fn lemma_every_run_ends(
    model: Model,
    reply: spec_fn(nat, Action<Seq<u8>>) -> Event,
    clock: nat,
    steps: nat,
)
    requires
        model.wf(),
        model.in_progress(),
        steps >= model.budget(),
    ensures
        run(model, Progress::Perform(model.outstanding()), reply, clock, steps).1 is Finished,
        !run(model, Progress::Perform(model.outstanding()), reply, clock, steps).0.in_progress(),
        run(model, Progress::Perform(model.outstanding()), reply, clock, steps).0.wf(),
    decreases steps,
{
    let event = reply(clock, model.outstanding());
    let (after, next) = model.step(event);
    lemma_step_keeps_wf(model, event);
    lemma_budget_is_positive(model);
    match next {
        Progress::Finished(result) => {
            lemma_run_rests_when_finished(after, result, reply, clock + 1, (steps - 1) as nat);
        },
        Progress::Perform(_) => {
            lemma_step_spends_budget(model, event);
            lemma_every_run_ends(after, reply, clock + 1, (steps - 1) as nat);
        },
    }
}

/// An operation in progress has at least one event to go.
pub proof fn lemma_budget_is_positive(model: Model)
    requires
        model.wf(),
        model.in_progress(),
    ensures
        model.budget() >= 1,
{
    let per_wait = 2 * model.timing.attempts();
    let rest = model.program.len() - model.pc - 1;
    assert(rest * per_wait >= 0) by (nonlinear_arith)
        requires
            rest >= 0,
            per_wait >= 0,
    ;
}

/// Every event that does not end the operation uses up budget.
pub proof fn lemma_step_spends_budget(model: Model, event: Event)
    requires
        model.wf(),
        model.in_progress(),
        model.step(event).1 is Perform,
    ensures
        model.step(event).0.budget() < model.budget(),
{
    let after = model.step(event).0;
    let per_wait = 2 * model.timing.attempts();
    let rest = model.program.len() - model.pc - 1;
    if after.pc != model.pc {
        assert(after.pc == model.pc + 1);
        assert(rest * per_wait == (rest - 1) * per_wait + per_wait) by (nonlinear_arith);
        assert((rest - 1) * per_wait >= 0) by (nonlinear_arith)
            requires
                rest >= 1,
                per_wait >= 0,
        ;
    }
}

/// On a cooperative panel the controller hands out its program action by
/// action: `done` events after the action at `pc` went out, the action at
/// `pc + done` is out and nothing else has changed.
pub proof fn lemma_cooperative_run_follows_program(model: Model, clock: nat, done: nat)
    requires
        model.wf(),
        model.in_progress(),
        model.polls == 0,
        !model.pausing,
        model.pc + done < model.program.len(),
    ensures
        run(
            model,
            Progress::Perform(model.program[model.pc as int]),
            cooperative(model.panel),
            clock,
            done,
        ) == (
            Model { pc: model.pc + done, ..model },
            Progress::Perform(model.program[model.pc as int + done as int]),
        ),
    decreases done,
{
    if done > 0 {
        let reply = cooperative(model.panel);
        let action = model.program[model.pc as int];
        let (after, next) = model.step(reply(clock, action));
        assert(after == Model { pc: model.pc + 1, ..model });
        assert(next == Progress::Perform(model.program[model.pc as int + 1]));
        lemma_cooperative_run_follows_program(after, clock + 1, (done - 1) as nat);
        assert(Model { pc: after.pc + (done - 1) as nat, ..after } == Model {
            pc: model.pc + done,
            ..model
        });
    }
}

/// On a cooperative panel an operation completes: once every remaining
/// action of the program was answered, the operation has finished with
/// success and the controller rests where the operation was to land.
pub proof fn lemma_cooperative_run_completes(model: Model, clock: nat)
    requires
        model.wf(),
        model.in_progress(),
        model.polls == 0,
        !model.pausing,
    ensures
        run(
            model,
            Progress::Perform(model.program[model.pc as int]),
            cooperative(model.panel),
            clock,
            (model.program.len() - model.pc) as nat,
        ) == (
            model.at_rest(
                model.landing.state,
                model.landing.active_lut,
                model.landing.frame_written,
            ),
            Progress::<Seq<u8>>::Finished(Ok(())),
        ),
    decreases model.program.len() - model.pc,
{
    let reply = cooperative(model.panel);
    let action = model.program[model.pc as int];
    let (after, next) = model.step(reply(clock, action));
    let steps = (model.program.len() - model.pc) as nat;
    if model.pc + 1 < model.program.len() {
        assert(after == Model { pc: model.pc + 1, ..model });
        lemma_cooperative_run_completes(after, clock + 1);
        assert(run(model, Progress::Perform(action), reply, clock, steps) == run(
            after,
            next,
            reply,
            clock + 1,
            (steps - 1) as nat,
        ));
    } else {
        assert(steps == 1);
        assert(run(after, next, reply, clock + 1, 0) == (after, next));
    }
}

/// Where each operation leaves the controller on a cooperative panel, once
/// its whole command sequence has gone out: initialisation leaves it idle
/// with the default waveform table and no frame written; a waveform table
/// becomes the active one; clearing and updating leave a frame written; a
/// refresh changes nothing; sleep leaves the device sleeping.
pub proof fn lemma_operations_land(
    model: Model,
    table: Option<WaveformTable>,
    frame: Seq<u8>,
    x: int,
    y: int,
    w: int,
    h: int,
)
    requires
        model.wf(),
        !model.in_progress(),
        model.state != DeviceState::Faulted,
        frame.len() == model.panel.frame_bytes(),
        window_valid(model.panel, x, y, w, h),
    ensures
        landed(model.init()) == (
            model.at_rest(DeviceState::Idle, None, false),
            Progress::<Seq<u8>>::Finished(Ok(())),
        ),
        landed(model.set_lut(table)) == (
            model.at_rest(DeviceState::Idle, table, model.frame_written),
            Progress::<Seq<u8>>::Finished(Ok(())),
        ),
        landed(model.clear_frame()) == (
            model.at_rest(DeviceState::Idle, model.active_lut, true),
            Progress::<Seq<u8>>::Finished(Ok(())),
        ),
        landed(model.update_frame(frame)) == (
            model.at_rest(DeviceState::Idle, model.active_lut, true),
            Progress::<Seq<u8>>::Finished(Ok(())),
        ),
        landed(model.update_partial_frame(frame, x, y, w, h)) == (
            model.at_rest(DeviceState::Idle, model.active_lut, true),
            Progress::<Seq<u8>>::Finished(Ok(())),
        ),
        landed(model.display_frame()) == (
            model.at_rest(DeviceState::Idle, model.active_lut, model.frame_written),
            Progress::<Seq<u8>>::Finished(Ok(())),
        ),
        landed(model.sleep()) == (
            model.at_rest(DeviceState::Sleeping, model.active_lut, false),
            Progress::<Seq<u8>>::Finished(Ok(())),
        ),
{
    lemma_operations_keep_wf(model, table, frame, x, y, w, h);
    lemma_cooperative_run_completes(model.init().0, 0);
    lemma_cooperative_run_completes(model.set_lut(table).0, 0);
    lemma_cooperative_run_completes(model.clear_frame().0, 0);
    lemma_cooperative_run_completes(model.update_frame(frame).0, 0);
    lemma_cooperative_run_completes(model.update_partial_frame(frame, x, y, w, h).0, 0);
    lemma_cooperative_run_completes(model.display_frame().0, 0);
    lemma_cooperative_run_completes(model.sleep().0, 0);
}

/// The outcome of an operation that was started and then played on a
/// cooperative panel until its whole program has gone out.
pub open spec fn landed(outcome: (Model, Progress<Seq<u8>>)) -> (Model, Progress<Seq<u8>>) {
    run(outcome.0, outcome.1, cooperative(outcome.0.panel), 0, outcome.0.program.len())
}

/// A busy wait is bounded. On a panel that stays busy, a wait that has
/// seen `polls` busy samples takes `attempts - polls` samples more, with a
/// delay between each two, and then fails with a timeout: the controller
/// is faulted after `2 * (attempts - polls) - 1` events.
pub proof fn lemma_stuck_wait_times_out(model: Model, clock: nat)
    requires
        model.wf(),
        model.waiting(),
        !model.pausing,
    ensures
        run(
            model,
            Progress::Perform(Action::<Seq<u8>>::SampleBusy),
            stuck(model.panel),
            clock,
            (2 * (model.timing.attempts() - model.polls) - 1) as nat,
        ) == (
            model.at_rest(DeviceState::Faulted, model.active_lut, model.frame_written),
            Progress::<Seq<u8>>::Finished(Err(model.failure(true))),
        ),
    decreases model.timing.attempts() - model.polls,
{
    let reply = stuck(model.panel);
    let sample = Action::<Seq<u8>>::SampleBusy;
    let steps = (2 * (model.timing.attempts() - model.polls) - 1) as nat;
    let (after, next) = model.step(reply(clock, sample));
    if model.polls + 1 >= model.timing.attempts() {
        assert(steps == 1);
        assert(run(after, next, reply, clock + 1, 0) == (after, next));
    } else {
        let delay = Action::<Seq<u8>>::Delay { ms: model.timing.poll_interval_ms };
        assert(next == Progress::Perform(delay));
        let (resumed, again) = after.step(reply(clock + 1, delay));
        assert(resumed == Model { polls: model.polls + 1, ..model });
        assert(again == Progress::Perform(sample));
        lemma_stuck_wait_times_out(resumed, clock + 2);
        assert(run(model, Progress::Perform(sample), reply, clock, steps) == run(
            after,
            next,
            reply,
            clock + 1,
            (steps - 1) as nat,
        ));
        assert(run(after, next, reply, clock + 1, (steps - 1) as nat) == run(
            resumed,
            again,
            reply,
            clock + 2,
            (steps - 2) as nat,
        ));
    }
}

/// On a panel that stays busy an operation fails at its first wait. Where
/// the first wait of the program from `pc` on is at `wait`, the actions
/// before it go out one by one, the wait takes `attempts` samples, and the
/// operation fails with a timeout after `wait - pc + 2 * attempts - 1`
/// events.
pub proof fn lemma_stuck_run_times_out(model: Model, clock: nat, wait: nat)
    requires
        model.wf(),
        model.in_progress(),
        model.polls == 0,
        !model.pausing,
        model.pc <= wait < model.program.len(),
        model.program[wait as int] is SampleBusy,
        forall|i: int| model.pc <= i < wait ==> !(#[trigger] model.program[i] is SampleBusy),
    ensures
        run(
            model,
            Progress::Perform(model.program[model.pc as int]),
            stuck(model.panel),
            clock,
            (wait - model.pc + 2 * model.timing.attempts() - 1) as nat,
        ) == (
            model.at_rest(DeviceState::Faulted, model.active_lut, model.frame_written),
            Progress::<Seq<u8>>::Finished(Err(model.failure(true))),
        ),
    decreases wait - model.pc,
{
    let reply = stuck(model.panel);
    let action = model.program[model.pc as int];
    let steps = (wait - model.pc + 2 * model.timing.attempts() - 1) as nat;
    if model.pc == wait {
        lemma_stuck_wait_times_out(model, clock);
    } else {
        let (after, next) = model.step(reply(clock, action));
        assert(after == Model { pc: model.pc + 1, ..model });
        assert(next == Progress::Perform(model.program[model.pc as int + 1]));
        lemma_stuck_run_times_out(after, clock + 1, wait);
        assert(run(model, Progress::Perform(action), reply, clock, steps) == run(
            after,
            next,
            reply,
            clock + 1,
            (steps - 1) as nat,
        ));
    }
}

/// The sequence of a refresh has its one wait at the very end.
pub proof fn lemma_display_waits_last(panel: PanelVariant)
    ensures
        panel.display_frame_script().len() > 0,
        panel.display_frame_script().last() is SampleBusy,
        free_of_waits(panel.display_frame_script().drop_last()),
{
    let script = panel.display_frame_script();
    match panel {
        PanelVariant::Epd1in54 => {
            let head = command_with_data(crate::epd1in54::DISPLAY_UPDATE_CONTROL_2, [0xC4u8]@)
                + command(crate::epd1in54::MASTER_ACTIVATION) + command(crate::epd1in54::NOP);
            assert(script =~= head + await_idle());
            assert(script.drop_last() =~= head);
            assert(head.len() == 16);
            assert(free_of_waits(head));
        },
        PanelVariant::Epd4in2 => {
            let head = command(crate::epd4in2::DISPLAY_REFRESH);
            assert(script =~= head + await_idle());
            assert(script.drop_last() =~= head);
            assert(free_of_waits(head));
        },
    }
}

/// A refresh on a panel whose busy line never clears does not hang: it
/// fails with `Timeout` once the commands are out and `attempts` samples
/// have found the panel busy, and leaves the controller faulted.
pub proof fn lemma_display_frame_times_out(model: Model)
    requires
        model.wf(),
        model.state == DeviceState::Idle,
    ensures
        run(
            model.display_frame().0,
            model.display_frame().1,
            stuck(model.panel),
            0,
            (model.panel.display_frame_script().len() + 2 * model.timing.attempts() - 2) as nat,
        ) == (
            model.at_rest(DeviceState::Faulted, model.active_lut, model.frame_written),
            Progress::<Seq<u8>>::Finished(Err(Error::Timeout)),
        ),
{
    lemma_display_waits_last(model.panel);
    let script = model.panel.display_frame_script();
    let (started, first) = model.display_frame();
    let wait = (script.len() - 1) as nat;
    assert forall|i: int| 0 <= i < wait implies !(#[trigger] started.program[i] is SampleBusy) by {
        assert(script.drop_last()[i] == script[i]);
    }
    lemma_stuck_run_times_out(started, 0, wait);
}

} // verus!
