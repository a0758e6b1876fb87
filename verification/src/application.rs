//! The application: the Game of Life with a running flag and a frame-rate divider,
//! advanced by timer ticks and changed by presses of pads and of the setup button.

use crate::hal::color::Rgb;
use crate::hal::grid::{Grid, Point};
use crate::hal::surface::{set_led, Button, ButtonEvent, Event, LedWrite};
use crate::life::{spec_all_dead, spec_step, Cell, Universe};
use core::ops::Not;
use vstd::prelude::*;

verus! {

/// The frequency of the raw timer ticks, in ticks per second.
pub const RAW_TICK_RATE_HZ: u32 = 1000;

/// The number of frames per second in the simulation.
pub const FRAMES_PER_SECOND: u32 = 10;

/// The number of timer ticks per frame.
pub const TICKS_PER_FRAME: u32 = RAW_TICK_RATE_HZ / FRAMES_PER_SECOND;

/// One raw tick of a divider that stands at `ticks` and divides by `ticks_per_frame`:
/// the counter after the tick, and whether the tick is a frame boundary. The counter
/// is incremented; where it thereby reaches `ticks_per_frame` the tick is a frame
/// boundary and the counter resets to zero.
pub open spec fn spec_tick(ticks: nat, ticks_per_frame: nat) -> (nat, bool) {
    if ticks + 1 >= ticks_per_frame {
        (0, true)
    } else {
        (ticks + 1, false)
    }
}

/// The counter of a divider after `count` raw ticks.
pub open spec fn spec_ticks_after(ticks: nat, ticks_per_frame: nat, count: nat) -> nat
    decreases count,
{
    if count == 0 {
        ticks
    } else {
        spec_ticks_after(spec_tick(ticks, ticks_per_frame).0, ticks_per_frame, (count - 1) as nat)
    }
}

/// The number of frame boundaries among `count` consecutive raw ticks.
pub open spec fn spec_boundaries(ticks: nat, ticks_per_frame: nat, count: nat) -> nat
    decreases count,
{
    if count == 0 {
        0
    } else {
        let (next, boundary) = spec_tick(ticks, ticks_per_frame);
        (if boundary {
            1nat
        } else {
            0nat
        }) + spec_boundaries(next, ticks_per_frame, (count - 1) as nat)
    }
}

/// Counts raw timer ticks and lets one in every `ticks_per_frame` through as a frame.
#[derive(Clone, Copy, Debug)]
pub struct FrameDivider {
    ticks: u32,
    ticks_per_frame: u32,
}

impl FrameDivider {
    /// The counter stands below the number of ticks per frame, or at zero.
    #[verifier::type_invariant]
    pub open spec fn wf(self) -> bool {
        self.spec_ticks() == 0 || self.spec_ticks() < self.spec_ticks_per_frame()
    }

    /// The raw ticks counted since the last frame boundary.
    pub closed spec fn spec_ticks(self) -> nat {
        self.ticks as nat
    }

    /// The number of raw ticks that make one frame.
    pub closed spec fn spec_ticks_per_frame(self) -> nat {
        self.ticks_per_frame as nat
    }

    /// A divider that lets one tick in every `ticks_per_frame` through, with its
    /// counter at zero.
    pub fn new(ticks_per_frame: u32) -> (d: FrameDivider)
        ensures
            d.spec_ticks() == 0,
            d.spec_ticks_per_frame() == ticks_per_frame,
    {
        FrameDivider { ticks: 0, ticks_per_frame }
    }

    /// A divider from the frequency of the raw ticks to the frame rate wanted, both
    /// in hertz.
    pub fn from_rates(raw_tick_rate_hz: u32, target_frame_rate_hz: u32) -> (d: FrameDivider)
        requires
            target_frame_rate_hz > 0,
        ensures
            d.spec_ticks() == 0,
            d.spec_ticks_per_frame() == raw_tick_rate_hz as int / target_frame_rate_hz as int,
    {
        FrameDivider::new(raw_tick_rate_hz / target_frame_rate_hz)
    }

    /// The raw ticks counted since the last frame boundary.
    pub fn ticks(&self) -> (t: u32)
        ensures
            t == self.spec_ticks(),
    {
        self.ticks
    }

    /// The number of raw ticks that make one frame.
    pub fn ticks_per_frame(&self) -> (n: u32)
        ensures
            n == self.spec_ticks_per_frame(),
    {
        self.ticks_per_frame
    }

    /// Counts one raw tick, and says whether it is a frame boundary. At a frame
    /// boundary the counter is back at zero.
    pub fn tick(&mut self) -> (boundary: bool)
        ensures
            (final(self).spec_ticks(), boundary) == spec_tick(
                old(self).spec_ticks(),
                old(self).spec_ticks_per_frame(),
            ),
            final(self).spec_ticks_per_frame() == old(self).spec_ticks_per_frame(),
            boundary ==> final(self).spec_ticks() == 0,
    {
        proof {
            use_type_invariant(&*self);
        }
        let next: u32 = self.ticks + 1;
        if next >= self.ticks_per_frame {
            self.ticks = 0;
            true
        } else {
            self.ticks = next;
            false
        }
    }

    /// Next to a frame boundary the counter only counts up: `count` ticks that stay
    /// below the boundary hold no frame boundary.
    pub proof fn lemma_no_boundary_before(ticks: nat, ticks_per_frame: nat, count: nat)
        requires
            ticks + count < ticks_per_frame,
        ensures
            spec_boundaries(ticks, ticks_per_frame, count) == 0,
            spec_ticks_after(ticks, ticks_per_frame, count) == ticks + count,
        decreases count,
    {
        if count > 0 {
            FrameDivider::lemma_no_boundary_before(
                ticks + 1,
                ticks_per_frame,
                (count - 1) as nat,
            );
        }
    }

    /// Counting `first + second` ticks is counting `first` ticks and then `second` more.
    pub proof fn lemma_ticks_split(ticks: nat, ticks_per_frame: nat, first: nat, second: nat)
        ensures
            spec_boundaries(ticks, ticks_per_frame, first + second) == spec_boundaries(
                ticks,
                ticks_per_frame,
                first,
            ) + spec_boundaries(
                spec_ticks_after(ticks, ticks_per_frame, first),
                ticks_per_frame,
                second,
            ),
            spec_ticks_after(ticks, ticks_per_frame, first + second) == spec_ticks_after(
                spec_ticks_after(ticks, ticks_per_frame, first),
                ticks_per_frame,
                second,
            ),
        decreases first,
    {
        if first > 0 {
            FrameDivider::lemma_ticks_split(
                spec_tick(ticks, ticks_per_frame).0,
                ticks_per_frame,
                (first - 1) as nat,
                second,
            );
            assert((first - 1) as nat + second == (first + second - 1) as nat);
        } else {
            assert(first + second == second);
        }
    }

    /// With `ticks_per_frame` at least one, any `ticks_per_frame` consecutive raw ticks
    /// hold exactly one frame boundary, and leave the counter where it stood. A tick
    /// that is a frame boundary leaves the counter at zero.
    pub proof fn lemma_one_boundary_per_frame(ticks: nat, ticks_per_frame: nat)
        requires
            ticks_per_frame >= 1,
            ticks < ticks_per_frame,
        ensures
            spec_boundaries(ticks, ticks_per_frame, ticks_per_frame) == 1,
            spec_ticks_after(ticks, ticks_per_frame, ticks_per_frame) == ticks,
            spec_tick(ticks, ticks_per_frame).1 ==> spec_tick(ticks, ticks_per_frame).0 == 0,
    {
        let n = ticks_per_frame;
        let before = (n - 1 - ticks) as nat;
        // up to the boundary, the boundary itself, and the rest of the frame
        FrameDivider::lemma_no_boundary_before(ticks, n, before);
        FrameDivider::lemma_no_boundary_before(0, n, ticks);
        FrameDivider::lemma_ticks_split(ticks, n, before, 1 + ticks);
        FrameDivider::lemma_ticks_split((n - 1) as nat, n, 1, ticks);
        assert(spec_boundaries((n - 1) as nat, n, 1) == 1) by {
            assert(spec_boundaries(0, n, 0) == 0);
        }
        assert(spec_ticks_after((n - 1) as nat, n, 1) == 0) by {
            assert(spec_ticks_after(0, n, 0) == 0);
        }
        assert(before + (1 + ticks) == n);
    }
}

/// What the application is at one moment, as plain values.
pub struct StateView {
    /// Whether the simulation is running.
    pub running: bool,
    /// The current generation, by linear index.
    pub cells: Seq<Cell>,
    /// The raw ticks counted since the last frame boundary.
    pub ticks: nat,
    /// The number of raw ticks that make one frame.
    pub ticks_per_frame: nat,
}

/// The stimuli that the application reacts to.
#[derive(Clone, Copy, Debug, PartialEq, Eq, Structural)]
pub enum Stimulus {
    /// The device has started.
    Init,
    /// One raw timer tick.
    Timer,
    /// The pad at a point was pressed or released.
    CellInteraction(Point, Event),
    /// The setup button was pressed or released.
    ModeToggle(Event),
}

/// The colour in which a cell is drawn: green where it lives, black where it is dead.
pub open spec fn spec_cell_color(cell: Cell) -> (int, int, int) {
    match cell {
        Cell::Alive => (0, 63, 0),
        Cell::Dead => (0, 0, 0),
    }
}

/// The write that draws `cell` at the LED with the linear index `index`.
pub open spec fn spec_draw_cell(index: int, cell: Cell) -> LedWrite {
    let color = spec_cell_color(cell);
    LedWrite { index: index as u8, red: color.0 as u8, green: color.1 as u8, blue: color.2 as u8 }
}

/// The writes that draw a whole generation: one for each point of the grid, in the
/// order of the enumeration of the grid.
pub open spec fn spec_draw_universe(cells: Seq<Cell>) -> Seq<LedWrite> {
    Seq::new(100, |i: int| spec_draw_cell(i, cells[i]))
}

/// The application as it starts: paused, every cell dead, the counter at zero.
pub open spec fn spec_init(ticks_per_frame: nat) -> StateView {
    StateView { running: false, cells: spec_all_dead(), ticks: 0, ticks_per_frame }
}

/// Whether the next raw tick advances the simulation: it does where it is a frame
/// boundary and the simulation is running.
pub open spec fn spec_steps_on_tick(s: StateView) -> bool {
    s.running && spec_tick(s.ticks, s.ticks_per_frame).1
}

/// The application after one raw timer tick.
pub open spec fn spec_timer_tick(s: StateView) -> StateView {
    StateView {
        cells: if spec_steps_on_tick(s) {
            spec_step(s.cells)
        } else {
            s.cells
        },
        ticks: spec_tick(s.ticks, s.ticks_per_frame).0,
        ..s
    }
}

/// The application after `count` raw timer ticks.
pub open spec fn spec_timer_ticks(s: StateView, count: nat) -> StateView
    decreases count,
{
    if count == 0 {
        s
    } else {
        spec_timer_ticks(spec_timer_tick(s), (count - 1) as nat)
    }
}

/// The application after the cell at `point` was toggled.
pub open spec fn spec_cell_toggle(s: StateView, point: Point) -> StateView {
    StateView {
        cells: s.cells.update(point.spec_index(), s.cells[point.spec_index()].spec_toggled()),
        ..s
    }
}

/// The application after the mode was toggled between paused and running.
pub open spec fn spec_mode_toggle(s: StateView) -> StateView {
    StateView { running: !s.running, ..s }
}

/// The application after it has reacted to `stimulus`. Presses are ignored: a pad
/// toggles its cell, and the setup button the mode, when it is released.
pub open spec fn spec_handle(s: StateView, stimulus: Stimulus) -> StateView {
    match stimulus {
        Stimulus::Init => spec_init(s.ticks_per_frame),
        Stimulus::Timer => spec_timer_tick(s),
        Stimulus::CellInteraction(point, Event::Release) => spec_cell_toggle(s, point),
        Stimulus::ModeToggle(Event::Release) => spec_mode_toggle(s),
        _ => s,
    }
}

/// The writes to the LEDs that the reaction to `stimulus` asks for: the whole grid
/// after a tick that advanced the simulation, the one cell after a toggle, else none.
pub open spec fn spec_redraw(s: StateView, stimulus: Stimulus) -> Seq<LedWrite> {
    match stimulus {
        Stimulus::Timer => if spec_steps_on_tick(s) {
            spec_draw_universe(spec_step(s.cells))
        } else {
            Seq::empty()
        },
        Stimulus::CellInteraction(point, Event::Release) => seq![
            spec_draw_cell(point.spec_index(), s.cells[point.spec_index()].spec_toggled()),
        ],
        _ => Seq::empty(),
    }
}

/// The colour in which a cell is drawn.
pub fn cell_color(cell: Cell) -> (color: Rgb)
    ensures
        color@ == spec_cell_color(cell),
{
    match cell {
        Cell::Alive => Rgb::green(),
        Cell::Dead => Rgb::black(),
    }
}

/// The Launchpad Pro app state.
pub struct ApplicationState {
    /// A flag to indicate whether the Game of Life simulation is running.
    is_running: bool,
    /// Our Game of Life state.
    life: Universe,
    /// Counts the raw timer ticks of one frame.
    divider: FrameDivider,
}

impl View for ApplicationState {
    type V = StateView;

    closed spec fn view(&self) -> StateView {
        StateView {
            running: self.is_running,
            cells: self.life@,
            ticks: self.divider.spec_ticks(),
            ticks_per_frame: self.divider.spec_ticks_per_frame(),
        }
    }
}

impl ApplicationState {
    /// Create the app with the frame rate of the device: paused, every cell dead.
    pub fn on_init() -> (state: ApplicationState)
        ensures
            state@ == spec_init(TICKS_PER_FRAME as nat),
    {
        ApplicationState::new(FrameDivider::from_rates(RAW_TICK_RATE_HZ, FRAMES_PER_SECOND))
    }

    /// Create the app with a frame divider of its own: paused, every cell dead, the
    /// counter of the divider back at zero.
    pub fn new(divider: FrameDivider) -> (state: ApplicationState)
        ensures
            state@ == spec_init(divider.spec_ticks_per_frame()),
    {
        ApplicationState {
            is_running: false,
            life: Universe::new(),
            divider: FrameDivider::new(divider.ticks_per_frame()),
        }
    }

    /// Returns true if the simulation is currently running.
    pub fn is_running(&self) -> (running: bool)
        ensures
            running == self@.running,
    {
        self.is_running
    }

    /// Returns the state of the cell at the given point.
    pub fn get(&self, point: Point) -> (cell: Cell)
        ensures
            cell == self@.cells[point.spec_index()],
    {
        self.life.get(point)
    }

    /// The raw ticks counted since the last frame boundary.
    pub fn ticks(&self) -> (t: u32)
        ensures
            t == self@.ticks,
    {
        self.divider.ticks()
    }

    /// The number of raw ticks that make one frame.
    pub fn ticks_per_frame(&self) -> (n: u32)
        ensures
            n == self@.ticks_per_frame,
    {
        self.divider.ticks_per_frame()
    }

    /// The write that draws the cell at `point` on the Launchpad Pro grid.
    pub fn draw_cell(&self, point: Point) -> (w: LedWrite)
        ensures
            w == spec_draw_cell(point.spec_index(), self@.cells[point.spec_index()]),
    {
        set_led(point, cell_color(self.life.get(point)))
    }

    /// The writes that draw the Game of Life universe on the Launchpad Pro grid.
    pub fn draw_universe(&self) -> (writes: Vec<LedWrite>)
        ensures
            writes@ == spec_draw_universe(self@.cells),
    {
        let points = Grid::points();
        let mut writes: Vec<LedWrite> = Vec::new();
        let mut i: usize = 0;
        while i < points.len()
            invariant
                i <= 100,
                points@ == Grid::spec_points(),
                writes@.len() == i,
                forall|j: int| 0 <= j < i ==> writes@[j] == spec_draw_cell(j, self@.cells[j]),
            decreases 100 - i,
        {
            proof {
                Point::lemma_index_round_trip(i as int);
            }
            writes.push(self.draw_cell(points[i]));
            i = i + 1;
        }
        assert(writes@ =~= spec_draw_universe(self@.cells));
        writes
    }

    /// One raw timer tick. Where the tick is a frame boundary and the simulation is
    /// running, the simulation moves forward by one generation and the whole grid is
    /// to be drawn again. Where it is paused, the divider counts on and nothing else
    /// happens.
    pub fn on_timer_tick(&mut self) -> (writes: Vec<LedWrite>)
        ensures
            final(self)@ == spec_timer_tick(old(self)@),
            writes@ == spec_redraw(old(self)@, Stimulus::Timer),
    {
        let boundary = self.divider.tick();
        if boundary && self.is_running {
            self.life.step();
            self.draw_universe()
        } else {
            Vec::new()
        }
    }

    /// Toggle the state of the cell at the point on the grid. The cell is to be
    /// drawn again at once.
    pub fn on_cell_toggle(&mut self, point: Point) -> (w: LedWrite)
        ensures
            final(self)@ == spec_cell_toggle(old(self)@, point),
            w == spec_draw_cell(
                point.spec_index(),
                old(self)@.cells[point.spec_index()].spec_toggled(),
            ),
    {
        proof {
            use_type_invariant(point);
            self.life.lemma_view_len();
        }
        let toggled_state = self.life.get(point).not();
        self.life.set(point, toggled_state);
        self.draw_cell(point)
    }

    /// Toggle whether the simulation is running.
    pub fn on_mode_toggle(&mut self)
        ensures
            final(self)@ == spec_mode_toggle(old(self)@),
    {
        self.is_running = !self.is_running;
    }

    /// Reacts to one stimulus, and returns the writes to the LEDs that it asks for.
    pub fn handle(&mut self, stimulus: Stimulus) -> (writes: Vec<LedWrite>)
        ensures
            final(self)@ == spec_handle(old(self)@, stimulus),
            writes@ == spec_redraw(old(self)@, stimulus),
    {
        match stimulus {
            Stimulus::Init => {
                *self = ApplicationState::new(self.divider);
                Vec::new()
            },
            Stimulus::Timer => self.on_timer_tick(),
            Stimulus::CellInteraction(point, Event::Release) => {
                let w = self.on_cell_toggle(point);
                let mut writes: Vec<LedWrite> = Vec::new();
                writes.push(w);
                writes
            },
            Stimulus::ModeToggle(Event::Release) => {
                self.on_mode_toggle();
                Vec::new()
            },
            _ => Vec::new(),
        }
    }
}

impl Default for ApplicationState {
    /// The app as the device starts it.
    fn default() -> (state: ApplicationState)
        ensures
            state@ == spec_init(TICKS_PER_FRAME as nat),
    {
        ApplicationState::on_init()
    }
}

impl Stimulus {
    /// The stimulus that a button event is.
    pub open spec fn spec_from_button_event(button_event: ButtonEvent) -> Stimulus {
        match button_event.button {
            Button::Pad(point) => Stimulus::CellInteraction(point, button_event.event),
            Button::Setup => Stimulus::ModeToggle(button_event.event),
        }
    }

    /// The stimulus that a button event is.
    pub fn from_button_event(button_event: ButtonEvent) -> (stimulus: Stimulus)
        ensures
            stimulus == Stimulus::spec_from_button_event(button_event),
    {
        match button_event.button {
            Button::Pad(point) => Stimulus::CellInteraction(point, button_event.event),
            Button::Setup => Stimulus::ModeToggle(button_event.event),
        }
    }
}

/// Toggling a cell twice restores the application: the second toggle undoes the first.
pub proof fn lemma_toggle_twice(s: StateView, point: Point)
    requires
        point.wf(),
        s.cells.len() == 100,
    ensures
        spec_cell_toggle(spec_cell_toggle(s, point), point) == s,
{
    crate::life::lemma_toggle_twice_restores(s.cells, point);
}

/// While the application is paused, timer ticks change neither the cells nor the mode,
/// however many there are.
pub proof fn lemma_paused_ticks_keep_cells(s: StateView, count: nat)
    requires
        !s.running,
    ensures
        spec_timer_ticks(s, count).cells == s.cells,
        !spec_timer_ticks(s, count).running,
        spec_timer_ticks(s, count).ticks_per_frame == s.ticks_per_frame,
        spec_timer_ticks(s, count).ticks == spec_ticks_after(s.ticks, s.ticks_per_frame, count),
    decreases count,
{
    if count > 0 {
        lemma_paused_ticks_keep_cells(spec_timer_tick(s), (count - 1) as nat);
    }
}

/// While the application is running, ticks that stay below the frame boundary change
/// nothing but the counter.
pub proof fn lemma_ticks_before_boundary(s: StateView, count: nat)
    requires
        s.ticks + count < s.ticks_per_frame,
    ensures
        spec_timer_ticks(s, count) == (StateView { ticks: s.ticks + count, ..s }),
    decreases count,
{
    if count > 0 {
        lemma_ticks_before_boundary(spec_timer_tick(s), (count - 1) as nat);
    }
}

/// Delivering `first + second` ticks is delivering `first` ticks and then `second` more.
pub proof fn lemma_timer_ticks_split(s: StateView, first: nat, second: nat)
    ensures
        spec_timer_ticks(s, first + second) == spec_timer_ticks(
            spec_timer_ticks(s, first),
            second,
        ),
    decreases first,
{
    if first > 0 {
        lemma_timer_ticks_split(spec_timer_tick(s), (first - 1) as nat, second);
        assert((first - 1) as nat + second == (first + second - 1) as nat);
    } else {
        assert(first + second == second);
    }
}

/// While the application is running, the ticks of one frame advance the simulation
/// by exactly one generation and leave the counter where it stood.
pub proof fn lemma_running_frame_steps_once(s: StateView)
    requires
        s.running,
        s.ticks_per_frame >= 1,
        s.ticks < s.ticks_per_frame,
    ensures
        spec_timer_ticks(s, s.ticks_per_frame) == (StateView { cells: spec_step(s.cells), ..s }),
{
    let n = s.ticks_per_frame;
    let before = (n - 1 - s.ticks) as nat;
    let at_boundary = StateView { ticks: (n - 1) as nat, ..s };
    let stepped = StateView { cells: spec_step(s.cells), ticks: 0, ..s };
    lemma_ticks_before_boundary(s, before);
    assert(spec_timer_ticks(s, before) == at_boundary);
    assert(spec_timer_ticks(at_boundary, 1) == stepped) by {
        assert(spec_timer_tick(at_boundary) == stepped);
        assert(spec_timer_ticks(stepped, 0) == stepped);
    }
    lemma_ticks_before_boundary(stepped, s.ticks);
    lemma_timer_ticks_split(at_boundary, 1, s.ticks);
    lemma_timer_ticks_split(s, before, 1 + s.ticks);
    assert(before + (1 + s.ticks) == n);
}

/// The mode gates the simulation. From the start, a cell that is toggled alive
/// outlives the ticks of a frame, as the application is paused; once the mode is
/// toggled, the ticks of one more frame advance the simulation, and the cell, which
/// has no live neighbour, is dead.
pub proof fn lemma_mode_gating(point: Point, ticks_per_frame: nat)
    requires
        point.wf(),
        ticks_per_frame >= 1,
    ensures
        ({
            let toggled = spec_cell_toggle(spec_init(ticks_per_frame), point);
            let paused = spec_timer_ticks(toggled, ticks_per_frame);
            let running = spec_timer_ticks(spec_mode_toggle(paused), ticks_per_frame);
            &&& toggled.cells[point.spec_index()] == Cell::Alive
            &&& paused.cells[point.spec_index()] == Cell::Alive
            &&& paused.cells == toggled.cells
            &&& running.cells == spec_step(toggled.cells)
            &&& running.cells[point.spec_index()] == Cell::Dead
        }),
{
    let toggled = spec_cell_toggle(spec_init(ticks_per_frame), point);
    let paused = spec_timer_ticks(toggled, ticks_per_frame);
    lemma_paused_ticks_keep_cells(toggled, ticks_per_frame);
    FrameDivider::lemma_one_boundary_per_frame(0, ticks_per_frame);
    lemma_running_frame_steps_once(spec_mode_toggle(paused));
    crate::life::lemma_lonely_cell_dies(toggled.cells, point);
    Point::lemma_point_round_trip(point);
}

} // verus!
