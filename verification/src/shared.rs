//! The application behind a lock, for a device that delivers timer ticks and button
//! events from different contexts.

use crate::application::{
    spec_draw_cell, spec_draw_universe, spec_redraw, spec_timer_tick, ApplicationState, Stimulus,
};
use crate::hal::grid::Point;
use crate::hal::surface::{ButtonEvent, Event, LedWrite};
use crate::life::Cell;
use vstd::prelude::*;

verus! {

/// `spin::mutex::Mutex`, the spin lock. Verified code carries it and cannot look
/// into it.
#[verifier::external_type_specification]
#[verifier::external_body]
#[verifier::reject_recursive_types(T)]
#[verifier::reject_recursive_types(R)]
pub struct ExMutex<T: ?Sized, R>(spin::mutex::Mutex<T, R>);

/// `spin::mutex::MutexGuard`, which stands for the held lock and frees it when it
/// goes out of scope.
#[verifier::external_type_specification]
#[verifier::external_body]
#[verifier::reject_recursive_types(T)]
pub struct ExMutexGuard<'a, T: 'a + ?Sized>(spin::mutex::MutexGuard<'a, T>);

/// `spin::relax::Spin`, the way in which the lock waits: it spins.
#[verifier::external_type_specification]
#[verifier::external_body]
pub struct ExSpin(spin::relax::Spin);

/// `spin::mutex::Mutex::new`: a lock around `state`, free at first. Nothing is
/// claimed of the lock, which verified code cannot look into.
#[verifier::external_body]
fn new_lock(state: ApplicationState) -> spin::mutex::Mutex<ApplicationState, spin::relax::Spin> {
    spin::mutex::Mutex::new(state)
}

/// `spin::mutex::Mutex::try_lock`: one attempt to take the lock, which returns at once.
/// Whether it succeeds depends on who else holds the lock, so nothing is claimed of
/// the result.
#[verifier::external_body]
fn try_lock<'a>(
    mutex: &'a spin::mutex::Mutex<ApplicationState, spin::relax::Spin>,
) -> Option<spin::mutex::MutexGuard<'a, ApplicationState>> {
    mutex.try_lock()
}

/// `spin::mutex::Mutex::lock`: spins until the lock is free and takes it. Nothing is
/// claimed of the guard. The call returns only once every other holder has let go,
/// so it must not be made from a context that holds the lock itself.
#[verifier::external_body]
fn lock<'a>(
    mutex: &'a spin::mutex::Mutex<ApplicationState, spin::relax::Spin>,
) -> spin::mutex::MutexGuard<'a, ApplicationState> {
    mutex.lock()
}

/// `DerefMut::deref_mut` of `spin::mutex::MutexGuard`: the state that the held lock
/// protects. What it holds was left there by the holder before, so nothing is claimed
/// of it.
#[verifier::external_body]
fn locked_state<'a, 'b>(
    guard: &'a mut spin::mutex::MutexGuard<'b, ApplicationState>,
) -> &'a mut ApplicationState {
    &mut **guard
}

/// What the timer does with the outcome of its one attempt at the lock. With the
/// state in hand it delivers the tick. Without it the tick is dropped: nothing is
/// drawn, and the tick is not made up for later.
pub fn timer_tick_or_skip(acquired: Option<&mut ApplicationState>) -> (writes: Vec<LedWrite>)
    ensures
        match acquired {
            Some(state) => final(state)@ == spec_timer_tick(state@) && writes@ == spec_redraw(
                state@,
                Stimulus::Timer,
            ),
            None => writes@ == Seq::<LedWrite>::empty(),
        },
{
    match acquired {
        Some(state) => state.on_timer_tick(),
        None => Vec::new(),
    }
}

/// The Launchpad Pro app: the application state behind a lock.
pub struct App {
    state: spin::mutex::Mutex<ApplicationState, spin::relax::Spin>,
}

impl App {
    /// Create the app around the state it starts with.
    pub fn new(state: ApplicationState) -> App {
        App { state: new_lock(state) }
    }

    /// Returns true if the simulation is currently running. Waits for the lock.
    pub fn is_running(&self) -> bool {
        let mut guard = lock(&self.state);
        let state = locked_state(&mut guard);
        state.is_running()
    }

    /// Returns the state of the cell at the given point. Waits for the lock.
    pub fn get(&self, point: Point) -> Cell {
        let mut guard = lock(&self.state);
        let state = locked_state(&mut guard);
        state.get(point)
    }

    /// One raw timer tick. The tick is dropped where the lock is held: the timer must
    /// not wait. The writes returned are none, or those that draw a whole generation.
    pub fn timer_event(&self) -> (writes: Vec<LedWrite>)
        ensures
            writes@.len() == 0 || exists|cells: Seq<Cell>| writes@ == spec_draw_universe(cells),
    {
        let mut attempt = try_lock(&self.state);
        let acquired = match &mut attempt {
            Some(guard) => Some(locked_state(guard)),
            None => None,
        };
        timer_tick_or_skip(acquired)
    }

    /// One button event. Waits for the lock. The release of a pad toggles its cell and
    /// returns the one write that draws it; the release of the setup button toggles
    /// the mode; a press does nothing.
    pub fn button_event(&self, button_event: ButtonEvent) -> (writes: Vec<LedWrite>)
        ensures
            match Stimulus::spec_from_button_event(button_event) {
                Stimulus::CellInteraction(point, Event::Release) => writes@.len() == 1 && exists|
                    cell: Cell,
                | writes@[0] == spec_draw_cell(point.spec_index(), cell),
                _ => writes@.len() == 0,
            },
    {
        let mut guard = lock(&self.state);
        let state = locked_state(&mut guard);
        state.handle(Stimulus::from_button_event(button_event))
    }
}

} // verus!
