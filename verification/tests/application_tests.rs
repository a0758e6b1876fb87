use launchpad_pro_rs::application::{
    cell_color, ApplicationState, FrameDivider, Stimulus, FRAMES_PER_SECOND, RAW_TICK_RATE_HZ,
    TICKS_PER_FRAME,
};
use launchpad_pro_rs::hal::surface::{Button, ButtonEvent, Event, LedWrite};
use launchpad_pro_rs::hal::{Grid, Point, Rgb};
use launchpad_pro_rs::life::Cell;
use launchpad_pro_rs::shared::{timer_tick_or_skip, App};

fn release(button: Button) -> ButtonEvent {
    ButtonEvent { button, event: Event::Release }
}

#[test]
fn ticks_per_frame_is_the_quotient_of_the_rates() {
    assert_eq!(TICKS_PER_FRAME, RAW_TICK_RATE_HZ / FRAMES_PER_SECOND);
    assert_eq!(ApplicationState::on_init().ticks_per_frame(), 100);
    assert_eq!(FrameDivider::from_rates(1000, 10).ticks_per_frame(), 100);
    assert_eq!(FrameDivider::from_rates(1000, 4).ticks_per_frame(), 250);
    assert_eq!(FrameDivider::from_rates(1000, 7).ticks_per_frame(), 142);
    assert_eq!(FrameDivider::from_rates(3, 10).ticks_per_frame(), 0);
}

#[test]
fn one_frame_boundary_in_every_frame_of_ticks() {
    for n in [1u32, 2, 3, 4, 10, 100, 250] {
        let mut divider = FrameDivider::new(n);
        assert_eq!(divider.ticks(), 0);
        for _frame in 0..3 {
            let mut boundaries = 0;
            for tick in 1..=n {
                let boundary = divider.tick();
                assert_eq!(boundary, tick == n);
                if boundary {
                    boundaries += 1;
                    assert_eq!(divider.ticks(), 0);
                } else {
                    assert_eq!(divider.ticks(), tick);
                }
            }
            assert_eq!(boundaries, 1);
        }
    }
}

#[test]
fn one_frame_boundary_in_any_window_of_a_frame() {
    let n = 5u32;
    for offset in 0..n {
        let mut divider = FrameDivider::new(n);
        for _ in 0..offset {
            divider.tick();
        }
        assert_eq!(divider.ticks(), offset);
        let boundaries = (0..n).filter(|_| divider.tick()).count();
        assert_eq!(boundaries, 1);
        assert_eq!(divider.ticks(), offset);
    }
}

#[test]
fn divider_of_no_ticks_lets_every_tick_through() {
    let mut divider = FrameDivider::new(0);
    for _ in 0..4 {
        assert!(divider.tick());
        assert_eq!(divider.ticks(), 0);
    }
}

#[test]
fn default_is_the_initial_state() {
    let state = ApplicationState::default();
    assert!(!state.is_running());
    assert_eq!(state.ticks(), 0);
    assert_eq!(state.ticks_per_frame(), 100);
    assert!(Grid::points().into_iter().all(|p| state.get(p) == Cell::Dead));
}

#[test]
fn init_is_paused_dead_and_zeroed() {
    let state = ApplicationState::on_init();
    assert!(!state.is_running());
    assert_eq!(state.ticks(), 0);
    assert_eq!(state.ticks_per_frame(), TICKS_PER_FRAME);
    for point in Grid::points() {
        assert_eq!(state.get(point), Cell::Dead);
    }
}

#[test]
fn cells_are_drawn_green_and_black() {
    assert_eq!(cell_color(Cell::Alive), Rgb::green());
    assert_eq!(cell_color(Cell::Dead), Rgb::black());
    assert_eq!(cell_color(Cell::Alive).components(), (0, 63, 0));
    assert_eq!(cell_color(Cell::Dead).components(), (0, 0, 0));
}

#[test]
fn toggle_draws_the_one_cell_at_once() {
    let mut state = ApplicationState::on_init();
    let write = state.on_cell_toggle(Point::new(7, 3));
    assert_eq!(write, LedWrite { index: 37, red: 0, green: 63, blue: 0 });
    assert_eq!(state.get(Point::new(7, 3)), Cell::Alive);
    assert_eq!(state.ticks(), 0);
    assert!(!state.is_running());

    let write = state.on_cell_toggle(Point::new(7, 3));
    assert_eq!(write, LedWrite { index: 37, red: 0, green: 0, blue: 0 });
    for point in Grid::points() {
        assert_eq!(state.get(point), Cell::Dead);
    }
}

#[test]
fn mode_toggle_flips_the_mode_and_nothing_else() {
    let mut state = ApplicationState::new(FrameDivider::new(4));
    state.on_cell_toggle(Point::new(1, 1));
    state.on_timer_tick();
    state.on_mode_toggle();
    assert!(state.is_running());
    assert_eq!(state.ticks(), 1);
    assert_eq!(state.get(Point::new(1, 1)), Cell::Alive);
    state.on_mode_toggle();
    assert!(!state.is_running());
    assert_eq!(state.ticks(), 1);
    assert_eq!(state.get(Point::new(1, 1)), Cell::Alive);
}

#[test]
fn running_frame_steps_and_draws_the_whole_grid() {
    let mut state = ApplicationState::new(FrameDivider::new(3));
    // a block is a still life
    for (x, y) in [(4, 4), (5, 4), (4, 5), (5, 5)] {
        state.on_cell_toggle(Point::new(x, y));
    }
    state.on_cell_toggle(Point::new(0, 9));
    state.on_mode_toggle();
    assert!(state.on_timer_tick().is_empty());
    assert!(state.on_timer_tick().is_empty());
    assert_eq!(state.get(Point::new(0, 9)), Cell::Alive);
    let writes = state.on_timer_tick();
    assert_eq!(state.ticks(), 0);
    assert_eq!(writes.len(), 100);
    for (i, write) in writes.iter().enumerate() {
        let point = Point::from_index(i as u8);
        let alive = (4..=5).contains(&point.x()) && (4..=5).contains(&point.y());
        assert_eq!(write.index as usize, i);
        assert_eq!((write.red, write.green, write.blue), (0, if alive { 63 } else { 0 }, 0));
        assert_eq!(state.get(point) == Cell::Alive, alive);
    }
}

#[test]
fn paused_frame_resets_the_divider_without_a_step() {
    let mut state = ApplicationState::new(FrameDivider::new(2));
    state.on_cell_toggle(Point::new(3, 3));
    assert!(state.on_timer_tick().is_empty());
    assert_eq!(state.ticks(), 1);
    assert!(state.on_timer_tick().is_empty());
    assert_eq!(state.ticks(), 0);
    assert_eq!(state.get(Point::new(3, 3)), Cell::Alive);
}

#[test]
fn only_releases_are_reacted_to() {
    let mut state = ApplicationState::new(FrameDivider::new(2));
    let p = Point::new(6, 2);

    assert!(state.handle(Stimulus::CellInteraction(p, Event::Press(127))).is_empty());
    assert_eq!(state.get(p), Cell::Dead);
    let writes = state.handle(Stimulus::CellInteraction(p, Event::Release));
    assert_eq!(writes, vec![LedWrite { index: 26, red: 0, green: 63, blue: 0 }]);
    assert_eq!(state.get(p), Cell::Alive);

    assert!(state.handle(Stimulus::ModeToggle(Event::Press(1))).is_empty());
    assert!(!state.is_running());
    assert!(state.handle(Stimulus::ModeToggle(Event::Release)).is_empty());
    assert!(state.is_running());

    assert!(state.handle(Stimulus::Timer).is_empty());
    assert_eq!(state.handle(Stimulus::Timer).len(), 100);
    assert_eq!(state.get(p), Cell::Dead);

    state.handle(Stimulus::CellInteraction(p, Event::Release));
    state.handle(Stimulus::Timer);
    assert!(state.handle(Stimulus::Init).is_empty());
    assert!(!state.is_running());
    assert_eq!(state.ticks(), 0);
    assert_eq!(state.ticks_per_frame(), 2);
    assert_eq!(state.get(p), Cell::Dead);
}

#[test]
fn button_events_become_stimuli() {
    let p = Point::new(5, 5);
    assert_eq!(
        Stimulus::from_button_event(release(Button::Pad(p))),
        Stimulus::CellInteraction(p, Event::Release)
    );
    assert_eq!(
        Stimulus::from_button_event(ButtonEvent { button: Button::Pad(p), event: Event::Press(9) }),
        Stimulus::CellInteraction(p, Event::Press(9))
    );
    assert_eq!(
        Stimulus::from_button_event(release(Button::Setup)),
        Stimulus::ModeToggle(Event::Release)
    );
}

#[test]
fn mode_gates_the_simulation() {
    for n in [1u32, 2, 10, TICKS_PER_FRAME] {
        let mut state = ApplicationState::new(FrameDivider::new(n));
        assert!(!state.is_running());
        state.on_cell_toggle(Point::new(5, 5));
        assert_eq!(state.get(Point::new(5, 5)), Cell::Alive);
        for _ in 0..n {
            assert!(state.on_timer_tick().is_empty());
        }
        assert_eq!(state.get(Point::new(5, 5)), Cell::Alive);
        state.on_mode_toggle();
        assert!(state.is_running());
        for _ in 0..n {
            state.on_timer_tick();
        }
        assert_eq!(state.get(Point::new(5, 5)), Cell::Dead);
    }
}

#[test]
fn app_starts_paused_until_setup_button_is_pressed() {
    // create our app
    let app = App::new(ApplicationState::on_init());

    // we expect that our newly created app will start paused
    assert_eq!(app.is_running(), false);

    // create a single cell that will immediately die once the simulation starts
    let writes = app.button_event(ButtonEvent {
        button: Button::Pad(Point::new(5, 5)),
        event: Event::Release,
    });
    assert_eq!(writes, vec![LedWrite { index: 55, red: 0, green: 63, blue: 0 }]);

    // expect that the cell we created is now alive
    assert_eq!(app.get(Point::new(5, 5)), Cell::Alive);

    // call the timer until the simulation is progressed by one tick (if it was running...)
    for _ in 0..TICKS_PER_FRAME {
        assert!(app.timer_event().is_empty());
    }

    // check that our cell is still alive
    assert_eq!(app.get(Point::new(5, 5)), Cell::Alive);

    // press the setup button to unpause the simulation
    app.button_event(ButtonEvent { button: Button::Setup, event: Event::Release });

    // check that our button press was registered
    assert_eq!(app.is_running(), true);

    // call the timer until the simulation is progressed by one tick
    let mut drawn = 0;
    for _ in 0..TICKS_PER_FRAME {
        drawn += app.timer_event().len();
    }
    assert_eq!(drawn, 100);

    // now that the simulation as started we expect that our solitary cell has died
    assert_eq!(app.get(Point::new(5, 5)), Cell::Dead);
}

#[test]
fn app_ignores_presses() {
    let app = App::new(ApplicationState::new(FrameDivider::new(1)));
    let press = |button| ButtonEvent { button, event: Event::Press(100) };
    assert!(app.button_event(press(Button::Pad(Point::new(2, 2)))).is_empty());
    assert!(app.button_event(press(Button::Setup)).is_empty());
    assert_eq!(app.get(Point::new(2, 2)), Cell::Dead);
    assert!(!app.is_running());
    assert!(app.timer_event().is_empty());
}

#[test]
fn timer_tick_is_dropped_without_the_lock() {
    let mut state = ApplicationState::new(FrameDivider::new(2));
    state.on_cell_toggle(Point::new(4, 4));
    state.on_mode_toggle();

    // the lock was not had: nothing is drawn and the state is as it was
    assert!(timer_tick_or_skip(None).is_empty());
    assert_eq!(state.ticks(), 0);
    assert_eq!(state.get(Point::new(4, 4)), Cell::Alive);

    // the lock was had: the tick is delivered
    assert!(timer_tick_or_skip(Some(&mut state)).is_empty());
    assert_eq!(state.ticks(), 1);
    assert!(timer_tick_or_skip(None).is_empty());
    assert_eq!(state.ticks(), 1);
    assert_eq!(timer_tick_or_skip(Some(&mut state)).len(), 100);
    assert_eq!(state.ticks(), 0);
    assert_eq!(state.get(Point::new(4, 4)), Cell::Dead);
}
