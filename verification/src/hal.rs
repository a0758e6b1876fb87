//! The interface to the Launchpad Pro hardware, as plain values.

pub mod color;
pub mod grid;
pub mod midi;
pub mod surface;

pub use color::{Blue, Green, Red, Rgb};
pub use grid::{Grid, Point};

use vstd::prelude::*;

verus! {

/// The LaunchpadApp trait can be implemented to receive events from the Launchpad Pro hardware.
pub trait LaunchpadApp {
    /// Called on startup.
    fn init_event(&mut self, _pads: surface::Pads) {
    }

    /// A timer tick.
    fn timer_event(&mut self) {
    }

    /// Called when a MIDI message is received from USB or DIN.
    fn midi_event(&mut self, _port: midi::Port, _midi_event: midi::Message) {
    }

    /// Called when a SysEx message is received from USB or DIN.
    fn sysex_event(&mut self, _port: midi::Port, _data: &[u8]) {
    }

    /// Called when a MIDI DIN cable is connected or disconnected.
    fn cable_event(&mut self, _cable_event: midi::CableEvent) {
    }

    /// Called when the user presses or releases a button or pad on the surface.
    fn button_event(&mut self, _button_event: surface::ButtonEvent) {
    }

    /// Called when an aftertouch (pad pressure) event is reported by the low level firmware.
    fn aftertouch_event(&mut self, _aftertouch_event: surface::AftertouchEvent) {
    }
}

/// The button event that the raw surface notification `(event, index, value)` stands for:
/// the setup button where `event` is one, else the pad at `index`; a release where
/// `value` is zero, else a press of that value.
pub open spec fn spec_surface_event(event: u8, index: u8, value: u8) -> surface::ButtonEvent {
    surface::ButtonEvent {
        button: if event == 1 {
            surface::Button::Setup
        } else {
            surface::Button::Pad(Point::spec_from_index(index as int))
        },
        event: if value == 0 {
            surface::Event::Release
        } else {
            surface::Event::Press(value)
        },
    }
}

/// The cable event that the raw notification `(cable_type, value)` stands for, if the
/// socket is known: a disconnect where `value` is zero, else a connect.
pub open spec fn spec_cable_event(cable_type: u8, value: u8) -> Option<midi::CableEvent> {
    match midi::Cable::spec_from_code(cable_type) {
        Some(cable) => Some(
            if value == 0 {
                midi::CableEvent::Disconnect(cable)
            } else {
                midi::CableEvent::Connect(cable)
            },
        ),
        None => None,
    }
}

/// The MIDI message that the raw notification `(port, status, data1, data2)` stands for,
/// with the port it came in on, if the port is known.
pub open spec fn spec_midi_event(
    port: u8,
    status: u8,
    data1: u8,
    data2: u8,
) -> Option<(midi::Port, midi::Message)> {
    match midi::Port::spec_from_code(port) {
        Some(port) => Some((port, midi::Message { status, data: (data1, data2) })),
        None => None,
    }
}

/// The aftertouch event that the raw notification `(index, value)` stands for.
pub open spec fn spec_aftertouch_event(index: u8, value: u8) -> surface::AftertouchEvent {
    surface::AftertouchEvent { point: Point::spec_from_index(index as int), value }
}

/// Hands the readings of the pads to the app on startup, and returns the pads that it
/// handed over: they hold the readings as they were given.
pub fn app_init_event(app: &mut dyn LaunchpadApp, adc: [u16; 64]) -> (delivered: surface::Pads)
    ensures
        delivered@ == adc@,
{
    let pads = surface::Pads::new(adc);
    app.init_event(pads);
    pads
}

/// Decodes a raw surface notification, hands the button event to the app and returns it.
pub fn app_surface_event(
    app: &mut dyn LaunchpadApp,
    event: u8,
    index: u8,
    value: u8,
) -> (delivered: surface::ButtonEvent)
    ensures
        delivered == spec_surface_event(event, index, value),
{
    let button_event = surface::ButtonEvent {
        button: if event == 1 {
            surface::Button::Setup
        } else {
            surface::Button::Pad(Point::from_index(index))
        },
        event: if value == 0 {
            surface::Event::Release
        } else {
            surface::Event::Press(value)
        },
    };
    app.button_event(button_event);
    button_event
}

/// Decodes a raw MIDI notification and hands the message to the app, with the port it
/// came in on. Returns what was handed over; a notification from an unknown port is
/// dropped, and the app is not called.
pub fn app_midi_event(
    app: &mut dyn LaunchpadApp,
    port: u8,
    status: u8,
    data1: u8,
    data2: u8,
) -> (delivered: Option<(midi::Port, midi::Message)>)
    ensures
        delivered == spec_midi_event(port, status, data1, data2),
{
    match midi::Port::from_code(port) {
        Some(port) => {
            let message = midi::Message { status, data: (data1, data2) };
            app.midi_event(port, message);
            Some((port, message))
        },
        None => None,
    }
}

/// Hands the bytes of a SysEx message to the app, with the port they came in on.
/// Returns that port; a message from an unknown port is dropped, and the app is not
/// called.
pub fn app_sysex_event(
    app: &mut dyn LaunchpadApp,
    port: u8,
    data: &[u8],
) -> (delivered: Option<midi::Port>)
    ensures
        delivered == midi::Port::spec_from_code(port),
{
    match midi::Port::from_code(port) {
        Some(port) => {
            app.sysex_event(port, data);
            Some(port)
        },
        None => None,
    }
}

/// Decodes a raw aftertouch notification, hands the event to the app and returns it.
pub fn app_aftertouch_event(
    app: &mut dyn LaunchpadApp,
    index: u8,
    value: u8,
) -> (delivered: surface::AftertouchEvent)
    ensures
        delivered == spec_aftertouch_event(index, value),
{
    let aftertouch_event = surface::AftertouchEvent { point: Point::from_index(index), value };
    app.aftertouch_event(aftertouch_event);
    aftertouch_event
}

/// Decodes a raw cable notification and hands the event to the app. Returns what was
/// handed over; a notification for an unknown socket is dropped, and the app is not
/// called.
pub fn app_cable_event(
    app: &mut dyn LaunchpadApp,
    cable_type: u8,
    value: u8,
) -> (delivered: Option<midi::CableEvent>)
    ensures
        delivered == spec_cable_event(cable_type, value),
{
    match midi::Cable::from_code(cable_type) {
        Some(cable) => {
            let cable_event = match value {
                0 => midi::CableEvent::Disconnect(cable),
                _ => midi::CableEvent::Connect(cable),
            };
            app.cable_event(cable_event);
            Some(cable_event)
        },
        None => None,
    }
}

/// Hands a timer tick to the app.
pub fn app_timer_event(app: &mut dyn LaunchpadApp) {
    app.timer_event();
}

} // verus!
