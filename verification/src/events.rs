//! What the tasks of the device tell one another: events for the
//! orchestrator, and the devices on the I2C bus.

use vstd::prelude::*;
use crate::mqtt::{MqttMessage, MqttMessageView};

verus! {

/// What to do with the real-time clock.
#[derive(Debug, Clone, Copy, PartialEq, Eq, Structural)]
pub enum RtcAction {
    Read,
    Write,
}

/// A device on the I2C bus that needs attention.
#[derive(Debug, Clone, Copy, PartialEq, Eq, Structural)]
pub enum I2CDevice {
    Ssd1306Display,
    RtcDs3231(RtcAction),
}

/// Orders between tasks.
#[derive(Debug, Clone, Copy, PartialEq, Eq, Structural)]
pub enum Commands {
    UpdateDisplay,
    MqttReceive,
    MqttSend,
    WakeUp,
}

/// What an event holds.
pub enum EventsView {
    Starting,
    SelectButtonPressed,
    SendButtonPressed,
    MessageReceived(MqttMessageView),
}

/// What happens to the device: it starts, a button is pressed, or a
/// message arrives.
#[derive(Debug)]
pub enum Events {
    Starting,
    SelectButtonPressed,
    SendButtonPressed,
    MessageReceived(MqttMessage),
}

impl View for Events {
    type V = EventsView;

    open spec fn view(&self) -> EventsView {
        match self {
            Events::Starting => EventsView::Starting,
            Events::SelectButtonPressed => EventsView::SelectButtonPressed,
            Events::SendButtonPressed => EventsView::SendButtonPressed,
            Events::MessageReceived(m) => EventsView::MessageReceived(m@),
        }
    }
}

impl Clone for Events {
    fn clone(&self) -> (r: Self)
        ensures
            r@ == self@,
    {
        match self {
            Events::Starting => Events::Starting,
            Events::SelectButtonPressed => Events::SelectButtonPressed,
            Events::SendButtonPressed => Events::SendButtonPressed,
            Events::MessageReceived(m) => Events::MessageReceived(m.clone()),
        }
    }
}

/// The event that a button handler emits once its input has settled at a
/// new level: its own press event when the level is high, nothing when it
/// is low. A handler set up with another event has no press event to emit.
pub fn press_event(events: &Events, level_high: bool) -> (r: Option<Events>)
    requires
        level_high ==> (events is SelectButtonPressed || events is SendButtonPressed),
    ensures
        !level_high ==> r is None,
        level_high ==> (r matches Some(e) && e@ == events@),
{
    if !level_high {
        return None;
    }
    match events {
        Events::SelectButtonPressed => Some(events.clone()),
        Events::SendButtonPressed => Some(events.clone()),
        _ => None,
    }
}

} // verus!
