//! The state of the device and how each event changes it: the known
//! devices, the recipient choice, the alert ready to be sent, and the
//! screen.

use vstd::prelude::*;
use vstd::utf8::is_ascii_chars;
use crate::text::{
    STRING_SIZE,
    text_chars,
    fits,
    first_index,
    lemma_first_index,
    lemma_first_index_at,
    lemma_utf8_len_ascii,
    text_new,
    text_push_str,
    text_as_str,
    text_clone,
    str_eq,
};
use crate::lists::{
    MAX_DEVICES,
    GLOBAL_MAX_ITEMS,
    device_names,
    item_names,
    devices_new,
    devices_len,
    devices_get,
    devices_push,
    devices_remove,
    devices_clone,
    items_new,
    items_push,
};
use crate::settings::{
    MqttSettings,
    SettingsView,
    MessagePriority,
    BroadCastTo,
    recipient_index,
    next_recipient_spec,
    next_recipient_defined,
};
use crate::mqtt::{
    MqttMessage,
    MqttMessageView,
    AlertMessage,
    AlertView,
    PingMessage,
    PingType,
    PingView,
    message_option_view,
};
use crate::screen::{CurrentScreen, ScreenData, ScreenView};
use crate::events::{Events, EventsView, I2CDevice};

verus! {

/// What the device state holds.
pub struct AppStateView {
    pub screen: Option<CurrentScreen>,
    pub mqtt_settings: Option<SettingsView>,
    pub mqtt_msg: Option<MqttMessageView>,
    pub devices: Option<Seq<Seq<char>>>,
}

/// The state of the device.
#[derive(Debug)]
pub struct AppState {
    screen: Option<CurrentScreen>,
    mqtt_settings: Option<MqttSettings>,
    mqtt_msg: Option<MqttMessage>,
    devices: Option<heapless::Vec<heapless::String<STRING_SIZE>, MAX_DEVICES>>,
}

pub open spec fn settings_option_view(s: Option<MqttSettings>) -> Option<SettingsView> {
    match s {
        Some(s) => Some(s@),
        None => None,
    }
}

pub open spec fn devices_option_view(
    d: Option<heapless::Vec<heapless::String<STRING_SIZE>, MAX_DEVICES>>,
) -> Option<Seq<Seq<char>>> {
    match d {
        Some(d) => Some(device_names(d)),
        None => None,
    }
}

impl View for AppState {
    type V = AppStateView;

    closed spec fn view(&self) -> AppStateView {
        AppStateView {
            screen: self.screen,
            mqtt_settings: settings_option_view(self.mqtt_settings),
            mqtt_msg: message_option_view(self.mqtt_msg),
            devices: devices_option_view(self.devices),
        }
    }
}

/// The devices known, in the order they were first heard of.
pub open spec fn known_devices(v: AppStateView) -> Seq<Seq<char>> {
    match v.devices {
        Some(d) => d,
        None => Seq::empty(),
    }
}

/// The screen up; `Messaging` when none is set.
pub open spec fn shown_screen(v: AppStateView) -> CurrentScreen {
    match v.screen {
        Some(s) => s,
        None => CurrentScreen::Messaging,
    }
}

/// The position of the chosen recipient (0 without settings).
pub open spec fn chosen_index(v: AppStateView) -> u8 {
    match v.mqtt_settings {
        Some(s) => recipient_index(s),
        None => 0,
    }
}

/// The name of the chosen recipient: the known device at the chosen
/// position, or `all` past the end of the list.
pub open spec fn selected_name(v: AppStateView) -> Seq<char> {
    if (chosen_index(v) as int) < known_devices(v).len() {
        known_devices(v)[chosen_index(v) as int]
    } else {
        "all"@
    }
}

/// The list of devices after hearing from `name`: appended when it is new
/// and there is room.
pub open spec fn added(devices: Option<Seq<Seq<char>>>, name: Seq<char>) -> Option<Seq<Seq<char>>> {
    match devices {
        Some(d) => if d.contains(name) || d.len() >= MAX_DEVICES {
            Some(d)
        } else {
            Some(d.push(name))
        },
        None => Some(seq![name]),
    }
}

/// The list of devices after `name` left: its first occurrence taken out.
pub open spec fn removed(devices: Option<Seq<Seq<char>>>, name: Seq<char>) -> Option<
    Seq<Seq<char>>,
> {
    match devices {
        Some(d) => match first_index(d, name) {
            Some(i) => Some(d.remove(i)),
            None => Some(d),
        },
        None => None,
    }
}

/// The select button can be handled: on the messaging screen the
/// settings are there, the recipient choice can move on, and the device
/// name fits; the alert screen has no handling.
pub open spec fn select_defined(v: AppStateView, own: Seq<char>) -> bool {
    match shown_screen(v) {
        CurrentScreen::Messaging => match v.mqtt_settings {
            Some(s) => next_recipient_defined(s.broadcast_to, known_devices(v).len() as u8) && fits(
                own,
            ),
            None => false,
        },
        CurrentScreen::Alert => false,
        _ => true,
    }
}

/// The state after the settings learn the number of devices and move to
/// the next recipient.
pub open spec fn with_next_recipient(v: AppStateView) -> AppStateView {
    match v.mqtt_settings {
        Some(s) => {
            let n = known_devices(v).len() as u8;
            AppStateView {
                mqtt_settings: Some(
                    SettingsView {
                        number_of_devices: n,
                        broadcast_to: next_recipient_spec(s.broadcast_to, n),
                        ..s
                    },
                ),
                ..v
            }
        },
        None => v,
    }
}

/// The state with a medium alert to the chosen recipient ready.
pub open spec fn with_alert(v: AppStateView, own: Seq<char>) -> AppStateView {
    AppStateView {
        mqtt_msg: Some(
            MqttMessageView::Alert(
                AlertView {
                    to_device: selected_name(v),
                    from_device: own,
                    priority: MessagePriority::Medium,
                },
            ),
        ),
        ..v
    }
}

/// The state after the select button: on the messaging screen, the next
/// recipient is chosen and an alert to it made ready.
pub open spec fn after_select(v: AppStateView, own: Seq<char>) -> AppStateView {
    match shown_screen(v) {
        CurrentScreen::Messaging => with_alert(with_next_recipient(v), own),
        _ => v,
    }
}

/// The message the send button sends: the alert made ready, on the
/// messaging screen.
pub open spec fn message_to_send(v: AppStateView) -> Option<MqttMessageView> {
    if shown_screen(v) == CurrentScreen::Messaging {
        v.mqtt_msg
    } else {
        None
    }
}

/// The state after a message arrives: an answer to a ping adds its sender,
/// a death notice removes it, and the rest changes nothing.
pub open spec fn after_receive(v: AppStateView, m: MqttMessageView) -> AppStateView {
    match m {
        MqttMessageView::Alert(_) => v,
        MqttMessageView::Ping(p) => match p.ping_type {
            PingType::Ping => v,
            PingType::Pong => AppStateView { devices: added(v.devices, p.device_name), ..v },
            PingType::Death => AppStateView { devices: removed(v.devices, p.device_name), ..v },
        },
    }
}

/// The lines of the recipient list: the first twelve known devices, then
/// "everyone" when there is room.
pub open spec fn screen_items(v: AppStateView) -> Seq<Seq<char>> {
    let d = known_devices(v);
    if d.len() < GLOBAL_MAX_ITEMS {
        d.push("Tout le monde"@)
    } else {
        d.take(GLOBAL_MAX_ITEMS as int)
    }
}

/// The screen snapshot of a state.
pub open spec fn screen_of(v: AppStateView) -> ScreenView {
    ScreenView {
        items: screen_items(v),
        selected_item: chosen_index(v),
        align: false,
        current_screen: shown_screen(v),
    }
}

/// An event can be handled.
pub open spec fn event_defined(v: AppStateView, e: EventsView, own: Seq<char>) -> bool {
    match e {
        EventsView::Starting => fits(own),
        EventsView::SelectButtonPressed => select_defined(v, own),
        _ => true,
    }
}

/// The state after an event.
pub open spec fn after_event(v: AppStateView, e: EventsView, own: Seq<char>) -> AppStateView {
    match e {
        EventsView::Starting => v,
        EventsView::SelectButtonPressed => after_select(v, own),
        EventsView::SendButtonPressed => v,
        EventsView::MessageReceived(m) => after_receive(v, m),
    }
}

/// The message an event sends: a ping when the device starts, the alert
/// made ready when the send button is pressed.
pub open spec fn event_message(v: AppStateView, e: EventsView, own: Seq<char>) -> Option<
    MqttMessageView,
> {
    match e {
        EventsView::Starting => Some(
            MqttMessageView::Ping(PingView { ping_type: PingType::Ping, device_name: own }),
        ),
        EventsView::SendButtonPressed => message_to_send(v),
        _ => None,
    }
}

/// What the orchestrator does after an event: the message to hand to the
/// broker task, whether to start the scheduler, and the snapshot to draw.
#[derive(Debug)]
pub struct Reaction {
    pub send: Option<MqttMessage>,
    pub start_scheduler: bool,
    pub screen: ScreenData,
}

impl Default for AppState {
    /// A state with nothing set: no screen, no settings, no alert, no list.
    fn default() -> (r: Self)
        ensures
            r@ == (AppStateView { screen: None, mqtt_settings: None, mqtt_msg: None, devices: None }),
    {
        AppState { screen: None, mqtt_settings: None, mqtt_msg: None, devices: None }
    }
}

impl Clone for AppState {
    fn clone(&self) -> (r: Self)
        ensures
            r@ == self@,
    {
        AppState {
            screen: self.screen,
            mqtt_settings: self.mqtt_settings,
            mqtt_msg: match &self.mqtt_msg {
                Some(m) => Some(m.clone()),
                None => None,
            },
            devices: match &self.devices {
                Some(d) => Some(devices_clone(d)),
                None => None,
            },
        }
    }
}

impl AppState {
    /// The state at start: the messaging screen, default settings, no
    /// alert, no known devices.
    pub fn new() -> (r: Self)
        ensures
            r@ == (AppStateView {
                screen: Some(CurrentScreen::Messaging),
                mqtt_settings: Some(
                    SettingsView {
                        number_of_devices: 0,
                        broadcast_to: BroadCastTo::SelectedRecipient(0),
                        priority: MessagePriority::Medium,
                    },
                ),
                mqtt_msg: None,
                devices: None,
            }),
    {
        AppState {
            screen: Some(CurrentScreen::default()),
            mqtt_settings: Some(MqttSettings::default()),
            mqtt_msg: None,
            devices: None,
        }
    }

    /// The screen set, if any.
    pub fn screen(&self) -> (r: Option<CurrentScreen>)
        ensures
            r == self@.screen,
    {
        self.screen
    }

    /// The recipient settings, if any.
    pub fn mqtt_settings(&self) -> (r: Option<MqttSettings>)
        ensures
            settings_option_view(r) == self@.mqtt_settings,
    {
        self.mqtt_settings
    }

    /// The message made ready, if any.
    pub fn mqtt_msg(&self) -> (r: Option<&MqttMessage>)
        ensures
            match r {
                Some(m) => self@.mqtt_msg == Some(m@),
                None => self@.mqtt_msg is None,
            },
    {
        match &self.mqtt_msg {
            Some(m) => Some(m),
            None => None,
        }
    }

    /// The list of known devices, if there is one.
    pub fn devices(&self) -> (r: Option<&heapless::Vec<heapless::String<STRING_SIZE>, MAX_DEVICES>>)
        ensures
            match r {
                Some(d) => self@.devices == Some(device_names(*d)),
                None => self@.devices is None,
            },
    {
        match &self.devices {
            Some(d) => Some(d),
            None => None,
        }
    }

    /// Puts up a screen; the display has to be redrawn, which the returned
    /// device says.
    pub fn change_screen(&mut self, new_s: CurrentScreen) -> (r: I2CDevice)
        ensures
            final(self)@ == (AppStateView { screen: Some(new_s), ..old(self)@ }),
            r == I2CDevice::Ssd1306Display,
    {
        self.screen = Some(new_s);
        I2CDevice::Ssd1306Display
    }

    /// The name of the chosen recipient.
    pub fn selected_device_name(&self) -> (r: heapless::String<STRING_SIZE>)
        ensures
            text_chars(r) == selected_name(self@),
    {
        let num: u8 = match &self.mqtt_settings {
            Some(s) => s.selected_recipient(),
            None => 0,
        };
        if let Some(d) = &self.devices {
            if (num as usize) < devices_len(d) {
                return text_clone(devices_get(d, num as usize));
            }
        }
        proof {
            reveal_strlit("all");
            assert(is_ascii_chars("all"@));
            lemma_utf8_len_ascii("all"@);
            assert(Seq::<char>::empty() + "all"@ =~= "all"@);
        }
        let mut x = text_new();
        let _pushed = text_push_str(&mut x, "all");
        x
    }

    /// Makes ready a medium alert to the chosen recipient, from the device
    /// named `own_name`.
    pub fn prepare_mqtt_msg(&mut self, own_name: &str)
        requires
            fits(own_name@),
        ensures
            final(self)@ == with_alert(old(self)@, own_name@),
    {
        let dev_name = self.selected_device_name();
        let pri = MessagePriority::Medium;
        let alert = AlertMessage::new_alert(dev_name, pri, own_name);
        self.mqtt_msg = Some(MqttMessage::AlertMessage(alert));
    }

    /// Handles the select button: on the messaging screen, moves to the
    /// next recipient and makes an alert to it ready.
    pub fn select_btn(&mut self, own_name: &str)
        requires
            select_defined(old(self)@, own_name@),
        ensures
            final(self)@ == after_select(old(self)@, own_name@),
    {
        let screen = match self.screen {
            Some(s) => s,
            None => CurrentScreen::Messaging,
        };
        match screen {
            CurrentScreen::Messaging => {
                let num: u8 = match &self.devices {
                    Some(d) => devices_len(d) as u8,
                    None => 0,
                };
                if let Some(mut mq) = self.mqtt_settings {
                    mq.set_number_of_devices(num);
                    mq.select_next_recipient();
                    self.mqtt_settings = Some(mq);
                }
                self.prepare_mqtt_msg(own_name);
            },
            _ => {},
        }
    }

    /// Handles the send button: the alert made ready, on the messaging
    /// screen, is the message to send.
    pub fn send_btn(&self) -> (r: Option<MqttMessage>)
        ensures
            message_option_view(r) == message_to_send(self@),
    {
        let screen = match self.screen {
            Some(s) => s,
            None => CurrentScreen::Messaging,
        };
        match screen {
            CurrentScreen::Messaging => match &self.mqtt_msg {
                Some(msg) => Some(msg.clone()),
                None => None,
            },
            _ => None,
        }
    }

    /// The ping this device, named `own_name`, sends.
    pub fn send_mqtt_ping(&self, ping_type: PingType, own_name: &str) -> (r: MqttMessage)
        requires
            fits(own_name@),
        ensures
            r@ == MqttMessageView::Ping(PingView { ping_type, device_name: own_name@ }),
    {
        MqttMessage::PingMessage(PingMessage::new_ping(ping_type, own_name))
    }

    /// Handles an arrived message.
    pub fn receive_msg(&mut self, msg: MqttMessage)
        ensures
            final(self)@ == after_receive(old(self)@, msg@),
    {
        match msg {
            MqttMessage::AlertMessage(_a) => {},
            MqttMessage::PingMessage(p) => match p.ping_type {
                PingType::Ping => {},
                PingType::Pong => self.add_device(p.device_name),
                PingType::Death => self.remove_device(p.device_name),
            },
        }
    }

    /// Learns of a device: appends its name when it is new and the list
    /// has room.
    pub fn add_device(&mut self, device_name: heapless::String<STRING_SIZE>)
        ensures
            final(self)@ == (AppStateView {
                devices: added(old(self)@.devices, text_chars(device_name)),
                ..old(self)@
            }),
    {
        let taken = self.devices.take();
        match taken {
            Some(mut dev) => {
                let name = text_as_str(&device_name);
                let n = devices_len(&dev);
                let mut i: usize = 0;
                let mut found = false;
                while i < n
                    invariant
                        n == device_names(dev).len(),
                        i <= n,
                        name@ == text_chars(device_name),
                        found ==> device_names(dev).contains(name@),
                        !found ==> forall|j: int| 0 <= j < i ==> device_names(dev)[j] != name@,
                    decreases n - i,
                {
                    if !found && str_eq(text_as_str(devices_get(&dev, i)), name) {
                        found = true;
                    }
                    i = i + 1;
                }
                if !found {
                    let _pushed = devices_push(&mut dev, device_name);
                }
                self.devices = Some(dev);
            },
            None => {
                let mut dev = devices_new();
                let _pushed = devices_push(&mut dev, device_name);
                assert(device_names(dev) =~= seq![text_chars(device_name)]);
                self.devices = Some(dev);
            },
        }
    }

    /// Forgets a device: takes its name out of the list.
    pub fn remove_device(&mut self, device_name: heapless::String<STRING_SIZE>)
        ensures
            final(self)@ == (AppStateView {
                devices: removed(old(self)@.devices, text_chars(device_name)),
                ..old(self)@
            }),
    {
        let taken = self.devices.take();
        match taken {
            Some(mut dev) => {
                let name = text_as_str(&device_name);
                let n = devices_len(&dev);
                let mut i: usize = 0;
                let mut index: Option<usize> = None;
                while i < n && index.is_none()
                    invariant
                        n == device_names(dev).len(),
                        i <= n,
                        name@ == text_chars(device_name),
                        index is None ==> forall|j: int|
                            0 <= j < i ==> device_names(dev)[j] != name@,
                        index matches Some(k) ==> k < n && device_names(dev)[k as int] == name@
                            && forall|j: int| 0 <= j < k ==> device_names(dev)[j] != name@,
                    decreases n - i,
                {
                    if str_eq(text_as_str(devices_get(&dev, i)), name) {
                        index = Some(i);
                    }
                    i = i + 1;
                }
                match index {
                    Some(k) => {
                        proof {
                            lemma_first_index_at(device_names(dev), name@, k as int);
                        }
                        let _gone = devices_remove(&mut dev, k);
                    },
                    None => {
                        proof {
                            lemma_first_index(device_names(dev), name@);
                            if let Some(k) = first_index(device_names(dev), name@) {
                                assert(device_names(dev)[k] == name@);
                            }
                        }
                    },
                }
                self.devices = Some(dev);
            },
            None => {},
        }
    }

    /// The snapshot the screen is to show.
    pub fn screen_data(&self) -> (r: ScreenData)
        ensures
            r@ == screen_of(self@),
    {
        let mut items = items_new();
        if let Some(d) = &self.devices {
            let n = devices_len(d);
            let mut i: usize = 0;
            while i < n
                invariant
                    n == device_names(*d).len(),
                    i <= n,
                    item_names(items) == device_names(*d).take(
                        if i < GLOBAL_MAX_ITEMS { i as int } else { GLOBAL_MAX_ITEMS as int },
                    ),
                decreases n - i,
            {
                let _pushed = items_push(&mut items, text_clone(devices_get(d, i)));
                i = i + 1;
                assert(item_names(items) =~= device_names(*d).take(
                    if i < GLOBAL_MAX_ITEMS { i as int } else { GLOBAL_MAX_ITEMS as int },
                ));
            }
        }
        proof {
            reveal_strlit("Tout le monde");
            assert(is_ascii_chars("Tout le monde"@));
            lemma_utf8_len_ascii("Tout le monde"@);
            assert(Seq::<char>::empty() + "Tout le monde"@ =~= "Tout le monde"@);
            let d = known_devices(self@);
            if d.len() < GLOBAL_MAX_ITEMS {
                assert(d.take(d.len() as int) =~= d);
            }
        }
        let mut broadcast_all = text_new();
        let _pushed = text_push_str(&mut broadcast_all, "Tout le monde");
        let _pushed = items_push(&mut items, broadcast_all);
        let selected_item: u8 = match &self.mqtt_settings {
            Some(s) => s.selected_recipient(),
            None => MqttSettings::default().selected_recipient(),
        };
        let current_screen = match self.screen {
            Some(s) => s,
            None => CurrentScreen::Messaging,
        };
        ScreenData { items, selected_item, align: false, current_screen }
    }

    /// Whether an event can be handled (see `event_defined`): the device
    /// fails on the others.
    pub fn can_handle(&self, event: &Events, own_name: &str) -> (r: bool)
        ensures
            r == event_defined(self@, event@, own_name@),
    {
        let name_fits = own_name.as_bytes().len() <= STRING_SIZE;
        match event {
            Events::Starting => name_fits,
            Events::SelectButtonPressed => {
                let screen = match self.screen {
                    Some(s) => s,
                    None => CurrentScreen::Messaging,
                };
                match screen {
                    CurrentScreen::Messaging => match self.mqtt_settings {
                        Some(s) => {
                            let num: u8 = match &self.devices {
                                Some(d) => devices_len(d) as u8,
                                None => 0,
                            };
                            let movable = match s.broadcast_to() {
                                BroadCastTo::AllRecipients => true,
                                BroadCastTo::SelectedRecipient(_) => num >= 1,
                            };
                            movable && name_fits
                        },
                        None => false,
                    },
                    CurrentScreen::Alert => false,
                    _ => true,
                }
            },
            _ => true,
        }
    }

    /// Handles one event, as the orchestrator does: the state moves on, and
    /// the returned reaction says what to send, whether the scheduler
    /// starts, and what to draw.
    pub fn handle_event(&mut self, event: Events, own_name: &str) -> (r: Reaction)
        requires
            event_defined(old(self)@, event@, own_name@),
        ensures
            final(self)@ == after_event(old(self)@, event@, own_name@),
            message_option_view(r.send) == event_message(old(self)@, event@, own_name@),
            r.start_scheduler == (event@ is SendButtonPressed),
            r.screen@ == screen_of(final(self)@),
    {
        let mut send: Option<MqttMessage> = None;
        let mut start_scheduler = false;
        match event {
            Events::Starting => {
                send = Some(self.send_mqtt_ping(PingType::Ping, own_name));
            },
            Events::SelectButtonPressed => {
                self.select_btn(own_name);
            },
            Events::SendButtonPressed => {
                send = self.send_btn();
                start_scheduler = true;
            },
            Events::MessageReceived(mqtt_msg) => {
                self.receive_msg(mqtt_msg);
            },
        }
        let screen = self.screen_data();
        Reaction { send, start_scheduler, screen }
    }
}

} // verus!
