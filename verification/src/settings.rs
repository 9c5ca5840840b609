//! Message priority and the choice of recipient made with the select button.

use vstd::prelude::*;

verus! {

/// Severity carried by an alert.
#[derive(Debug, Clone, Copy, PartialEq, Eq, Structural)]
pub enum MessagePriority {
    Low,
    Medium,
    High,
}

/// The word that stands for a priority in a payload.
pub open spec fn priority_text(p: MessagePriority) -> Seq<char> {
    match p {
        MessagePriority::Low => "low"@,
        MessagePriority::Medium => "medium"@,
        MessagePriority::High => "high"@,
    }
}

/// The priority that a payload word names; any other word means `Medium`.
pub open spec fn priority_from_text(t: Seq<char>) -> MessagePriority {
    if t == "low"@ {
        MessagePriority::Low
    } else if t == "medium"@ {
        MessagePriority::Medium
    } else if t == "high"@ {
        MessagePriority::High
    } else {
        MessagePriority::Medium
    }
}

impl Default for MessagePriority {
    fn default() -> (r: Self)
        ensures
            r == MessagePriority::Medium,
    {
        MessagePriority::Medium
    }
}

impl MessagePriority {
    /// Reads a priority word: `"low"`, `"medium"` or `"high"`; anything else
    /// gives the default, `Medium`.
    pub fn new_from_str(pri: &str) -> (r: Self)
        ensures
            r == priority_from_text(pri@),
    {
        if crate::text::str_eq(pri, "low") {
            MessagePriority::Low
        } else if crate::text::str_eq(pri, "medium") {
            MessagePriority::Medium
        } else if crate::text::str_eq(pri, "high") {
            MessagePriority::High
        } else {
            MessagePriority::Medium
        }
    }

    /// The word that stands for this priority.
    pub fn as_str(&self) -> (r: &str)
        ensures
            r@ == priority_text(*self),
    {
        match self {
            MessagePriority::Low => "low",
            MessagePriority::Medium => "medium",
            MessagePriority::High => "high",
        }
    }
}

/// Who the next alert goes to: one device of the list, by its position, or
/// every device.
#[derive(Debug, Clone, Copy, PartialEq, Eq, Structural)]
pub enum BroadCastTo {
    SelectedRecipient(u8),
    AllRecipients,
}

impl Default for BroadCastTo {
    fn default() -> (r: Self)
        ensures
            r == BroadCastTo::SelectedRecipient(0),
    {
        BroadCastTo::SelectedRecipient(0)
    }
}

/// The recipient that follows `b` when `devices` devices are known: the
/// positions in turn, then everyone, then the first position again.
pub open spec fn next_recipient_spec(b: BroadCastTo, devices: u8) -> BroadCastTo {
    match b {
        BroadCastTo::AllRecipients => BroadCastTo::SelectedRecipient(0),
        BroadCastTo::SelectedRecipient(r) => if r >= devices - 1 {
            BroadCastTo::AllRecipients
        } else {
            BroadCastTo::SelectedRecipient((r + 1) as u8)
        },
    }
}

/// `devices - 1` is only computed from a selected position, and it must
/// not go below zero there.
pub open spec fn next_recipient_defined(b: BroadCastTo, devices: u8) -> bool {
    b is AllRecipients || devices >= 1
}

impl BroadCastTo {
    fn next_recipient(self, devices: u8) -> (r: Self)
        requires
            next_recipient_defined(self, devices),
        ensures
            r == next_recipient_spec(self, devices),
    {
        match self {
            BroadCastTo::AllRecipients => BroadCastTo::SelectedRecipient(0),
            BroadCastTo::SelectedRecipient(r) => {
                if r >= devices - 1 {
                    BroadCastTo::AllRecipients
                } else {
                    BroadCastTo::SelectedRecipient(r + 1)
                }
            },
        }
    }
}

/// What the recipient settings hold.
pub struct SettingsView {
    pub number_of_devices: u8,
    pub broadcast_to: BroadCastTo,
    pub priority: MessagePriority,
}

/// Recipient settings: how many devices are known, who is selected, and
/// the priority of alerts.
#[derive(Debug, Clone, Copy)]
pub struct MqttSettings {
    number_of_devices: u8,
    broadcast_to: BroadCastTo,
    priority: MessagePriority,
}

impl View for MqttSettings {
    type V = SettingsView;

    closed spec fn view(&self) -> SettingsView {
        SettingsView {
            number_of_devices: self.number_of_devices,
            broadcast_to: self.broadcast_to,
            priority: self.priority,
        }
    }
}

/// The position a recipient choice designates; "everyone" is the position
/// just past the known devices.
pub open spec fn recipient_index(s: SettingsView) -> u8 {
    match s.broadcast_to {
        BroadCastTo::AllRecipients => s.number_of_devices,
        BroadCastTo::SelectedRecipient(x) => x,
    }
}

impl Default for MqttSettings {
    fn default() -> (r: Self)
        ensures
            r@ == (SettingsView {
                number_of_devices: 0,
                broadcast_to: BroadCastTo::SelectedRecipient(0),
                priority: MessagePriority::Medium,
            }),
    {
        MqttSettings {
            number_of_devices: 0,
            broadcast_to: BroadCastTo::default(),
            priority: MessagePriority::default(),
        }
    }
}

impl MqttSettings {
    /// Moves the choice to the next recipient.
    pub fn select_next_recipient(&mut self)
        requires
            next_recipient_defined(old(self)@.broadcast_to, old(self)@.number_of_devices),
        ensures
            final(self)@ == (SettingsView {
                broadcast_to: next_recipient_spec(
                    old(self)@.broadcast_to,
                    old(self)@.number_of_devices,
                ),
                ..old(self)@
            }),
    {
        self.broadcast_to = self.broadcast_to.next_recipient(self.number_of_devices);
    }

    /// The position of the chosen recipient, or the number of devices when
    /// everyone is chosen.
    pub fn selected_recipient(&self) -> (r: u8)
        ensures
            r == recipient_index(self@),
    {
        match self.broadcast_to {
            BroadCastTo::AllRecipients => self.number_of_devices,
            BroadCastTo::SelectedRecipient(x) => x,
        }
    }

    /// Records how many devices are known.
    pub fn set_number_of_devices(&mut self, num: u8)
        ensures
            final(self)@ == (SettingsView { number_of_devices: num, ..old(self)@ }),
    {
        self.number_of_devices = num;
    }

    /// How many devices are known.
    pub fn number_of_devices(&self) -> (r: u8)
        ensures
            r == self@.number_of_devices,
    {
        self.number_of_devices
    }

    /// The current recipient choice.
    pub fn broadcast_to(&self) -> (r: BroadCastTo)
        ensures
            r == self@.broadcast_to,
    {
        self.broadcast_to
    }

    /// The priority of alerts.
    pub fn priority(&self) -> (r: MessagePriority)
        ensures
            r == self@.priority,
    {
        self.priority
    }
}

} // verus!
