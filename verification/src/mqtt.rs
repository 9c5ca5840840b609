//! The messages that devices exchange through the broker: alerts sent to
//! one device or to all, and presence pings.
//!
//! An alert payload reads `to=<device>;from=<device>;severity=<priority>`;
//! a ping payload reads `<kind>=<device>`.

use vstd::prelude::*;
use vstd::utf8::*;
use crate::settings::{MessagePriority, priority_text, priority_from_text};
use crate::text::{
    STRING_SIZE,
    text_chars,
    utf8_len,
    fits,
    split_once,
    split_all,
    lemma_utf8_len_concat,
    text_new,
    text_push_str,
    text_as_str,
    text_clone,
    utf8_text,
    chars_of,
    split_once_str,
    str_eq,
};

verus! {

/// What an alert holds.
pub struct AlertView {
    pub to_device: Seq<char>,
    pub from_device: Seq<char>,
    pub priority: MessagePriority,
}

/// An alert from one device to another (or to everyone, as `"all"`).
#[derive(Debug)]
pub struct AlertMessage {
    to_device: heapless::String<STRING_SIZE>,
    from_device: heapless::String<STRING_SIZE>,
    priority: MessagePriority,
}

impl View for AlertMessage {
    type V = AlertView;

    closed spec fn view(&self) -> AlertView {
        AlertView {
            to_device: text_chars(self.to_device),
            from_device: text_chars(self.from_device),
            priority: self.priority,
        }
    }
}

impl Clone for AlertMessage {
    fn clone(&self) -> (r: Self)
        ensures
            r@ == self@,
    {
        AlertMessage {
            to_device: text_clone(&self.to_device),
            from_device: text_clone(&self.from_device),
            priority: self.priority,
        }
    }
}

/// The payload text of an alert.
pub open spec fn alert_payload_text(v: AlertView) -> Seq<char> {
    "to="@ + v.to_device + ";from="@ + v.from_device + ";severity="@ + priority_text(v.priority)
}

/// One `key=value` parameter of an alert payload, when it has an `=` and
/// both sides fit in a bounded string.
pub open spec fn parse_param(piece: Seq<char>) -> Option<(Seq<char>, Seq<char>)> {
    match split_once(piece, '=') {
        Some((k, v)) => if fits(k) && fits(v) {
            Some((k, v))
        } else {
            None
        },
        None => None,
    }
}

/// The parameters of an alert payload: one per `;`-separated piece.
pub open spec fn alert_params(text: Seq<char>) -> Seq<Option<(Seq<char>, Seq<char>)>> {
    split_all(text, ';').map_values(|p: Seq<char>| parse_param(p))
}

/// The value side of a parameter.
pub open spec fn param_value(p: Option<(Seq<char>, Seq<char>)>) -> Seq<char> {
    match p {
        Some((_k, v)) => v,
        None => Seq::<char>::empty(),
    }
}

pub open spec fn all_params_present(ps: Seq<Option<(Seq<char>, Seq<char>)>>) -> bool {
    forall|i: int| 0 <= i < ps.len() ==> #[trigger] ps[i] is Some
}

/// The alert that a payload text describes: three parameters, read by
/// position (their keys are not looked at), the third naming the priority.
pub open spec fn alert_from_text(text: Seq<char>) -> Option<AlertView> {
    let ps = alert_params(text);
    if ps.len() == 3 && all_params_present(ps) {
        Some(
            AlertView {
                to_device: param_value(ps[0]),
                from_device: param_value(ps[1]),
                priority: priority_from_text(param_value(ps[2])),
            },
        )
    } else {
        None
    }
}

/// Payload texts on which the parameter list overflows its three places,
/// or has fewer than three places that are all read.
pub open spec fn alert_text_overflows(text: Seq<char>) -> bool {
    let ps = alert_params(text);
    ps.len() > 3 || (ps.len() < 3 && all_params_present(ps))
}

/// Payload bytes that a device cannot take as an alert without failing.
pub open spec fn alert_bytes_overflow(bytes: Seq<u8>) -> bool {
    valid_utf8(bytes) && alert_text_overflows(decode_utf8(bytes))
}

/// The alert that payload bytes describe.
pub open spec fn alert_from_bytes(bytes: Seq<u8>) -> Option<AlertView> {
    if valid_utf8(bytes) {
        alert_from_text(decode_utf8(bytes))
    } else {
        None
    }
}

pub open spec fn param_view(p: Option<(heapless::String<STRING_SIZE>, heapless::String<STRING_SIZE>)>) -> Option<
    (Seq<char>, Seq<char>),
> {
    match p {
        Some((k, v)) => Some((text_chars(k), text_chars(v))),
        None => None,
    }
}

pub open spec fn alert_option_view(r: Option<AlertMessage>) -> Option<AlertView> {
    match r {
        Some(m) => Some(m@),
        None => None,
    }
}

/// Reads one `key=value` parameter.
fn read_param(piece: &str) -> (r: Option<(heapless::String<STRING_SIZE>, heapless::String<STRING_SIZE>)>)
    ensures
        param_view(r) == parse_param(piece@),
{
    match split_once_str(piece, '=') {
        None => None,
        Some((k_1, v_1)) => {
            let mut k = text_new();
            let mut v = text_new();
            match text_push_str(&mut k, k_1) {
                Ok(()) => {},
                Err(()) => {
                    return None;
                },
            }
            match text_push_str(&mut v, v_1) {
                Ok(()) => {},
                Err(()) => {
                    return None;
                },
            }
            Some((k, v))
        },
    }
}

impl AlertMessage {
    /// A new alert to `to_device`, from this device, named `own_name`.
    pub fn new_alert(
        to_device: heapless::String<STRING_SIZE>,
        priority: MessagePriority,
        own_name: &str,
    ) -> (r: Self)
        requires
            fits(own_name@),
        ensures
            r@ == (AlertView { to_device: text_chars(to_device), from_device: own_name@, priority }),
    {
        let mut from_device = text_new();
        let _pushed = text_push_str(&mut from_device, own_name);
        assert(text_chars(from_device) =~= own_name@);
        AlertMessage { to_device, from_device, priority }
    }

    /// The recipient of the alert.
    pub fn to_device(&self) -> (r: &heapless::String<STRING_SIZE>)
        ensures
            text_chars(*r) == self@.to_device,
    {
        &self.to_device
    }

    /// The sender of the alert.
    pub fn from_device(&self) -> (r: &heapless::String<STRING_SIZE>)
        ensures
            text_chars(*r) == self@.from_device,
    {
        &self.from_device
    }

    /// The priority of the alert.
    pub fn priority(&self) -> (r: MessagePriority)
        ensures
            r == self@.priority,
    {
        self.priority
    }

    /// The payload that carries this alert.
    pub fn payload(&self) -> (r: heapless::String<STRING_SIZE>)
        requires
            fits(alert_payload_text(self@)),
        ensures
            text_chars(r) == alert_payload_text(self@),
    {
        let ghost p1 = "to="@;
        let ghost p2 = p1 + self@.to_device;
        let ghost p3 = p2 + ";from="@;
        let ghost p4 = p3 + self@.from_device;
        let ghost p5 = p4 + ";severity="@;
        proof {
            lemma_utf8_len_concat(p5, priority_text(self@.priority));
            lemma_utf8_len_concat(p4, ";severity="@);
            lemma_utf8_len_concat(p3, self@.from_device);
            lemma_utf8_len_concat(p2, ";from="@);
            lemma_utf8_len_concat(p1, self@.to_device);
            lemma_utf8_len_concat(Seq::<char>::empty(), p1);
            assert(Seq::<char>::empty() + p1 =~= p1);
        }
        let mut message = text_new();
        let _pushed = text_push_str(&mut message, "to=");
        let _pushed = text_push_str(&mut message, text_as_str(&self.to_device));
        let _pushed = text_push_str(&mut message, ";from=");
        let _pushed = text_push_str(&mut message, text_as_str(&self.from_device));
        let _pushed = text_push_str(&mut message, ";severity=");
        let _pushed = text_push_str(&mut message, self.priority.as_str());
        assert(text_chars(message) =~= alert_payload_text(self@));
        message
    }

    /// Reads an alert from payload bytes: `None` when they are not UTF-8,
    /// or when a parameter lacks its `=` or does not fit.
    pub fn try_new(payload: &[u8]) -> (r: Option<Self>)
        requires
            !alert_bytes_overflow(payload@),
        ensures
            alert_option_view(r) == alert_from_bytes(payload@),
    {
        let msg = match utf8_text(payload) {
            Some(m) => m,
            None => {
                return None;
            },
        };
        let mut params = get_params(msg);
        let ghost ps = alert_params(msg@);
        assert(alert_from_bytes(payload@) == alert_from_text(msg@));
        let mut j: usize = 0;
        while j < params.len()
            invariant
                j <= params.len(),
                ps == alert_params(msg@),
                alert_from_bytes(payload@) == alert_from_text(msg@),
                params@.len() == ps.len(),
                forall|i: int| 0 <= i < ps.len() ==> param_view(#[trigger] params@[i]) == ps[i],
                forall|i: int| 0 <= i < j ==> #[trigger] ps[i] is Some,
            decreases params.len() - j,
        {
            if params[j].is_none() {
                assert(ps[j as int] is None);
                assert(!all_params_present(ps));
                assert(alert_from_text(msg@) is None);
                return None;
            }
            assert(param_view(params@[j as int]) == ps[j as int]);
            j = j + 1;
        }
        assert(all_params_present(ps));
        assert(params@.len() == 3);
        assert(param_view(params@[0]) == ps[0]);
        assert(param_view(params@[1]) == ps[1]);
        assert(param_view(params@[2]) == ps[2]);
        let third = params.pop();
        let second = params.pop();
        let first = params.pop();
        match (first, second, third) {
            (Some(Some((_k0, to_device))), Some(Some((_k1, from_device))), Some(Some((_k2, severity)))) => {
                let priority = MessagePriority::new_from_str(text_as_str(&severity));
                Some(AlertMessage { to_device, from_device, priority })
            },
            _ => None,
        }
    }
}

/// Kind of presence message.
#[derive(Debug, Clone, Copy, PartialEq, Eq, Structural)]
pub enum PingType {
    Ping,
    Pong,
    Death,
}

/// The start of a ping payload of each kind, up to and including `=`.
pub open spec fn ping_prefix(t: PingType) -> Seq<char> {
    match t {
        PingType::Pong => "pong="@,
        PingType::Ping => "ping="@,
        PingType::Death => "death="@,
    }
}

impl PingType {
    /// The start of a payload of this kind.
    pub fn as_str(&self) -> (r: &str)
        ensures
            r@ == ping_prefix(*self),
    {
        match self {
            PingType::Pong => "pong=",
            PingType::Ping => "ping=",
            PingType::Death => "death=",
        }
    }
}

/// What a ping holds.
pub struct PingView {
    pub ping_type: PingType,
    pub device_name: Seq<char>,
}

/// A presence message: which device, and whether it asks who is there,
/// answers, or has left.
#[derive(Debug)]
pub struct PingMessage {
    pub ping_type: PingType,
    pub device_name: heapless::String<STRING_SIZE>,
}

impl View for PingMessage {
    type V = PingView;

    open spec fn view(&self) -> PingView {
        PingView { ping_type: self.ping_type, device_name: text_chars(self.device_name) }
    }
}

impl Clone for PingMessage {
    fn clone(&self) -> (r: Self)
        ensures
            r@ == self@,
    {
        PingMessage { ping_type: self.ping_type, device_name: text_clone(&self.device_name) }
    }
}

/// The ping that a payload text describes, as read by the device named
/// `own`: its own pings are ignored, and the kind word is `ping`, `pong`
/// or `dead`.
pub open spec fn ping_from_text(text: Seq<char>, own: Seq<char>) -> Option<PingView> {
    match split_once(text, '=') {
        None => None,
        Some((k, v)) => if v == own || !fits(v) {
            None
        } else if k == "ping"@ {
            Some(PingView { ping_type: PingType::Ping, device_name: v })
        } else if k == "pong"@ {
            Some(PingView { ping_type: PingType::Pong, device_name: v })
        } else if k == "dead"@ {
            Some(PingView { ping_type: PingType::Death, device_name: v })
        } else {
            None
        },
    }
}

/// The ping that payload bytes describe, as read by the device named `own`.
pub open spec fn ping_from_bytes(bytes: Seq<u8>, own: Seq<char>) -> Option<PingView> {
    if valid_utf8(bytes) {
        ping_from_text(decode_utf8(bytes), own)
    } else {
        None
    }
}

pub open spec fn ping_option_view(r: Option<PingMessage>) -> Option<PingView> {
    match r {
        Some(m) => Some(m@),
        None => None,
    }
}

/// The payload text of a ping sent by the device named `own`.
pub open spec fn ping_payload_text(t: PingType, own: Seq<char>) -> Seq<char> {
    ping_prefix(t) + own
}

impl PingMessage {
    /// A ping of the given kind from this device, named `own_name`.
    pub fn new_ping(ping_type: PingType, own_name: &str) -> (r: Self)
        requires
            fits(own_name@),
        ensures
            r@ == (PingView { ping_type, device_name: own_name@ }),
    {
        let mut device_name = text_new();
        let _pushed = text_push_str(&mut device_name, own_name);
        assert(text_chars(device_name) =~= own_name@);
        PingMessage { ping_type, device_name }
    }

    /// The payload of this ping as this device, named `own_name`, sends it:
    /// the name in it is always the sender's own.
    pub fn payload(&self, own_name: &str) -> (r: heapless::String<STRING_SIZE>)
        requires
            fits(ping_payload_text(self.ping_type, own_name@)),
        ensures
            text_chars(r) == ping_payload_text(self.ping_type, own_name@),
    {
        proof {
            lemma_utf8_len_concat(ping_prefix(self.ping_type), own_name@);
            lemma_utf8_len_concat(Seq::<char>::empty(), ping_prefix(self.ping_type));
            assert(Seq::<char>::empty() + ping_prefix(self.ping_type) =~= ping_prefix(
                self.ping_type,
            ));
        }
        let mut payload = text_new();
        let _pushed = text_push_str(&mut payload, self.ping_type.as_str());
        let _pushed = text_push_str(&mut payload, own_name);
        payload
    }

    /// Reads a ping from payload bytes, as the device named `own_name`:
    /// `None` when the bytes are not UTF-8, have no `=`, name an unknown
    /// kind, name this device itself, or name a device too long to hold.
    fn try_new(payload: &[u8], own_name: &str) -> (r: Option<Self>)
        ensures
            ping_option_view(r) == ping_from_bytes(payload@, own_name@),
    {
        let msg = match utf8_text(payload) {
            Some(m) => m,
            None => {
                return None;
            },
        };
        let (k, v) = match split_once_str(msg, '=') {
            Some(kv) => kv,
            None => {
                return None;
            },
        };
        if str_eq(v, own_name) {
            return None;
        }
        let mut device_name = text_new();
        let ping_type = if str_eq(k, "ping") {
            PingType::Ping
        } else if str_eq(k, "pong") {
            PingType::Pong
        } else if str_eq(k, "dead") {
            PingType::Death
        } else {
            return None;
        };
        match text_push_str(&mut device_name, v) {
            Ok(()) => {},
            Err(()) => {
                return None;
            },
        }
        assert(text_chars(device_name) =~= v@);
        Some(PingMessage { ping_type, device_name })
    }
}

/// The payload of the last-will message that the broker publishes when the
/// device named `own` drops off: `dead=<own>`.
pub open spec fn death_payload_text(own: Seq<char>) -> Seq<char> {
    "dead="@ + own
}

/// The last-will payload of the device named `own_name`.
pub fn death_payload(own_name: &str) -> (r: heapless::String<STRING_SIZE>)
    requires
        fits(death_payload_text(own_name@)),
    ensures
        text_chars(r) == death_payload_text(own_name@),
{
    proof {
        lemma_utf8_len_concat("dead="@, own_name@);
        lemma_utf8_len_concat(Seq::<char>::empty(), "dead="@);
        assert(Seq::<char>::empty() + "dead="@ =~= "dead="@);
    }
    let mut payload = text_new();
    let _pushed = text_push_str(&mut payload, "dead=");
    let _pushed = text_push_str(&mut payload, own_name);
    payload
}

/// The topic on which alerts travel.
pub open spec fn inbox_topic() -> Seq<char> {
    "magneporc/devices/inbox"@
}

/// The topic on which pings travel.
pub open spec fn ping_topic() -> Seq<char> {
    "magneporc/devices/ping"@
}

/// Number of topics a device subscribes to.
pub const MQTT_SUB_TOPICS_SIZE: usize = 2;

/// The topics a device subscribes to: pings, then alerts.
pub fn mqtt_sub_topics() -> (r: [&'static str; MQTT_SUB_TOPICS_SIZE])
    ensures
        r@[0]@ == ping_topic(),
        r@[1]@ == inbox_topic(),
{
    ["magneporc/devices/ping", "magneporc/devices/inbox"]
}

/// What a message holds.
pub enum MqttMessageView {
    Alert(AlertView),
    Ping(PingView),
}

/// A message exchanged through the broker.
#[derive(Debug)]
pub enum MqttMessage {
    AlertMessage(AlertMessage),
    PingMessage(PingMessage),
}

impl View for MqttMessage {
    type V = MqttMessageView;

    open spec fn view(&self) -> MqttMessageView {
        match self {
            MqttMessage::AlertMessage(a) => MqttMessageView::Alert(a@),
            MqttMessage::PingMessage(p) => MqttMessageView::Ping(p@),
        }
    }
}

impl Clone for MqttMessage {
    fn clone(&self) -> (r: Self)
        ensures
            r@ == self@,
    {
        match self {
            MqttMessage::AlertMessage(a) => MqttMessage::AlertMessage(a.clone()),
            MqttMessage::PingMessage(p) => MqttMessage::PingMessage(p.clone()),
        }
    }
}

/// The message that arrives on `topic` with payload `bytes`, as read by
/// the device named `own`.
pub open spec fn message_from(topic: Seq<char>, bytes: Seq<u8>, own: Seq<char>) -> Option<
    MqttMessageView,
> {
    if topic == inbox_topic() {
        match alert_from_bytes(bytes) {
            Some(a) => Some(MqttMessageView::Alert(a)),
            None => None,
        }
    } else if topic == ping_topic() {
        match ping_from_bytes(bytes, own) {
            Some(p) => Some(MqttMessageView::Ping(p)),
            None => None,
        }
    } else {
        None
    }
}

/// Arrivals that a device cannot read without failing: alert payloads
/// whose parameter list overflows.
pub open spec fn message_overflows(topic: Seq<char>, bytes: Seq<u8>) -> bool {
    topic == inbox_topic() && alert_bytes_overflow(bytes)
}

pub open spec fn message_option_view(r: Option<MqttMessage>) -> Option<MqttMessageView> {
    match r {
        Some(m) => Some(m@),
        None => None,
    }
}

/// The topic of a message.
pub open spec fn message_topic(m: MqttMessageView) -> Seq<char> {
    match m {
        MqttMessageView::Alert(_) => inbox_topic(),
        MqttMessageView::Ping(_) => ping_topic(),
    }
}

/// The payload text of a message sent by the device named `own`.
pub open spec fn message_payload_text(m: MqttMessageView, own: Seq<char>) -> Seq<char> {
    match m {
        MqttMessageView::Alert(a) => alert_payload_text(a),
        MqttMessageView::Ping(p) => ping_payload_text(p.ping_type, own),
    }
}

impl MqttMessage {
    /// Reads a message that arrived on `topic`, as the device named
    /// `own_name`; `None` for any other topic and for payloads that do not
    /// read.
    pub fn try_new(topic: &str, payload: &[u8], own_name: &str) -> (r: Option<Self>)
        requires
            !message_overflows(topic@, payload@),
        ensures
            message_option_view(r) == message_from(topic@, payload@, own_name@),
    {
        if str_eq(topic, "magneporc/devices/inbox") {
            match AlertMessage::try_new(payload) {
                Some(a) => Some(MqttMessage::AlertMessage(a)),
                None => None,
            }
        } else if str_eq(topic, "magneporc/devices/ping") {
            match PingMessage::try_new(payload, own_name) {
                Some(p) => Some(MqttMessage::PingMessage(p)),
                None => None,
            }
        } else {
            None
        }
    }

    /// The topic on which the message travels.
    pub fn topic(&self) -> (r: &str)
        ensures
            r@ == message_topic(self@),
    {
        match self {
            MqttMessage::AlertMessage(_) => "magneporc/devices/inbox",
            MqttMessage::PingMessage(_) => "magneporc/devices/ping",
        }
    }

    /// The payload of the message as the device named `own_name` sends it.
    pub fn payload(&self, own_name: &str) -> (r: heapless::String<STRING_SIZE>)
        requires
            fits(message_payload_text(self@, own_name@)),
        ensures
            text_chars(r) == message_payload_text(self@, own_name@),
    {
        match self {
            MqttMessage::PingMessage(x) => x.payload(own_name),
            MqttMessage::AlertMessage(x) => x.payload(),
        }
    }
}

/// Whether the device fails on payload bytes read as an alert: they are
/// UTF-8 and their parameter list overflows.
pub fn alert_overflows(payload: &[u8]) -> (r: bool)
    ensures
        r == alert_bytes_overflow(payload@),
{
    let msg = match utf8_text(payload) {
        Some(m) => m,
        None => {
            return false;
        },
    };
    let params = get_params(msg);
    let ghost ps = alert_params(msg@);
    let n = params.len();
    if n > 3 {
        return true;
    }
    if n == 3 {
        return false;
    }
    let mut j: usize = 0;
    while j < n
        invariant
            n == params@.len(),
            n < 3,
            j <= n,
            ps == alert_params(msg@),
            alert_bytes_overflow(payload@) == alert_text_overflows(msg@),
            params@.len() == ps.len(),
            forall|i: int| 0 <= i < ps.len() ==> param_view(#[trigger] params@[i]) == ps[i],
            forall|i: int| 0 <= i < j ==> #[trigger] ps[i] is Some,
        decreases n - j,
    {
        if params[j].is_none() {
            assert(ps[j as int] is None);
            return false;
        }
        assert(param_view(params@[j as int]) == ps[j as int]);
        j = j + 1;
    }
    assert(all_params_present(ps));
    true
}

/// Whether the device fails on a message that arrived on `topic` with
/// these payload bytes.
pub fn message_overflows_at(topic: &str, payload: &[u8]) -> (r: bool)
    ensures
        r == message_overflows(topic@, payload@),
{
    str_eq(topic, "magneporc/devices/inbox") && alert_overflows(payload)
}

/// `t` fits, and `t` after `prefix` fits too, given the UTF-8 length of
/// the prefix.
fn fits_after(prefix_len: usize, t: &str) -> (r: bool)
    requires
        prefix_len <= STRING_SIZE,
    ensures
        r == (prefix_len + utf8_len(t@) <= STRING_SIZE),
{
    t.as_bytes().len() <= STRING_SIZE - prefix_len
}

impl MqttMessage {
    /// Whether the payload of this message, sent by the device named
    /// `own_name`, fits in a bounded string.
    pub fn payload_fits(&self, own_name: &str) -> (r: bool)
        ensures
            r == fits(message_payload_text(self@, own_name@)),
    {
        match self {
            MqttMessage::AlertMessage(a) => {
                let ghost v = a@;
                let ghost p1 = "to="@;
                let ghost p2 = p1 + v.to_device;
                let ghost p3 = p2 + ";from="@;
                let ghost p4 = p3 + v.from_device;
                let ghost p5 = p4 + ";severity="@;
                proof {
                    reveal_strlit("to=");
                    reveal_strlit(";from=");
                    reveal_strlit(";severity=");
                    assert(vstd::utf8::is_ascii_chars(p1));
                    assert(vstd::utf8::is_ascii_chars(";from="@));
                    assert(vstd::utf8::is_ascii_chars(";severity="@));
                    crate::text::lemma_utf8_len_ascii(p1);
                    crate::text::lemma_utf8_len_ascii(";from="@);
                    crate::text::lemma_utf8_len_ascii(";severity="@);
                    lemma_utf8_len_concat(p5, priority_text(v.priority));
                    lemma_utf8_len_concat(p4, ";severity="@);
                    lemma_utf8_len_concat(p3, v.from_device);
                    lemma_utf8_len_concat(p2, ";from="@);
                    lemma_utf8_len_concat(p1, v.to_device);
                }
                let to = text_as_str(&a.to_device);
                if !fits_after(3, to) {
                    return false;
                }
                let used = 3 + to.as_bytes().len() + 6;
                if used > STRING_SIZE || !fits_after(used, text_as_str(&a.from_device)) {
                    return false;
                }
                let used = used + text_as_str(&a.from_device).as_bytes().len() + 10;
                if used > STRING_SIZE {
                    return false;
                }
                fits_after(used, a.priority.as_str())
            },
            MqttMessage::PingMessage(p) => {
                proof {
                    lemma_utf8_len_concat(ping_prefix(p.ping_type), own_name@);
                }
                let prefix = p.ping_type.as_str().as_bytes().len();
                if prefix > STRING_SIZE {
                    return false;
                }
                fits_after(prefix, own_name)
            },
        }
    }
}

/// Splits an alert payload into its parameters, one per `;`-separated
/// piece.
fn get_params(msg: &str) -> (r: Vec<Option<(heapless::String<STRING_SIZE>, heapless::String<STRING_SIZE>)>>)
    ensures
        r@.len() == alert_params(msg@).len(),
        forall|i: int|
            0 <= i < r@.len() ==> param_view(#[trigger] r@[i]) == alert_params(msg@)[i],
{
    let cs = chars_of(msg);
    let n = cs.len();
    let mut params: Vec<Option<(heapless::String<STRING_SIZE>, heapless::String<STRING_SIZE>)>> =
        Vec::new();
    let mut start: usize = 0;
    let mut i: usize = 0;
    let ghost mut done: Seq<Seq<char>> = Seq::empty();
    assert(msg@.take(0) =~= Seq::<char>::empty());
    assert(msg@.subrange(0, 0) =~= Seq::<char>::empty());
    while i < n
        invariant
            cs@ == msg@,
            n == cs.len(),
            start <= i <= n,
            split_all(msg@.take(i as int), ';') == done.push(msg@.subrange(start as int, i as int)),
            params@.len() == done.len(),
            forall|j: int|
                0 <= j < done.len() ==> param_view(#[trigger] params@[j]) == parse_param(done[j]),
        decreases n - i,
    {
        let ghost old_done = done;
        let ghost old_start = start;
        assert(msg@.take(i + 1).drop_last() =~= msg@.take(i as int));
        assert(msg@.take(i + 1).last() == msg@[i as int]);
        if cs[i] == ';' {
            let piece = msg.substring_char(start, i);
            let p = read_param(piece);
            params.push(p);
            proof {
                done = done.push(msg@.subrange(start as int, i as int));
            }
            start = i + 1;
            assert(msg@.subrange(start as int, i + 1) =~= Seq::<char>::empty());
            assert(split_all(msg@.take(i + 1), ';') =~= done.push(
                msg@.subrange(start as int, i + 1),
            ));
        } else {
            assert(msg@.subrange(start as int, i as int).push(msg@[i as int]) =~= msg@.subrange(
                start as int,
                i + 1,
            ));
            assert(split_all(msg@.take(i + 1), ';') =~= done.push(
                msg@.subrange(start as int, i + 1),
            ));
        }
        i = i + 1;
    }
    let piece = msg.substring_char(start, n);
    let p = read_param(piece);
    params.push(p);
    proof {
        done = done.push(msg@.subrange(start as int, n as int));
        assert(msg@.take(n as int) =~= msg@);
        assert(split_all(msg@, ';') == done);
    }
    params
}

} // verus!
