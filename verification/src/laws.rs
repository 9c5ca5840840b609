//! Properties of the device that span several functions: what a reader
//! makes of what a writer wrote, what the state keeps, and how the
//! recipient choice cycles.

use vstd::prelude::*;
use vstd::utf8::{encode_utf8, is_ascii_chars, encode_utf8_decode_utf8, encode_utf8_valid_utf8};
use crate::text::{
    fits,
    split_once,
    split_all,
    first_index,
    lemma_first_index_at,
    lemma_utf8_len_concat,
    lemma_utf8_len_ascii,
    lemma_split_all_single,
    lemma_split_all_append_piece,
};
use crate::settings::{
    MessagePriority,
    BroadCastTo,
    SettingsView,
    priority_text,
    priority_from_text,
    next_recipient_spec,
    next_recipient_defined,
    recipient_index,
};
use crate::lists::{MAX_DEVICES, GLOBAL_MAX_ITEMS};
use crate::screen::{CurrentScreen, shown_rows};
use crate::events::EventsView;
use crate::state::{
    AppStateView,
    known_devices,
    shown_screen,
    chosen_index,
    selected_name,
    added,
    removed,
    after_select,
    after_event,
    with_next_recipient,
    message_to_send,
    screen_items,
};
use crate::mqtt::{
    AlertView,
    PingType,
    PingView,
    MqttMessageView,
    alert_payload_text,
    parse_param,
    alert_params,
    alert_from_bytes,
    alert_bytes_overflow,
    all_params_present,
    ping_prefix,
    ping_payload_text,
    ping_from_bytes,
    death_payload_text,
    message_from,
    message_topic,
    message_payload_text,
    inbox_topic,
    ping_topic,
};

verus! {

/// Reading back the word written for a priority gives that priority.
pub proof fn law_priority_round_trip(p: MessagePriority)
    ensures
        priority_from_text(priority_text(p)) == p,
{
    reveal_strlit("low");
    reveal_strlit("medium");
    reveal_strlit("high");
    assert("low"@.len() == 3 && "medium"@.len() == 6 && "high"@.len() == 4);
}

proof fn lemma_no_char_concat(x: Seq<char>, y: Seq<char>, c: char)
    requires
        !x.contains(c),
        !y.contains(c),
    ensures
        !(x + y).contains(c),
{
    if (x + y).contains(c) {
        let k = choose|k: int| 0 <= k < (x + y).len() && (x + y)[k] == c;
        if k < x.len() {
            assert(x[k] == c);
        } else {
            assert(y[k - x.len()] == c);
        }
    }
}

proof fn lemma_ascii_no_char(lit: Seq<char>, c: char)
    requires
        forall|j: int| 0 <= j < lit.len() ==> lit[j] != c,
    ensures
        !lit.contains(c),
{
}

/// A `key=` literal followed by a value splits at its own `=`.
proof fn lemma_key_value(lit: Seq<char>, val: Seq<char>)
    requires
        lit.len() >= 1,
        lit.last() == '=',
        is_ascii_chars(lit),
        lit.len() <= 10,
        forall|j: int| 0 <= j < lit.len() - 1 ==> lit[j] != '=',
    ensures
        split_once(lit + val, '=') == Some((lit.drop_last(), val)),
        fits(lit.drop_last()),
{
    let s = lit + val;
    let i = lit.len() - 1;
    lemma_first_index_at(s, '=', i);
    assert(s.take(i) =~= lit.drop_last());
    assert(s.skip(i + 1) =~= val);
    assert(is_ascii_chars(lit.drop_last()));
    lemma_utf8_len_ascii(lit.drop_last());
}

/// An alert whose names have no `;` and whose payload fits is read back,
/// from the bytes of its payload, as the same alert; and those bytes do
/// not overflow the reader.
pub proof fn law_alert_round_trip(v: AlertView)
    requires
        !v.to_device.contains(';'),
        !v.from_device.contains(';'),
        fits(alert_payload_text(v)),
    ensures
        alert_from_bytes(encode_utf8(alert_payload_text(v))) == Some(v),
        !alert_bytes_overflow(encode_utf8(alert_payload_text(v))),
{
    let t = v.to_device;
    let f = v.from_device;
    let p = priority_text(v.priority);
    let text = alert_payload_text(v);
    reveal_strlit("to=");
    reveal_strlit(";from=");
    reveal_strlit(";severity=");
    reveal_strlit("from=");
    reveal_strlit("severity=");
    reveal_strlit("low");
    reveal_strlit("medium");
    reveal_strlit("high");
    encode_utf8_decode_utf8(text);
    encode_utf8_valid_utf8(text);
    assert(";from="@ =~= seq![';'] + "from="@);
    assert(";severity="@ =~= seq![';'] + "severity="@);
    let a = "to="@ + t;
    let b = "from="@ + f;
    let c = "severity="@ + p;
    assert(text =~= (a.push(';') + b).push(';') + c);
    // each piece is free of `;`
    lemma_ascii_no_char("to="@, ';');
    lemma_ascii_no_char("from="@, ';');
    lemma_ascii_no_char("severity="@, ';');
    assert(!p.contains(';')) by {
        match v.priority {
            MessagePriority::Low => lemma_ascii_no_char("low"@, ';'),
            MessagePriority::Medium => lemma_ascii_no_char("medium"@, ';'),
            MessagePriority::High => lemma_ascii_no_char("high"@, ';'),
        }
    }
    lemma_no_char_concat("to="@, t, ';');
    lemma_no_char_concat("from="@, f, ';');
    lemma_no_char_concat("severity="@, p, ';');
    lemma_split_all_single(a, ';');
    lemma_split_all_append_piece(a, b, ';');
    lemma_split_all_append_piece(a.push(';') + b, c, ';');
    assert(split_all(text, ';') =~= seq![a, b, c]);
    // the names fit: each is part of the payload
    let q1 = "to="@ + t;
    let q2 = q1 + ";from="@;
    let q3 = q2 + f;
    let q4 = q3 + ";severity="@;
    lemma_utf8_len_concat("to="@, t);
    lemma_utf8_len_concat(q1, ";from="@);
    lemma_utf8_len_concat(q2, f);
    lemma_utf8_len_concat(q3, ";severity="@);
    lemma_utf8_len_concat(q4, p);
    assert(fits(t));
    assert(fits(f));
    assert(fits(p));
    // each piece reads as its key and value
    lemma_key_value("to="@, t);
    lemma_key_value("from="@, f);
    lemma_key_value("severity="@, p);
    let ps = alert_params(text);
    assert(ps.len() == 3);
    assert(ps[0] == parse_param(a));
    assert(ps[1] == parse_param(b));
    assert(ps[2] == parse_param(c));
    assert(ps[0] == Some(("to="@.drop_last(), t)));
    assert(ps[1] == Some(("from="@.drop_last(), f)));
    assert(ps[2] == Some(("severity="@.drop_last(), p)));
    assert(all_params_present(ps));
    law_priority_round_trip(v.priority);
}

/// A ping, pong or death notice is read by another device as what was
/// sent, when the sender's name fits: the death notice here is the one
/// the broker publishes as the sender's last will.
pub proof fn law_ping_round_trip(t: PingType, sender: Seq<char>, receiver: Seq<char>)
    requires
        sender != receiver,
        fits(sender),
    ensures
        t != PingType::Death ==> ping_from_bytes(encode_utf8(ping_payload_text(t, sender)), receiver)
            == Some(PingView { ping_type: t, device_name: sender }),
        ping_from_bytes(encode_utf8(death_payload_text(sender)), receiver) == Some(
            PingView { ping_type: PingType::Death, device_name: sender },
        ),
{
    reveal_strlit("ping=");
    reveal_strlit("pong=");
    reveal_strlit("dead=");
    reveal_strlit("ping");
    reveal_strlit("pong");
    reveal_strlit("dead");
    let d = death_payload_text(sender);
    encode_utf8_decode_utf8(d);
    encode_utf8_valid_utf8(d);
    lemma_key_value("dead="@, sender);
    assert("dead="@.drop_last() =~= "dead"@);
    if t != PingType::Death {
        let text = ping_payload_text(t, sender);
        encode_utf8_decode_utf8(text);
        encode_utf8_valid_utf8(text);
        if t == PingType::Ping {
            lemma_key_value("ping="@, sender);
            assert("ping="@.drop_last() =~= "ping"@);
        } else {
            lemma_key_value("pong="@, sender);
            assert("pong="@.drop_last() =~= "pong"@);
            assert("pong"@[1] != "ping"@[1]);
        }
    }
}

/// A device never takes in a ping of its own, of any kind.
pub proof fn law_own_ping_ignored(t: PingType, own: Seq<char>)
    ensures
        ping_from_bytes(encode_utf8(ping_payload_text(t, own)), own) is None,
        ping_from_bytes(encode_utf8(death_payload_text(own)), own) is None,
{
    reveal_strlit("ping=");
    reveal_strlit("pong=");
    reveal_strlit("death=");
    reveal_strlit("dead=");
    let d = death_payload_text(own);
    encode_utf8_decode_utf8(d);
    encode_utf8_valid_utf8(d);
    lemma_key_value("dead="@, own);
    let text = ping_payload_text(t, own);
    encode_utf8_decode_utf8(text);
    encode_utf8_valid_utf8(text);
    lemma_key_value(ping_prefix(t), own);
}

/// What one device sends as an alert, another reads, from the topic and
/// the payload bytes, as the same message.
pub proof fn law_alert_message_round_trip(v: AlertView, receiver: Seq<char>)
    requires
        !v.to_device.contains(';'),
        !v.from_device.contains(';'),
        fits(alert_payload_text(v)),
    ensures
        message_from(
            message_topic(MqttMessageView::Alert(v)),
            encode_utf8(message_payload_text(MqttMessageView::Alert(v), receiver)),
            receiver,
        ) == Some(MqttMessageView::Alert(v)),
{
    law_alert_round_trip(v);
}

/// What one device sends as a ping or pong, another reads, from the topic
/// and the payload bytes, as the same message.
pub proof fn law_ping_message_round_trip(t: PingType, sender: Seq<char>, receiver: Seq<char>)
    requires
        t != PingType::Death,
        sender != receiver,
        fits(sender),
    ensures
        message_from(
            message_topic(MqttMessageView::Ping(PingView { ping_type: t, device_name: sender })),
            encode_utf8(
                message_payload_text(
                    MqttMessageView::Ping(PingView { ping_type: t, device_name: sender }),
                    sender,
                ),
            ),
            receiver,
        ) == Some(MqttMessageView::Ping(PingView { ping_type: t, device_name: sender })),
{
    reveal_strlit("magneporc/devices/inbox");
    reveal_strlit("magneporc/devices/ping");
    assert(inbox_topic().len() != ping_topic().len());
    law_ping_round_trip(t, sender, receiver);
}

/// The recipient choice `k` presses of the select button after `b`, with
/// `n` devices known.
pub open spec fn advance(b: BroadCastTo, n: u8, k: nat) -> BroadCastTo
    decreases k,
{
    if k == 0 {
        b
    } else {
        advance(next_recipient_spec(b, n), n, (k - 1) as nat)
    }
}

/// A recipient choice that names a known position, or everyone.
pub open spec fn recipient_in_range(b: BroadCastTo, n: u8) -> bool {
    match b {
        BroadCastTo::AllRecipients => true,
        BroadCastTo::SelectedRecipient(r) => r < n,
    }
}

/// With at least one device known, a choice in range can always move on,
/// stays in range, and designates a position no further than "everyone".
pub proof fn law_next_recipient_in_range(b: BroadCastTo, n: u8)
    requires
        n >= 1,
        recipient_in_range(b, n),
    ensures
        next_recipient_defined(b, n),
        recipient_in_range(next_recipient_spec(b, n), n),
        recipient_index(
            SettingsView {
                number_of_devices: n,
                broadcast_to: next_recipient_spec(b, n),
                priority: MessagePriority::Medium,
            },
        ) <= n,
{
}

proof fn lemma_advance_add(b: BroadCastTo, n: u8, a: nat, c: nat)
    ensures
        advance(b, n, a + c) == advance(advance(b, n, a), n, c),
    decreases a,
{
    if a > 0 {
        lemma_advance_add(next_recipient_spec(b, n), n, (a - 1) as nat, c);
        assert((a + c - 1) as nat == ((a - 1) as nat + c) as nat);
    }
}

proof fn lemma_advance_selected(r: u8, n: u8, k: nat)
    requires
        r + k <= n - 1,
    ensures
        advance(BroadCastTo::SelectedRecipient(r), n, k) == BroadCastTo::SelectedRecipient(
            (r + k) as u8,
        ),
    decreases k,
{
    if k > 0 {
        lemma_advance_selected((r + 1) as u8, n, (k - 1) as nat);
    }
}

/// With `n` devices known, `n + 1` presses of the select button go through
/// every device and everyone once, and come back to the first choice.
pub proof fn law_recipient_cycle(b: BroadCastTo, n: u8)
    requires
        n >= 1,
        recipient_in_range(b, n),
    ensures
        advance(b, n, (n + 1) as nat) == b,
{
    reveal_with_fuel(advance, 3);
    match b {
        BroadCastTo::AllRecipients => {
            lemma_advance_add(b, n, 1, n as nat);
            lemma_advance_add(BroadCastTo::SelectedRecipient(0), n, (n - 1) as nat, 1);
            lemma_advance_selected(0, n, (n - 1) as nat);
            assert(advance(BroadCastTo::SelectedRecipient((n - 1) as u8), n, 1)
                == BroadCastTo::AllRecipients);
        },
        BroadCastTo::SelectedRecipient(r) => {
            let up = (n - 1 - r) as nat;
            lemma_advance_add(b, n, up, (r + 2) as nat);
            lemma_advance_selected(r, n, up);
            let top = BroadCastTo::SelectedRecipient((n - 1) as u8);
            lemma_advance_add(top, n, 2, r as nat);
            assert(advance(top, n, 2) == BroadCastTo::SelectedRecipient(0));
            lemma_advance_selected(0, n, r as nat);
            assert((up + (r + 2)) as nat == (n + 1) as nat);
        },
    }
}

pub open spec fn listed(d: Option<Seq<Seq<char>>>) -> Seq<Seq<char>> {
    match d {
        Some(s) => s,
        None => Seq::empty(),
    }
}

/// Hearing from a device lists it once: afterwards it is listed, unless
/// the list was full, and a list without repeats stays without repeats.
pub proof fn law_added(d: Option<Seq<Seq<char>>>, name: Seq<char>)
    requires
        listed(d).no_duplicates(),
    ensures
        listed(added(d, name)).no_duplicates(),
        listed(d).len() < MAX_DEVICES ==> listed(added(d, name)).contains(name),
        listed(d).contains(name) ==> added(d, name) == d,
{
    match d {
        Some(s) => {
            if !s.contains(name) && s.len() < MAX_DEVICES {
                let t = s.push(name);
                assert(t[s.len() as int] == name);
                assert forall|i: int, j: int|
                    0 <= i < t.len() && 0 <= j < t.len() && i != j implies t[i] != t[j] by {
                    if i == s.len() {
                        assert(t[j] == s[j]);
                        assert(s[j] != name);
                    } else if j == s.len() {
                        assert(t[i] == s[i]);
                        assert(s[i] != name);
                    }
                }
            }
        },
        None => {
            assert(seq![name][0] == name);
        },
    }
}

/// When a device leaves, a list without repeats no longer holds it, and
/// still has no repeats.
pub proof fn law_removed(d: Option<Seq<Seq<char>>>, name: Seq<char>)
    requires
        listed(d).no_duplicates(),
    ensures
        listed(removed(d, name)).no_duplicates(),
        !listed(removed(d, name)).contains(name),
{
    crate::text::lemma_first_index(listed(d), name);
    if let Some(s) = d {
        if let Some(i) = first_index(s, name) {
            let t = s.remove(i);
            assert forall|a: int, b: int|
                0 <= a < t.len() && 0 <= b < t.len() && a != b implies t[a] != t[b] by {
                let sa = if a < i { a } else { a + 1 };
                let sb = if b < i { b } else { b + 1 };
                assert(t[a] == s[sa]);
                assert(t[b] == s[sb]);
            }
            if t.contains(name) {
                let k = choose|k: int| 0 <= k < t.len() && t[k] == name;
                let sk = if k < i { k } else { k + 1 };
                assert(s[sk] == name);
            }
        }
    }
}

/// A new device heard from and then gone leaves the list as it was.
pub proof fn law_add_then_remove(d: Seq<Seq<char>>, name: Seq<char>)
    requires
        !d.contains(name),
        d.len() < MAX_DEVICES,
    ensures
        removed(added(Some(d), name), name) == Some(d),
{
    let t = d.push(name);
    assert forall|j: int| 0 <= j < d.len() implies t[j] != name by {
        assert(t[j] == d[j]);
    }
    lemma_first_index_at(t, name, d.len() as int);
    assert(t.remove(d.len() as int) =~= d);
}

/// A state with no repeated device keeps none, whatever event it handles.
pub proof fn law_event_keeps_devices_distinct(v: AppStateView, e: EventsView, own: Seq<char>)
    requires
        known_devices(v).no_duplicates(),
    ensures
        known_devices(after_event(v, e, own)).no_duplicates(),
{
    assert(listed(v.devices) == known_devices(v));
    law_added(v.devices, Seq::empty());
    match e {
        EventsView::MessageReceived(MqttMessageView::Ping(p)) => {
            law_added(v.devices, p.device_name);
            law_removed(v.devices, p.device_name);
            assert(known_devices(after_event(v, e, own)) == listed(after_event(v, e, own).devices));
        },
        _ => {},
    }
}

/// No event changes the screen that is up, nor takes the settings away.
pub proof fn law_event_keeps_screen(v: AppStateView, e: EventsView, own: Seq<char>)
    ensures
        after_event(v, e, own).screen == v.screen,
        v.mqtt_settings is Some ==> after_event(v, e, own).mqtt_settings is Some,
{
}

/// The send button, pressed after the select button on the messaging
/// screen, sends a medium alert from this device to the recipient that the
/// select button chose.
pub proof fn law_send_after_select(v: AppStateView, own: Seq<char>)
    requires
        shown_screen(v) == CurrentScreen::Messaging,
    ensures
        message_to_send(after_select(v, own)) == Some(
            MqttMessageView::Alert(
                AlertView {
                    to_device: selected_name(with_next_recipient(v)),
                    from_device: own,
                    priority: MessagePriority::Medium,
                },
            ),
        ),
{
}

/// The line at the chosen position of the screen list shows the chosen
/// recipient: its name, or "Tout le monde" when everyone is chosen.
pub proof fn law_highlighted_line(v: AppStateView)
    requires
        (chosen_index(v) as int) < GLOBAL_MAX_ITEMS,
        (chosen_index(v) as int) <= known_devices(v).len(),
    ensures
        (chosen_index(v) as int) < known_devices(v).len() ==> screen_items(v)[chosen_index(
            v,
        ) as int] == selected_name(v),
        (chosen_index(v) as int) == known_devices(v).len() ==> screen_items(v)[chosen_index(
            v,
        ) as int] == "Tout le monde"@,
{
}

/// Some line drawn for `count` items, with item `selected` chosen, shows
/// item `k`.
pub open spec fn item_drawn(selected: u8, count: int, k: int) -> bool {
    exists|j: int|
        0 <= j < shown_rows(selected, count).len() && shown_rows(selected, count)[j].index == k
}

/// The recipient list drawn for `count` items with item `selected` chosen
/// starts three items above the chosen one, or at the first item when the
/// chosen one is among the first three, and goes on, one line every 12
/// pixels from the top, to the last item; exactly the chosen item is
/// highlighted.
pub proof fn law_layout_rows(selected: u8, count: int)
    requires
        0 <= count <= 255,
    ensures
        ({
            let start: int = if selected >= 3 { selected - 3 } else { 0 };
            let rows = shown_rows(selected, count);
            &&& rows.len() == (if count > start { count - start } else { 0 })
            &&& forall|j: int|
                0 <= j < rows.len() ==> #[trigger] rows[j].index == start + j && rows[j].top == 1
                    + 12 * j && (rows[j].highlighted <==> start + j == selected)
        }),
        selected < 3 && count > 0 ==> shown_rows(selected, count)[0].index == 0,
        forall|k: int|
            (if selected >= 3 { selected - 3 } else { 0 }) <= k < count ==> #[trigger] item_drawn(
                selected,
                count,
                k,
            ),
{
    let start: int = if selected >= 3 { selected - 3 } else { 0 };
    let rows = shown_rows(selected, count);
    assert forall|k: int| start <= k < count implies #[trigger] item_drawn(selected, count, k) by {
        assert(rows[k - start].index == k);
    }
}

/// The select button, on the messaging screen with `n >= 1` known devices
/// and device number `r` chosen, records `n` as the number of devices and
/// makes ready a medium alert from this device to device `r + 1`, or to
/// "all" after the last device.
pub proof fn law_select_from_device(v: AppStateView, s: SettingsView, r: u8, own: Seq<char>)
    requires
        shown_screen(v) == CurrentScreen::Messaging,
        v.mqtt_settings == Some(s),
        s.broadcast_to == BroadCastTo::SelectedRecipient(r),
        1 <= known_devices(v).len() <= MAX_DEVICES,
    ensures
        after_select(v, own).mqtt_settings matches Some(t) && t.number_of_devices
            == known_devices(v).len(),
        r + 1 < known_devices(v).len() ==> after_select(v, own).mqtt_msg == Some(
            MqttMessageView::Alert(
                AlertView {
                    to_device: known_devices(v)[r + 1],
                    from_device: own,
                    priority: MessagePriority::Medium,
                },
            ),
        ),
        r + 1 >= known_devices(v).len() ==> after_select(v, own).mqtt_msg == Some(
            MqttMessageView::Alert(
                AlertView { to_device: "all"@, from_device: own, priority: MessagePriority::Medium },
            ),
        ),
        after_select(v, own).devices == v.devices,
{
}

/// The select button, on the messaging screen with `n >= 1` known devices
/// and everyone chosen, records `n` as the number of devices and makes
/// ready a medium alert from this device to the first device.
pub proof fn law_select_from_everyone(v: AppStateView, s: SettingsView, own: Seq<char>)
    requires
        shown_screen(v) == CurrentScreen::Messaging,
        v.mqtt_settings == Some(s),
        s.broadcast_to == BroadCastTo::AllRecipients,
        1 <= known_devices(v).len() <= MAX_DEVICES,
    ensures
        after_select(v, own).mqtt_settings matches Some(t) && t.number_of_devices
            == known_devices(v).len(),
        after_select(v, own).mqtt_msg == Some(
            MqttMessageView::Alert(
                AlertView {
                    to_device: known_devices(v)[0],
                    from_device: own,
                    priority: MessagePriority::Medium,
                },
            ),
        ),
        after_select(v, own).devices == v.devices,
{
}

/// Removing a listed name takes out exactly its first entry: one device
/// fewer, all the others kept in order; an unlisted name changes nothing.
pub proof fn law_remove_exact(d: Seq<Seq<char>>, name: Seq<char>, i: int)
    requires
        0 <= i < d.len(),
        d[i] == name,
        forall|k: int| 0 <= k < i ==> d[k] != name,
    ensures
        removed(Some(d), name) matches Some(t) && t.len() == d.len() - 1 && (forall|k: int|
            0 <= k < i ==> t[k] == d[k]) && (forall|k: int| i <= k < t.len() ==> t[k] == d[k + 1]),
{
    lemma_first_index_at(d, name, i);
}

/// Removing a name that is not listed changes nothing.
pub proof fn law_remove_unlisted(d: Seq<Seq<char>>, name: Seq<char>)
    requires
        !d.contains(name),
    ensures
        removed(Some(d), name) == Some(d),
{
    crate::text::lemma_first_index(d, name);
    if let Some(k) = first_index(d, name) {
        assert(d[k] == name);
    }
}

/// A message that arrives leaves the screen, the settings and the alert
/// made ready as they were; only the list of devices may change, and an
/// alert that arrives changes nothing at all.
pub proof fn law_receive_keeps_alert(v: AppStateView, m: MqttMessageView, own: Seq<char>)
    ensures
        after_event(v, EventsView::MessageReceived(m), own).mqtt_msg == v.mqtt_msg,
        after_event(v, EventsView::MessageReceived(m), own).screen == v.screen,
        after_event(v, EventsView::MessageReceived(m), own).mqtt_settings == v.mqtt_settings,
        m is Alert ==> after_event(v, EventsView::MessageReceived(m), own) == v,
{
}

/// Hearing from a new device while there is room appends it after all the
/// devices already listed, which stay in order; hearing from a listed
/// device, or with a full list, changes nothing.
pub proof fn law_add_appends(d: Seq<Seq<char>>, name: Seq<char>)
    ensures
        !d.contains(name) && d.len() < MAX_DEVICES ==> (added(Some(d), name) matches Some(t)
            && t.len() == d.len() + 1 && t[d.len() as int] == name && forall|k: int|
            0 <= k < d.len() ==> t[k] == d[k]),
        d.contains(name) || d.len() >= MAX_DEVICES ==> added(Some(d), name) == Some(d),
        added(None, name) == Some(seq![name]),
{
}

/// The screen list shows the known devices in order, at most twelve lines,
/// with "Tout le monde" as the line after the last device when there is
/// room for it.
pub proof fn law_screen_items(v: AppStateView)
    ensures
        screen_items(v).len() == (if known_devices(v).len() < GLOBAL_MAX_ITEMS {
            known_devices(v).len() + 1int
        } else {
            GLOBAL_MAX_ITEMS as int
        }),
        forall|k: int|
            0 <= k < screen_items(v).len() && k < known_devices(v).len() ==> #[trigger] screen_items(
                v,
            )[k] == known_devices(v)[k],
        known_devices(v).len() < GLOBAL_MAX_ITEMS ==> screen_items(v)[known_devices(v).len() as int]
            == "Tout le monde"@,
{
}

} // verus!
