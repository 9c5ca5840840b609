# magneporc

Firmware logic of a small alert device: two buttons (select a recipient,
send), an OLED screen, and an MQTT broker shared by the devices of a group.

- `src/` is the verified library (Verus):
  - `text` — bounded UTF-8 strings (`heapless::String<40>`), splitting;
  - `settings` — message priority and the cyclic choice of recipient;
  - `mqtt` — alert and ping payloads, written and read back;
  - `lists` — the bounded lists of device names (`heapless::Vec`);
  - `screen` — screen snapshot and the layout of the recipient list;
  - `events` — what the tasks tell one another;
  - `state` — the device state and how each event changes it;
  - `laws` — properties that span several functions, proved.
- `app/` is the ESP32 firmware around it: board, Wi-Fi, buttons, display
  drawing, broker connection, and the task loops.
- `tests/` runs the library on concrete values.
