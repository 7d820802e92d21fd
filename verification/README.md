# sofle_overlay

The logic of an overlay for a Sofle split keyboard running Vial firmware:
it reads the keymap over the Vial/VIA raw-HID protocol, labels every
keycode, finds the layer keys of the base layer, and shows the layer that
the held-down keys select. The library is verified with Verus.

- `src/keycodes.rs`: labels of 16-bit QMK keycodes (`decode_keycode`).
- `src/vial.rs`: keymap and matrix data, the layer keys of the base layer
  (`find_layer_keys`) and the layer to show (`detect_active_layer`), with
  the laws that tie them together.
- `src/protocol.rs`: the 32-byte messages sent to the keyboard, what is read
  from its replies, and `KeymapReader`, which walks every keymap position.
- `src/input_lang.rs`: the EN/RU indicator, from the output of `gsettings`.
- `src/session.rs`: what the overlay keeps between commands.
- `src/text.rs`: number formatting for labels and messages.
- `app/`: the Tauri application around the library: HID and process I/O,
  shared state, serializable copies of the data types.
