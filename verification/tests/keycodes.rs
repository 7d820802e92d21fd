use sofle_overlay::keycodes::{basic_kc_name, decode_keycode, mod_prefix, shift_symbol};

#[test]
fn no_key_is_blank() {
    assert_eq!(decode_keycode(0x0000), "");
}

#[test]
fn transparent_key_is_a_triangle() {
    assert_eq!(decode_keycode(0x0001), "\u{25BD}");
}

#[test]
fn basic_keys_use_their_names() {
    assert_eq!(decode_keycode(0x0004), "A");
    assert_eq!(decode_keycode(0x001D), "Z");
    assert_eq!(decode_keycode(0x001E), "1");
    assert_eq!(decode_keycode(0x0027), "0");
    assert_eq!(decode_keycode(0x0028), "\u{23CE}");
    assert_eq!(decode_keycode(0x0029), "Esc");
    assert_eq!(decode_keycode(0x002C), "\u{2423}");
    assert_eq!(decode_keycode(0x0031), "\\");
    assert_eq!(decode_keycode(0x0045), "F12");
    assert_eq!(decode_keycode(0x0050), "\u{2190}");
    assert_eq!(decode_keycode(0x00E7), "RSuper");
}

#[test]
fn unknown_basic_key_is_a_question_mark() {
    assert_eq!(decode_keycode(0x0002), "?");
    assert_eq!(decode_keycode(0x0032), "?");
    assert_eq!(decode_keycode(0x00FF), "?");
}

#[test]
fn shifted_keys_show_their_symbol() {
    assert_eq!(decode_keycode(0x021E), "!");
    assert_eq!(decode_keycode(0x0234), "\"");
    assert_eq!(decode_keycode(0x0238), "?");
}

#[test]
fn shifted_keys_without_symbol_are_wrapped() {
    assert_eq!(decode_keycode(0x0204), "S(A)");
    assert_eq!(decode_keycode(0x0229), "S(Esc)");
}

#[test]
fn modifier_combos_list_their_modifiers() {
    assert_eq!(decode_keycode(0x0104), "C-A");
    assert_eq!(decode_keycode(0x0306), "CS-C");
    assert_eq!(decode_keycode(0x0F2B), "CSAG-Tab");
    assert_eq!(decode_keycode(0x1004), "-A");
    assert_eq!(decode_keycode(0x1504), "CA-A");
}

#[test]
fn layer_functions_name_their_layer() {
    assert_eq!(decode_keycode(0x5102), "MO(2)");
    assert_eq!(decode_keycode(0x5201), "DF(1)");
    assert_eq!(decode_keycode(0x5303), "TG(3)");
    assert_eq!(decode_keycode(0x5401), "OSL(1)");
    assert_eq!(decode_keycode(0x5802), "TT(2)");
    assert_eq!(decode_keycode(0x51FF), "MO(255)");
    assert_eq!(decode_keycode(0x510A), "MO(10)");
}

#[test]
fn layer_tap_names_layer_and_key() {
    assert_eq!(decode_keycode(0x412C), "LT1(\u{2423})");
    assert_eq!(decode_keycode(0x4F04), "LT15(A)");
    assert_eq!(decode_keycode(0x4029), "LT0(Esc)");
}

#[test]
fn mod_tap_joins_modifiers_and_key() {
    assert_eq!(decode_keycode(0x8104), "C_A");
    assert_eq!(decode_keycode(0x8A29), "SG_Esc");
    assert_eq!(decode_keycode(0xFF04), "CSAG_A");
}

#[test]
fn other_keycodes_are_shown_in_hex() {
    assert_eq!(decode_keycode(0x2104), "0x2104");
    assert_eq!(decode_keycode(0x5C00), "0x5C00");
    assert_eq!(decode_keycode(0x7C0A), "0x7C0A");
    assert_eq!(decode_keycode(0x3ABF), "0x3ABF");
}

#[test]
fn modifier_prefix_order() {
    assert_eq!(mod_prefix(0x00), "");
    assert_eq!(mod_prefix(0x01), "C");
    assert_eq!(mod_prefix(0x0A), "SG");
    assert_eq!(mod_prefix(0x0F), "CSAG");
    assert_eq!(mod_prefix(0x10), "");
    assert_eq!(mod_prefix(0x1F), "CSAG");
}

#[test]
fn basic_names_and_shift_symbols() {
    assert_eq!(basic_kc_name(0x04), "A");
    assert_eq!(basic_kc_name(0xA8), "Mute");
    assert_eq!(basic_kc_name(0x00), "?");
    assert_eq!(shift_symbol(0x1F), Some("@"));
    assert_eq!(shift_symbol(0x35), Some("~"));
    assert_eq!(shift_symbol(0x04), None);
}

#[test]
fn only_no_key_has_an_empty_label_on_samples() {
    for kc in [0x0001u16, 0x0002, 0x00FF, 0x0200, 0x0100, 0x5100, 0x4000, 0x8000, 0x2000, 0xFFFF] {
        assert!(!decode_keycode(kc).is_empty());
    }
    assert!(decode_keycode(0).is_empty());
}
