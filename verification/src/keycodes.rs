//! Human-readable labels for 16-bit QMK keycodes.
use vstd::prelude::*;

use crate::text::{decimal, hex4, push_char, push_decimal, push_hex4};

verus! {

/// The label of a basic keycode (the low byte of a QMK keycode); `?` where
/// the keycode has no label of its own.
pub open spec fn basic_name(kc: u8) -> Seq<char> {
    match kc {
        0x04 => "A"@,
        0x05 => "B"@,
        0x06 => "C"@,
        0x07 => "D"@,
        0x08 => "E"@,
        0x09 => "F"@,
        0x0A => "G"@,
        0x0B => "H"@,
        0x0C => "I"@,
        0x0D => "J"@,
        0x0E => "K"@,
        0x0F => "L"@,
        0x10 => "M"@,
        0x11 => "N"@,
        0x12 => "O"@,
        0x13 => "P"@,
        0x14 => "Q"@,
        0x15 => "R"@,
        0x16 => "S"@,
        0x17 => "T"@,
        0x18 => "U"@,
        0x19 => "V"@,
        0x1A => "W"@,
        0x1B => "X"@,
        0x1C => "Y"@,
        0x1D => "Z"@,
        0x1E => "1"@,
        0x1F => "2"@,
        0x20 => "3"@,
        0x21 => "4"@,
        0x22 => "5"@,
        0x23 => "6"@,
        0x24 => "7"@,
        0x25 => "8"@,
        0x26 => "9"@,
        0x27 => "0"@,
        0x28 => "\u{23CE}"@,
        0x29 => "Esc"@,
        0x2A => "\u{232B}"@,
        0x2B => "Tab"@,
        0x2C => "\u{2423}"@,
        0x2D => "-"@,
        0x2E => "="@,
        0x2F => "["@,
        0x30 => "]"@,
        0x31 => "\\"@,
        0x33 => ";"@,
        0x34 => "'"@,
        0x35 => "`"@,
        0x36 => ","@,
        0x37 => "."@,
        0x38 => "/"@,
        0x39 => "Caps"@,
        0x3A => "F1"@,
        0x3B => "F2"@,
        0x3C => "F3"@,
        0x3D => "F4"@,
        0x3E => "F5"@,
        0x3F => "F6"@,
        0x40 => "F7"@,
        0x41 => "F8"@,
        0x42 => "F9"@,
        0x43 => "F10"@,
        0x44 => "F11"@,
        0x45 => "F12"@,
        0x46 => "PScr"@,
        0x47 => "SLck"@,
        0x48 => "Paus"@,
        0x49 => "Ins"@,
        0x4A => "Home"@,
        0x4B => "PgUp"@,
        0x4C => "Del"@,
        0x4D => "End"@,
        0x4E => "PgDn"@,
        0x4F => "\u{2192}"@,
        0x50 => "\u{2190}"@,
        0x51 => "\u{2193}"@,
        0x52 => "\u{2191}"@,
        0x65 => "Menu"@,
        0x7A => "Undo"@,
        0x7B => "Cut"@,
        0x7C => "Copy"@,
        0x7D => "Paste"@,
        0xA8 => "Mute"@,
        0xA9 => "Vol+"@,
        0xAA => "Vol-"@,
        0xE0 => "Ctrl"@,
        0xE1 => "Shift"@,
        0xE2 => "Alt"@,
        0xE3 => "Super"@,
        0xE4 => "RCtrl"@,
        0xE5 => "RShift"@,
        0xE6 => "RAlt"@,
        0xE7 => "RSuper"@,
        _ => "?"@,
    }
}

/// The symbol that a shifted basic key types, where it has one.
pub open spec fn shifted_symbol(kc: u8) -> Option<Seq<char>> {
    match kc {
        0x1E => Some("!"@),
        0x1F => Some("@"@),
        0x20 => Some("#"@),
        0x21 => Some("$"@),
        0x22 => Some("%"@),
        0x23 => Some("^"@),
        0x24 => Some("&"@),
        0x25 => Some("*"@),
        0x26 => Some("("@),
        0x27 => Some(")"@),
        0x2D => Some("_"@),
        0x2E => Some("+"@),
        0x2F => Some("{"@),
        0x30 => Some("}"@),
        0x31 => Some("|"@),
        0x33 => Some(":"@),
        0x34 => Some("\""@),
        0x35 => Some("~"@),
        0x36 => Some("<"@),
        0x37 => Some(">"@),
        0x38 => Some("?"@),
        _ => None,
    }
}

/// The modifier letters of a five-bit modifier mask, in the order
/// Ctrl, Shift, Alt, GUI (bit 0 to bit 3); bit 4 (right-hand) adds none.
pub open spec fn modifier_letters(mods: u8) -> Seq<char> {
    (if mods & 0x01 != 0 { seq!['C'] } else { Seq::empty() })
        + (if mods & 0x02 != 0 { seq!['S'] } else { Seq::empty() })
        + (if mods & 0x04 != 0 { seq!['A'] } else { Seq::empty() })
        + (if mods & 0x08 != 0 { seq!['G'] } else { Seq::empty() })
}

/// The low byte of a keycode: the basic key it wraps or the layer it names.
pub open spec fn low_byte(kc: u16) -> u8 {
    (kc & 0xFF) as u8
}

/// The five modifier bits of a modifier combo or a mod-tap keycode.
pub open spec fn mod_bits(kc: u16) -> u8 {
    ((kc >> 8) & 0x1F) as u8
}

/// A layer function applied to a layer number: `name(n)`.
pub open spec fn layer_call(name: Seq<char>, n: nat) -> Seq<char> {
    name + "("@ + decimal(n) + ")"@
}

/// The label of a 16-bit QMK keycode, as the overlay shows it.
pub open spec fn keycode_label(kc: u16) -> Seq<char> {
    if kc == 0x0000 {
        Seq::empty()
    } else if kc == 0x0001 {
        "\u{25BD}"@
    } else if kc <= 0x00FF {
        basic_name(kc as u8)
    } else if (kc & 0xFF00) == 0x0200 {
        match shifted_symbol(low_byte(kc)) {
            Some(sym) => sym,
            None => "S("@ + basic_name(low_byte(kc)) + ")"@,
        }
    } else if 0x0100 <= kc <= 0x1FFF {
        modifier_letters(mod_bits(kc)) + "-"@ + basic_name(low_byte(kc))
    } else if (kc & 0xFF00) == 0x5100 {
        layer_call("MO"@, low_byte(kc) as nat)
    } else if (kc & 0xFF00) == 0x5200 {
        layer_call("DF"@, low_byte(kc) as nat)
    } else if (kc & 0xFF00) == 0x5300 {
        layer_call("TG"@, low_byte(kc) as nat)
    } else if (kc & 0xFF00) == 0x5400 {
        layer_call("OSL"@, low_byte(kc) as nat)
    } else if (kc & 0xFF00) == 0x5800 {
        layer_call("TT"@, low_byte(kc) as nat)
    } else if (kc & 0xF000) == 0x4000 {
        "LT"@ + decimal(((kc >> 8) & 0x0F) as nat) + "("@ + basic_name(low_byte(kc)) + ")"@
    } else if kc & 0x8000 != 0 {
        modifier_letters(mod_bits(kc)) + "_"@ + basic_name(low_byte(kc))
    } else {
        "0x"@ + hex4(kc)
    }
}

/// The label of a basic keycode.
pub fn basic_kc_name(kc: u8) -> (name: &'static str)
    ensures
        name@ == basic_name(kc),
{
    match kc {
        0x04 => "A",
        0x05 => "B",
        0x06 => "C",
        0x07 => "D",
        0x08 => "E",
        0x09 => "F",
        0x0A => "G",
        0x0B => "H",
        0x0C => "I",
        0x0D => "J",
        0x0E => "K",
        0x0F => "L",
        0x10 => "M",
        0x11 => "N",
        0x12 => "O",
        0x13 => "P",
        0x14 => "Q",
        0x15 => "R",
        0x16 => "S",
        0x17 => "T",
        0x18 => "U",
        0x19 => "V",
        0x1A => "W",
        0x1B => "X",
        0x1C => "Y",
        0x1D => "Z",
        0x1E => "1",
        0x1F => "2",
        0x20 => "3",
        0x21 => "4",
        0x22 => "5",
        0x23 => "6",
        0x24 => "7",
        0x25 => "8",
        0x26 => "9",
        0x27 => "0",
        0x28 => "\u{23CE}",
        0x29 => "Esc",
        0x2A => "\u{232B}",
        0x2B => "Tab",
        0x2C => "\u{2423}",
        0x2D => "-",
        0x2E => "=",
        0x2F => "[",
        0x30 => "]",
        0x31 => "\\",
        0x33 => ";",
        0x34 => "'",
        0x35 => "`",
        0x36 => ",",
        0x37 => ".",
        0x38 => "/",
        0x39 => "Caps",
        0x3A => "F1",
        0x3B => "F2",
        0x3C => "F3",
        0x3D => "F4",
        0x3E => "F5",
        0x3F => "F6",
        0x40 => "F7",
        0x41 => "F8",
        0x42 => "F9",
        0x43 => "F10",
        0x44 => "F11",
        0x45 => "F12",
        0x46 => "PScr",
        0x47 => "SLck",
        0x48 => "Paus",
        0x49 => "Ins",
        0x4A => "Home",
        0x4B => "PgUp",
        0x4C => "Del",
        0x4D => "End",
        0x4E => "PgDn",
        0x4F => "\u{2192}",
        0x50 => "\u{2190}",
        0x51 => "\u{2193}",
        0x52 => "\u{2191}",
        0x65 => "Menu",
        0x7A => "Undo",
        0x7B => "Cut",
        0x7C => "Copy",
        0x7D => "Paste",
        0xA8 => "Mute",
        0xA9 => "Vol+",
        0xAA => "Vol-",
        0xE0 => "Ctrl",
        0xE1 => "Shift",
        0xE2 => "Alt",
        0xE3 => "Super",
        0xE4 => "RCtrl",
        0xE5 => "RShift",
        0xE6 => "RAlt",
        0xE7 => "RSuper",
        _ => "?",
    }
}

/// The symbol of a shifted basic key, or `None` where it has none.
pub fn shift_symbol(kc: u8) -> (sym: Option<&'static str>)
    ensures
        match sym {
            Some(s) => shifted_symbol(kc) == Some(s@),
            None => shifted_symbol(kc) is None,
        },
{
    match kc {
        0x1E => Some("!"),
        0x1F => Some("@"),
        0x20 => Some("#"),
        0x21 => Some("$"),
        0x22 => Some("%"),
        0x23 => Some("^"),
        0x24 => Some("&"),
        0x25 => Some("*"),
        0x26 => Some("("),
        0x27 => Some(")"),
        0x2D => Some("_"),
        0x2E => Some("+"),
        0x2F => Some("{"),
        0x30 => Some("}"),
        0x31 => Some("|"),
        0x33 => Some(":"),
        0x34 => Some("\""),
        0x35 => Some("~"),
        0x36 => Some("<"),
        0x37 => Some(">"),
        0x38 => Some("?"),
        _ => None,
    }
}

/// The modifier letters of a modifier mask, such as `CS` for Ctrl+Shift.
pub fn mod_prefix(mods: u8) -> (s: String)
    ensures
        s@ == modifier_letters(mods),
{
    let mut s = String::new();
    if mods & 0x01 != 0 {
        push_char(&mut s, 'C');
    }
    if mods & 0x02 != 0 {
        push_char(&mut s, 'S');
    }
    if mods & 0x04 != 0 {
        push_char(&mut s, 'A');
    }
    if mods & 0x08 != 0 {
        push_char(&mut s, 'G');
    }
    assert(s@ =~= modifier_letters(mods));
    s
}

/// `name(n)` for a layer function and the layer in the keycode's low byte.
fn layer_label(name: &str, kc: u16) -> (s: String)
    ensures
        s@ == layer_call(name@, low_byte(kc) as nat),
{
    assert(kc & 0xFF <= 0xFF) by (bit_vector);
    let mut s = String::from_str(name);
    s.append("(");
    push_decimal(&mut s, (kc & 0xFF) as u64);
    s.append(")");
    assert(s@ =~= layer_call(name@, low_byte(kc) as nat));
    s
}

/// Decodes a 16-bit QMK keycode to a human-readable label.
pub fn decode_keycode(kc: u16) -> (label: String)
    ensures
        label@ == keycode_label(kc),
{
    if kc == 0x0000 {
        return String::new();
    }
    if kc == 0x0001 {
        return String::from_str("\u{25BD}");
    }
    // Basic keycodes
    if kc <= 0x00FF {
        return String::from_str(basic_kc_name(kc as u8));
    }
    // Shifted keycodes (0x02xx)
    if (kc & 0xFF00) == 0x0200 {
        let base = (kc & 0xFF) as u8;
        return match shift_symbol(base) {
            Some(sym) => String::from_str(sym),
            None => {
                let mut s = String::from_str("S(");
                s.append(basic_kc_name(base));
                s.append(")");
                s
            },
        };
    }
    // Modifier combos (0x01xx-0x1Fxx)
    if 0x0100 <= kc && kc <= 0x1FFF {
        let mut s = mod_prefix(((kc >> 8) & 0x1F) as u8);
        s.append("-");
        s.append(basic_kc_name((kc & 0xFF) as u8));
        return s;
    }
    if (kc & 0xFF00) == 0x5100 {
        return layer_label("MO", kc);
    }
    if (kc & 0xFF00) == 0x5200 {
        return layer_label("DF", kc);
    }
    if (kc & 0xFF00) == 0x5300 {
        return layer_label("TG", kc);
    }
    if (kc & 0xFF00) == 0x5400 {
        return layer_label("OSL", kc);
    }
    if (kc & 0xFF00) == 0x5800 {
        return layer_label("TT", kc);
    }
    // LT(layer, kc)
    if (kc & 0xF000) == 0x4000 {
        let mut s = String::from_str("LT");
        push_decimal(&mut s, ((kc >> 8) & 0x0F) as u64);
        s.append("(");
        s.append(basic_kc_name((kc & 0xFF) as u8));
        s.append(")");
        return s;
    }
    // Mod-Tap
    if kc & 0x8000 != 0 {
        let mut s = mod_prefix(((kc >> 8) & 0x1F) as u8);
        s.append("_");
        s.append(basic_kc_name((kc & 0xFF) as u8));
        return s;
    }
    let mut s = String::from_str("0x");
    push_hex4(&mut s, kc);
    s
}


proof fn lemma_basic_name_not_empty(kc: u8)
    ensures
        basic_name(kc).len() > 0,
        shifted_symbol(kc) matches Some(sym) ==> sym.len() > 0,
{
    reveal_strlit("A");
    reveal_strlit("B");
    reveal_strlit("C");
    reveal_strlit("D");
    reveal_strlit("E");
    reveal_strlit("F");
    reveal_strlit("G");
    reveal_strlit("H");
    reveal_strlit("I");
    reveal_strlit("J");
    reveal_strlit("K");
    reveal_strlit("L");
    reveal_strlit("M");
    reveal_strlit("N");
    reveal_strlit("O");
    reveal_strlit("P");
    reveal_strlit("Q");
    reveal_strlit("R");
    reveal_strlit("S");
    reveal_strlit("T");
    reveal_strlit("U");
    reveal_strlit("V");
    reveal_strlit("W");
    reveal_strlit("X");
    reveal_strlit("Y");
    reveal_strlit("Z");
    reveal_strlit("1");
    reveal_strlit("2");
    reveal_strlit("3");
    reveal_strlit("4");
    reveal_strlit("5");
    reveal_strlit("6");
    reveal_strlit("7");
    reveal_strlit("8");
    reveal_strlit("9");
    reveal_strlit("0");
    reveal_strlit("\u{23CE}");
    reveal_strlit("Esc");
    reveal_strlit("\u{232B}");
    reveal_strlit("Tab");
    reveal_strlit("\u{2423}");
    reveal_strlit("-");
    reveal_strlit("=");
    reveal_strlit("[");
    reveal_strlit("]");
    reveal_strlit("\\");
    reveal_strlit(";");
    reveal_strlit("'");
    reveal_strlit("`");
    reveal_strlit(",");
    reveal_strlit(".");
    reveal_strlit("/");
    reveal_strlit("Caps");
    reveal_strlit("F1");
    reveal_strlit("F2");
    reveal_strlit("F3");
    reveal_strlit("F4");
    reveal_strlit("F5");
    reveal_strlit("F6");
    reveal_strlit("F7");
    reveal_strlit("F8");
    reveal_strlit("F9");
    reveal_strlit("F10");
    reveal_strlit("F11");
    reveal_strlit("F12");
    reveal_strlit("PScr");
    reveal_strlit("SLck");
    reveal_strlit("Paus");
    reveal_strlit("Ins");
    reveal_strlit("Home");
    reveal_strlit("PgUp");
    reveal_strlit("Del");
    reveal_strlit("End");
    reveal_strlit("PgDn");
    reveal_strlit("\u{2192}");
    reveal_strlit("\u{2190}");
    reveal_strlit("\u{2193}");
    reveal_strlit("\u{2191}");
    reveal_strlit("Menu");
    reveal_strlit("Undo");
    reveal_strlit("Cut");
    reveal_strlit("Copy");
    reveal_strlit("Paste");
    reveal_strlit("Mute");
    reveal_strlit("Vol+");
    reveal_strlit("Vol-");
    reveal_strlit("Ctrl");
    reveal_strlit("Shift");
    reveal_strlit("Alt");
    reveal_strlit("Super");
    reveal_strlit("RCtrl");
    reveal_strlit("RShift");
    reveal_strlit("RAlt");
    reveal_strlit("RSuper");
    reveal_strlit("!");
    reveal_strlit("@");
    reveal_strlit("#");
    reveal_strlit("$");
    reveal_strlit("%");
    reveal_strlit("^");
    reveal_strlit("&");
    reveal_strlit("*");
    reveal_strlit("(");
    reveal_strlit(")");
    reveal_strlit("_");
    reveal_strlit("+");
    reveal_strlit("{");
    reveal_strlit("}");
    reveal_strlit("|");
    reveal_strlit(":");
    reveal_strlit("\"");
    reveal_strlit("~");
    reveal_strlit("<");
    reveal_strlit(">");
    reveal_strlit("?");
}

/// Only keycode 0 (no key) has an empty label: every other keycode shows
/// something.
pub proof fn only_no_key_has_an_empty_label(kc: u16)
    ensures
        keycode_label(kc).len() == 0 <==> kc == 0,
{
    lemma_basic_name_not_empty(low_byte(kc));
    lemma_basic_name_not_empty(kc as u8);
    reveal_strlit("\u{25BD}");
    reveal_strlit("S(");
    reveal_strlit("0x");
}

} // verus!
