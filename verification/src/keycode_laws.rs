//! What the labels of keycodes are, stated over the keycode's value: the
//! QMK names of basic keys, the symbols Shift types on a US layout, and how
//! modifier, layer and other keycodes are written.
use vstd::prelude::*;

use crate::input_lang::{all_digits, digits_value};
use crate::keycodes::{basic_name, keycode_label, low_byte, modifier_letters};
use crate::text::{decimal, hex4, hex_digit};

verus! {

/// The character `i` places after `base`.
pub open spec fn char_after(base: char, i: int) -> char {
    ((base as int) + i) as char
}

/// The digit a hexadecimal digit value is written with: `0`-`9`, then `A`-`F`.
pub open spec fn hex_char(d: int) -> char {
    if d < 10 { char_after('0', d) } else { char_after('A', d - 10) }
}

/// Decimal notation reads back as the number written: only digits, with no
/// leading zero except in `0` itself.
pub proof fn decimal_reads_back(n: nat)
    ensures
        decimal(n).len() > 0,
        all_digits(decimal(n)),
        digits_value(decimal(n)) == n,
        decimal(n)[0] == '0' ==> n == 0,
    decreases n,
{
    let s = decimal(n);
    assert((hex_digit(n % 10) as u32) - ('0' as u32) == n % 10);
    if n < 10 {
        assert(s.drop_last() =~= Seq::<char>::empty());
        assert(digits_value(Seq::<char>::empty()) == 0);
        assert(s.last() == hex_digit(n));
        assert(digits_value(s) == n);
    } else {
        decimal_reads_back(n / 10);
        let d = decimal(n / 10);
        assert(s.drop_last() == d);
        assert(digits_value(s) == digits_value(d) * 10 + (n % 10));
        assert(s[0] == d[0]);
        assert forall|i: int| 0 <= i < s.len() implies crate::input_lang::is_digit(#[trigger] s[i]) by {
            if i < d.len() {
                assert(s[i] == d[i]);
            }
        }
    }
}

/// Each hexadecimal digit value is written with its digit.
pub proof fn hex_digits_are_written_in_order(d: nat)
    requires
        d < 16,
    ensures
        hex_digit(d) == hex_char(d as int),
{
}

/// Four-digit hexadecimal notation writes `n` most significant digit first.
pub proof fn hex4_writes_the_value(n: u16)
    ensures
        hex4(n).len() == 4,
        hex4(n)[0] == hex_char(n as int / 4096),
        hex4(n)[1] == hex_char((n as int / 256) % 16),
        hex4(n)[2] == hex_char((n as int / 16) % 16),
        hex4(n)[3] == hex_char(n as int % 16),
{
    hex_digits_are_written_in_order((n / 4096) as nat);
    hex_digits_are_written_in_order((n / 256 % 16) as nat);
    hex_digits_are_written_in_order((n / 16 % 16) as nat);
    hex_digits_are_written_in_order((n % 16) as nat);
}

/// The characters of the literals that keycode labels are made of.
proof fn label_literals_spelled()
    ensures
        "A"@ == seq!['A'],
        "B"@ == seq!['B'],
        "C"@ == seq!['C'],
        "D"@ == seq!['D'],
        "E"@ == seq!['E'],
        "F"@ == seq!['F'],
        "G"@ == seq!['G'],
        "H"@ == seq!['H'],
        "I"@ == seq!['I'],
        "J"@ == seq!['J'],
        "K"@ == seq!['K'],
        "L"@ == seq!['L'],
        "M"@ == seq!['M'],
        "N"@ == seq!['N'],
        "O"@ == seq!['O'],
        "P"@ == seq!['P'],
        "Q"@ == seq!['Q'],
        "R"@ == seq!['R'],
        "S"@ == seq!['S'],
        "T"@ == seq!['T'],
        "U"@ == seq!['U'],
        "V"@ == seq!['V'],
        "W"@ == seq!['W'],
        "X"@ == seq!['X'],
        "Y"@ == seq!['Y'],
        "Z"@ == seq!['Z'],
        "1"@ == seq!['1'],
        "2"@ == seq!['2'],
        "3"@ == seq!['3'],
        "4"@ == seq!['4'],
        "5"@ == seq!['5'],
        "6"@ == seq!['6'],
        "7"@ == seq!['7'],
        "8"@ == seq!['8'],
        "9"@ == seq!['9'],
        "0"@ == seq!['0'],
        "\u{23CE}"@ == seq!['\u{23CE}'],
        "Esc"@ == seq!['E', 's', 'c'],
        "\u{232B}"@ == seq!['\u{232B}'],
        "Tab"@ == seq!['T', 'a', 'b'],
        "\u{2423}"@ == seq!['\u{2423}'],
        "-"@ == seq!['-'],
        "="@ == seq!['='],
        "["@ == seq!['['],
        "]"@ == seq![']'],
        "\\"@ == seq!['\\'],
        ";"@ == seq![';'],
        "'"@ == seq!['\''],
        "`"@ == seq!['`'],
        ","@ == seq![','],
        "."@ == seq!['.'],
        "/"@ == seq!['/'],
        "Caps"@ == seq!['C', 'a', 'p', 's'],
        "F1"@ == seq!['F', '1'],
        "F2"@ == seq!['F', '2'],
        "F3"@ == seq!['F', '3'],
        "F4"@ == seq!['F', '4'],
        "F5"@ == seq!['F', '5'],
        "F6"@ == seq!['F', '6'],
        "F7"@ == seq!['F', '7'],
        "F8"@ == seq!['F', '8'],
        "F9"@ == seq!['F', '9'],
        "F10"@ == seq!['F', '1', '0'],
        "F11"@ == seq!['F', '1', '1'],
        "F12"@ == seq!['F', '1', '2'],
        "PScr"@ == seq!['P', 'S', 'c', 'r'],
        "SLck"@ == seq!['S', 'L', 'c', 'k'],
        "Paus"@ == seq!['P', 'a', 'u', 's'],
        "Ins"@ == seq!['I', 'n', 's'],
        "Home"@ == seq!['H', 'o', 'm', 'e'],
        "PgUp"@ == seq!['P', 'g', 'U', 'p'],
        "Del"@ == seq!['D', 'e', 'l'],
        "End"@ == seq!['E', 'n', 'd'],
        "PgDn"@ == seq!['P', 'g', 'D', 'n'],
        "\u{2192}"@ == seq!['\u{2192}'],
        "\u{2190}"@ == seq!['\u{2190}'],
        "\u{2193}"@ == seq!['\u{2193}'],
        "\u{2191}"@ == seq!['\u{2191}'],
        "Menu"@ == seq!['M', 'e', 'n', 'u'],
        "Undo"@ == seq!['U', 'n', 'd', 'o'],
        "Cut"@ == seq!['C', 'u', 't'],
        "Copy"@ == seq!['C', 'o', 'p', 'y'],
        "Paste"@ == seq!['P', 'a', 's', 't', 'e'],
        "Mute"@ == seq!['M', 'u', 't', 'e'],
        "Vol+"@ == seq!['V', 'o', 'l', '+'],
        "Vol-"@ == seq!['V', 'o', 'l', '-'],
        "Ctrl"@ == seq!['C', 't', 'r', 'l'],
        "Shift"@ == seq!['S', 'h', 'i', 'f', 't'],
        "Alt"@ == seq!['A', 'l', 't'],
        "Super"@ == seq!['S', 'u', 'p', 'e', 'r'],
        "RCtrl"@ == seq!['R', 'C', 't', 'r', 'l'],
        "RShift"@ == seq!['R', 'S', 'h', 'i', 'f', 't'],
        "RAlt"@ == seq!['R', 'A', 'l', 't'],
        "RSuper"@ == seq!['R', 'S', 'u', 'p', 'e', 'r'],
        "!"@ == seq!['!'],
        "@"@ == seq!['@'],
        "#"@ == seq!['#'],
        "$"@ == seq!['$'],
        "%"@ == seq!['%'],
        "^"@ == seq!['^'],
        "&"@ == seq!['&'],
        "*"@ == seq!['*'],
        "("@ == seq!['('],
        ")"@ == seq![')'],
        "_"@ == seq!['_'],
        "+"@ == seq!['+'],
        "{"@ == seq!['{'],
        "}"@ == seq!['}'],
        "|"@ == seq!['|'],
        ":"@ == seq![':'],
        "\""@ == seq!['\"'],
        "~"@ == seq!['~'],
        "<"@ == seq!['<'],
        ">"@ == seq!['>'],
        "?"@ == seq!['?'],
        "S("@ == seq!['S', '('],
        "MO"@ == seq!['M', 'O'],
        "DF"@ == seq!['D', 'F'],
        "TG"@ == seq!['T', 'G'],
        "OSL"@ == seq!['O', 'S', 'L'],
        "TT"@ == seq!['T', 'T'],
        "LT"@ == seq!['L', 'T'],
        "0x"@ == seq!['0', 'x'],
        "\u{25BD}"@ == seq!['\u{25BD}'],
{
    reveal_strlit("A");
    reveal_strlit("B");
    reveal_strlit("C");
    reveal_strlit("D");
    reveal_strlit("E");
    reveal_strlit("F");
    reveal_strlit("G");
    reveal_strlit("H");
    reveal_strlit("I");
    reveal_strlit("J");
    reveal_strlit("K");
    reveal_strlit("L");
    reveal_strlit("M");
    reveal_strlit("N");
    reveal_strlit("O");
    reveal_strlit("P");
    reveal_strlit("Q");
    reveal_strlit("R");
    reveal_strlit("S");
    reveal_strlit("T");
    reveal_strlit("U");
    reveal_strlit("V");
    reveal_strlit("W");
    reveal_strlit("X");
    reveal_strlit("Y");
    reveal_strlit("Z");
    reveal_strlit("1");
    reveal_strlit("2");
    reveal_strlit("3");
    reveal_strlit("4");
    reveal_strlit("5");
    reveal_strlit("6");
    reveal_strlit("7");
    reveal_strlit("8");
    reveal_strlit("9");
    reveal_strlit("0");
    reveal_strlit("\u{23CE}");
    reveal_strlit("Esc");
    reveal_strlit("\u{232B}");
    reveal_strlit("Tab");
    reveal_strlit("\u{2423}");
    reveal_strlit("-");
    reveal_strlit("=");
    reveal_strlit("[");
    reveal_strlit("]");
    reveal_strlit("\\");
    reveal_strlit(";");
    reveal_strlit("'");
    reveal_strlit("`");
    reveal_strlit(",");
    reveal_strlit(".");
    reveal_strlit("/");
    reveal_strlit("Caps");
    reveal_strlit("F1");
    reveal_strlit("F2");
    reveal_strlit("F3");
    reveal_strlit("F4");
    reveal_strlit("F5");
    reveal_strlit("F6");
    reveal_strlit("F7");
    reveal_strlit("F8");
    reveal_strlit("F9");
    reveal_strlit("F10");
    reveal_strlit("F11");
    reveal_strlit("F12");
    reveal_strlit("PScr");
    reveal_strlit("SLck");
    reveal_strlit("Paus");
    reveal_strlit("Ins");
    reveal_strlit("Home");
    reveal_strlit("PgUp");
    reveal_strlit("Del");
    reveal_strlit("End");
    reveal_strlit("PgDn");
    reveal_strlit("\u{2192}");
    reveal_strlit("\u{2190}");
    reveal_strlit("\u{2193}");
    reveal_strlit("\u{2191}");
    reveal_strlit("Menu");
    reveal_strlit("Undo");
    reveal_strlit("Cut");
    reveal_strlit("Copy");
    reveal_strlit("Paste");
    reveal_strlit("Mute");
    reveal_strlit("Vol+");
    reveal_strlit("Vol-");
    reveal_strlit("Ctrl");
    reveal_strlit("Shift");
    reveal_strlit("Alt");
    reveal_strlit("Super");
    reveal_strlit("RCtrl");
    reveal_strlit("RShift");
    reveal_strlit("RAlt");
    reveal_strlit("RSuper");
    reveal_strlit("!");
    reveal_strlit("@");
    reveal_strlit("#");
    reveal_strlit("$");
    reveal_strlit("%");
    reveal_strlit("^");
    reveal_strlit("&");
    reveal_strlit("*");
    reveal_strlit("(");
    reveal_strlit(")");
    reveal_strlit("_");
    reveal_strlit("+");
    reveal_strlit("{");
    reveal_strlit("}");
    reveal_strlit("|");
    reveal_strlit(":");
    reveal_strlit("\"");
    reveal_strlit("~");
    reveal_strlit("<");
    reveal_strlit(">");
    reveal_strlit("?");
    reveal_strlit("S(");
    reveal_strlit("MO");
    reveal_strlit("DF");
    reveal_strlit("TG");
    reveal_strlit("OSL");
    reveal_strlit("TT");
    reveal_strlit("LT");
    reveal_strlit("0x");
    reveal_strlit("\u{25BD}");
}

/// Letter keys, 0x04 to 0x1D, show their letter, `A` to `Z`.
pub proof fn letter_keys_show_their_letter(kc: u16)
    requires
        0x04 <= kc <= 0x1D,
    ensures
        keycode_label(kc) == seq![char_after('A', kc - 0x04)],
{
    label_literals_spelled();
}


/// Number-row keys show their digit: 0x1E to 0x26 show `1` to `9`, 0x27
/// shows `0`.
pub proof fn digit_keys_show_their_digit(kc: u16)
    requires
        0x1E <= kc <= 0x27,
    ensures
        keycode_label(kc) == seq![if kc == 0x27 { '0' } else { char_after('1', kc - 0x1E) }],
{
    label_literals_spelled();
}

/// Function keys 0x3A to 0x45 show `F1` to `F12`.
pub proof fn function_keys_show_their_number(kc: u16)
    requires
        0x3A <= kc <= 0x45,
    ensures
        keycode_label(kc) == seq!['F'] + decimal((kc - 0x39) as nat),
{
    label_literals_spelled();
    assert(decimal(1) == seq!['1']);
    assert(decimal(9) == seq!['9']);
    assert(decimal(10) == seq!['1', '0']);
    assert(decimal(11) == seq!['1', '1']);
    assert(decimal(12) == seq!['1', '2']);
}

/// Right-hand modifiers (0xE4 to 0xE7) show `R` before the name of their
/// left-hand twin, four codes below.
pub proof fn right_modifiers_mirror_the_left(kc: u16)
    requires
        0xE4 <= kc <= 0xE7,
    ensures
        keycode_label(kc) == seq!['R'] + keycode_label((kc - 4) as u16),
{
    label_literals_spelled();
}

/// The other named basic keys show their QMK names: Enter `⏎`, Backspace
/// `⌫`, Space `␣`, the arrows `→ ← ↓ ↑`, punctuation as itself, and so on.
pub proof fn named_basic_keys_show_their_names(kc: u16)
    ensures
        kc == 0x28 ==> keycode_label(kc) == seq!['\u{23CE}'],
        kc == 0x29 ==> keycode_label(kc) == seq!['E', 's', 'c'],
        kc == 0x2A ==> keycode_label(kc) == seq!['\u{232B}'],
        kc == 0x2B ==> keycode_label(kc) == seq!['T', 'a', 'b'],
        kc == 0x2C ==> keycode_label(kc) == seq!['\u{2423}'],
        kc == 0x2D ==> keycode_label(kc) == seq!['-'],
        kc == 0x2E ==> keycode_label(kc) == seq!['='],
        kc == 0x2F ==> keycode_label(kc) == seq!['['],
        kc == 0x30 ==> keycode_label(kc) == seq![']'],
        kc == 0x31 ==> keycode_label(kc) == seq!['\\'],
        kc == 0x33 ==> keycode_label(kc) == seq![';'],
        kc == 0x34 ==> keycode_label(kc) == seq!['\''],
        kc == 0x35 ==> keycode_label(kc) == seq!['`'],
        kc == 0x36 ==> keycode_label(kc) == seq![','],
        kc == 0x37 ==> keycode_label(kc) == seq!['.'],
        kc == 0x38 ==> keycode_label(kc) == seq!['/'],
        kc == 0x39 ==> keycode_label(kc) == seq!['C', 'a', 'p', 's'],
        kc == 0x46 ==> keycode_label(kc) == seq!['P', 'S', 'c', 'r'],
        kc == 0x47 ==> keycode_label(kc) == seq!['S', 'L', 'c', 'k'],
        kc == 0x48 ==> keycode_label(kc) == seq!['P', 'a', 'u', 's'],
        kc == 0x49 ==> keycode_label(kc) == seq!['I', 'n', 's'],
        kc == 0x4A ==> keycode_label(kc) == seq!['H', 'o', 'm', 'e'],
        kc == 0x4B ==> keycode_label(kc) == seq!['P', 'g', 'U', 'p'],
        kc == 0x4C ==> keycode_label(kc) == seq!['D', 'e', 'l'],
        kc == 0x4D ==> keycode_label(kc) == seq!['E', 'n', 'd'],
        kc == 0x4E ==> keycode_label(kc) == seq!['P', 'g', 'D', 'n'],
        kc == 0x4F ==> keycode_label(kc) == seq!['\u{2192}'],
        kc == 0x50 ==> keycode_label(kc) == seq!['\u{2190}'],
        kc == 0x51 ==> keycode_label(kc) == seq!['\u{2193}'],
        kc == 0x52 ==> keycode_label(kc) == seq!['\u{2191}'],
        kc == 0x65 ==> keycode_label(kc) == seq!['M', 'e', 'n', 'u'],
        kc == 0x7A ==> keycode_label(kc) == seq!['U', 'n', 'd', 'o'],
        kc == 0x7B ==> keycode_label(kc) == seq!['C', 'u', 't'],
        kc == 0x7C ==> keycode_label(kc) == seq!['C', 'o', 'p', 'y'],
        kc == 0x7D ==> keycode_label(kc) == seq!['P', 'a', 's', 't', 'e'],
        kc == 0xA8 ==> keycode_label(kc) == seq!['M', 'u', 't', 'e'],
        kc == 0xA9 ==> keycode_label(kc) == seq!['V', 'o', 'l', '+'],
        kc == 0xAA ==> keycode_label(kc) == seq!['V', 'o', 'l', '-'],
        kc == 0xE0 ==> keycode_label(kc) == seq!['C', 't', 'r', 'l'],
        kc == 0xE1 ==> keycode_label(kc) == seq!['S', 'h', 'i', 'f', 't'],
        kc == 0xE2 ==> keycode_label(kc) == seq!['A', 'l', 't'],
        kc == 0xE3 ==> keycode_label(kc) == seq!['S', 'u', 'p', 'e', 'r'],
{
    label_literals_spelled();
}

/// A basic keycode that QMK names: letters, digits, Enter to Caps Lock
/// (except 0x32, the non-US `#`), F1 to the arrows, Menu, Undo to Paste,
/// the volume keys and the eight modifiers.
pub open spec fn named_basic_key(kc: u16) -> bool {
    ||| 0x04 <= kc <= 0x31
    ||| 0x33 <= kc <= 0x52
    ||| kc == 0x65
    ||| 0x7A <= kc <= 0x7D
    ||| 0xA8 <= kc <= 0xAA
    ||| 0xE0 <= kc <= 0xE7
}

/// Every other basic keycode (2 to 0xFF) shows `?`.
pub proof fn unnamed_basic_keys_show_a_question_mark(kc: u16)
    requires
        2 <= kc <= 0xFF,
        !named_basic_key(kc),
    ensures
        keycode_label(kc) == seq!['?'],
{
    label_literals_spelled();
}


/// What Shift types on a US layout on the key labelled `c`, where that is
/// another symbol: `!@#$%^&*()` over the digits, `_+{}|:"~<>?` over
/// `-=[]\;'`,./`.
pub open spec fn us_shifted(c: char) -> Option<char> {
    if c == '1' {
        Some('!')
    } else if c == '2' {
        Some('@')
    } else if c == '3' {
        Some('#')
    } else if c == '4' {
        Some('$')
    } else if c == '5' {
        Some('%')
    } else if c == '6' {
        Some('^')
    } else if c == '7' {
        Some('&')
    } else if c == '8' {
        Some('*')
    } else if c == '9' {
        Some('(')
    } else if c == '0' {
        Some(')')
    } else if c == '-' {
        Some('_')
    } else if c == '=' {
        Some('+')
    } else if c == '[' {
        Some('{')
    } else if c == ']' {
        Some('}')
    } else if c == '\\' {
        Some('|')
    } else if c == ';' {
        Some(':')
    } else if c == '\'' {
        Some('\"')
    } else if c == '`' {
        Some('~')
    } else if c == ',' {
        Some('<')
    } else if c == '.' {
        Some('>')
    } else if c == '/' {
        Some('?')
    } else {
        None
    }
}

/// The label of the basic key in a keycode's low byte `b`, as a modifier,
/// layer-tap or shifted keycode names it: 0 and 1 have no basic name (`?`).
pub open spec fn base_label(b: int) -> Seq<char> {
    if b < 2 {
        seq!['?']
    } else {
        keycode_label(b as u16)
    }
}

/// Keycode 0 (no key) shows nothing; keycode 1 (transparent) shows `▽`.
pub proof fn no_key_and_transparent_key(kc: u16)
    ensures
        kc == 0 ==> keycode_label(kc) == Seq::<char>::empty(),
        kc == 1 ==> keycode_label(kc) == seq!['\u{25BD}'],
{
    label_literals_spelled();
}

proof fn lemma_base_label(kc: u16)
    ensures
        base_label(kc as int % 256) == basic_name(low_byte(kc)),
{
    label_literals_spelled();
    assert(kc & 0xFF == kc % 256) by (bit_vector);
}

/// A shifted key (0x0200 plus a basic keycode) shows what Shift types on a
/// US layout where the basic key's label is one character that has a
/// shifted symbol (`S(,)` shows `<`, `S(1)` shows `!`); otherwise it shows
/// `S(` and the basic key's label and `)`.
pub proof fn shifted_keys_show_the_us_symbol(kc: u16)
    requires
        0x0200 <= kc <= 0x02FF,
    ensures
        ({
            let base = base_label(kc as int % 256);
            if base.len() == 1 && us_shifted(base[0]) is Some {
                keycode_label(kc) == seq![us_shifted(base[0])->0]
            } else {
                keycode_label(kc) == seq!['S', '('] + base + seq![')']
            }
        }),
{
    label_literals_spelled();
    lemma_base_label(kc);
    assert(0x0200 <= kc <= 0x02FF ==> (kc & 0xFF00) == 0x0200) by (bit_vector);
}

/// The modifier letters of a modifier mask: Ctrl `C`, Shift `S`, Alt `A`,
/// GUI `G`, in that order, for bits 0 to 3 of `m`.
pub open spec fn mask_letters(m: int) -> Seq<char> {
    (if m % 2 == 1 { seq!['C'] } else { Seq::empty() })
        + (if (m / 2) % 2 == 1 { seq!['S'] } else { Seq::empty() })
        + (if (m / 4) % 2 == 1 { seq!['A'] } else { Seq::empty() })
        + (if (m / 8) % 2 == 1 { seq!['G'] } else { Seq::empty() })
}

/// `mod_prefix` writes the letters of the mask's bits 0 to 3 in the order
/// Ctrl, Shift, Alt, GUI.
pub proof fn modifier_letters_follow_the_mask(m: u8)
    ensures
        modifier_letters(m) == mask_letters(m as int),
{
    assert((m & 0x01 != 0) == (m % 2 == 1)) by (bit_vector);
    assert((m & 0x02 != 0) == ((m / 2) % 2 == 1)) by (bit_vector);
    assert((m & 0x04 != 0) == ((m / 4) % 2 == 1)) by (bit_vector);
    assert((m & 0x08 != 0) == ((m / 8) % 2 == 1)) by (bit_vector);
}

proof fn lemma_mod_bits(kc: u16)
    ensures
        crate::keycodes::mod_bits(kc) as int == (kc as int / 256) % 32,
{
    assert((kc >> 8) & 0x1F == (kc / 256) % 32) by (bit_vector);
}

/// A modifier combo (0x0100 to 0x1FFF, other than the shifted keys 0x02xx)
/// shows the modifier letters of its high byte, `-`, and the basic key's label.
pub proof fn modifier_combos_join_letters_and_key(kc: u16)
    requires
        0x0100 <= kc <= 0x1FFF,
        !(0x0200 <= kc <= 0x02FF),
    ensures
        keycode_label(kc) == mask_letters(kc as int / 256) + seq!['-'] + base_label(kc as int % 256),
{
    lemma_base_label(kc);
    lemma_mod_bits(kc);
    modifier_letters_follow_the_mask(crate::keycodes::mod_bits(kc));
    assert(0x0100 <= kc <= 0x1FFF && !(0x0200 <= kc <= 0x02FF) ==> (kc & 0xFF00) != 0x0200) by (bit_vector);
    label_literals_spelled();
}

/// A mod-tap keycode (0x8000 and up) shows the modifier letters of bits 8
/// to 12, `_`, and the basic key's label.
pub proof fn mod_taps_join_letters_and_key(kc: u16)
    requires
        0x8000 <= kc,
    ensures
        keycode_label(kc) == mask_letters((kc as int / 256) % 32) + seq!['_'] + base_label(kc as int % 256),
{
    lemma_base_label(kc);
    lemma_mod_bits(kc);
    modifier_letters_follow_the_mask(crate::keycodes::mod_bits(kc));
    assert(0x8000 <= kc ==> (kc & 0xFF00) != 0x0200 && (kc & 0xFF00) != 0x5100 && (kc & 0xFF00) != 0x5200
        && (kc & 0xFF00) != 0x5300 && (kc & 0xFF00) != 0x5400 && (kc & 0xFF00) != 0x5800
        && (kc & 0xF000) != 0x4000 && kc & 0x8000 != 0) by (bit_vector);
    label_literals_spelled();
}

/// Layer functions show their name and the layer in the low byte in
/// decimal: 0x51xx `MO(n)`, 0x52xx `DF(n)`, 0x53xx `TG(n)`, 0x54xx `OSL(n)`,
/// 0x58xx `TT(n)`.
pub proof fn layer_functions_name_their_layer(kc: u16)
    ensures
        0x5100 <= kc <= 0x51FF ==> keycode_label(kc) == seq!['M', 'O', '('] + decimal((kc - 0x5100) as nat) + seq![')'],
        0x5200 <= kc <= 0x52FF ==> keycode_label(kc) == seq!['D', 'F', '('] + decimal((kc - 0x5200) as nat) + seq![')'],
        0x5300 <= kc <= 0x53FF ==> keycode_label(kc) == seq!['T', 'G', '('] + decimal((kc - 0x5300) as nat) + seq![')'],
        0x5400 <= kc <= 0x54FF ==> keycode_label(kc) == seq!['O', 'S', 'L', '('] + decimal((kc - 0x5400) as nat) + seq![')'],
        0x5800 <= kc <= 0x58FF ==> keycode_label(kc) == seq!['T', 'T', '('] + decimal((kc - 0x5800) as nat) + seq![')'],
{
    label_literals_spelled();
    assert(kc & 0xFF == kc % 256) by (bit_vector);
    assert(0x5100 <= kc <= 0x51FF <==> (kc & 0xFF00) == 0x5100) by (bit_vector);
    assert(0x5200 <= kc <= 0x52FF <==> (kc & 0xFF00) == 0x5200) by (bit_vector);
    assert(0x5300 <= kc <= 0x53FF <==> (kc & 0xFF00) == 0x5300) by (bit_vector);
    assert(0x5400 <= kc <= 0x54FF <==> (kc & 0xFF00) == 0x5400) by (bit_vector);
    assert(0x5800 <= kc <= 0x58FF <==> (kc & 0xFF00) == 0x5800) by (bit_vector);
}

/// A layer-tap keycode (0x4000 to 0x4FFF) shows `LT`, its layer (bits 8 to
/// 11) in decimal, and the basic key's label in brackets.
pub proof fn layer_taps_name_layer_and_key(kc: u16)
    requires
        0x4000 <= kc <= 0x4FFF,
    ensures
        keycode_label(kc) == seq!['L', 'T'] + decimal(((kc - 0x4000) / 256) as nat) + seq!['('] + base_label(kc as int % 256) + seq![')'],
{
    label_literals_spelled();
    lemma_base_label(kc);
    assert(0x4000 <= kc <= 0x4FFF ==> (kc & 0xF000) == 0x4000 && (kc & 0xFF00) != 0x0200 && (kc & 0xFF00) != 0x5100 && (kc & 0xFF00) != 0x5200
        && (kc & 0xFF00) != 0x5300 && (kc & 0xFF00) != 0x5400 && (kc & 0xFF00) != 0x5800
        && (kc >> 8) & 0x0F == (kc - 0x4000) / 256) by (bit_vector);
}

/// The keycodes that no rule above names.
pub open spec fn shown_in_hex(kc: u16) -> bool {
    ||| 0x2000 <= kc <= 0x3FFF
    ||| 0x5000 <= kc <= 0x50FF
    ||| 0x5500 <= kc <= 0x57FF
    ||| 0x5900 <= kc <= 0x7FFF
}

/// Any other keycode shows `0x` and its value in four hexadecimal digits.
pub proof fn other_keycodes_show_their_value_in_hex(kc: u16)
    requires
        shown_in_hex(kc),
    ensures
        keycode_label(kc) == seq!['0', 'x'] + hex4(kc),
{
    label_literals_spelled();
    assert(shown_in_hex(kc) ==> (kc & 0xFF00) != 0x0200 && (kc & 0xFF00) != 0x5100 && (kc & 0xFF00) != 0x5200
        && (kc & 0xFF00) != 0x5300 && (kc & 0xFF00) != 0x5400 && (kc & 0xFF00) != 0x5800
        && (kc & 0xF000) != 0x4000 && kc & 0x8000 == 0) by (bit_vector);
}

} // verus!
