//! The current keyboard input source (EN/RU indicator), read from the
//! output of GNOME's `gsettings`.
use vstd::prelude::*;

use crate::text::{chars_of, decimal, push_char, string_of};

verus! {

/// The active input source: its position in the source list, its layout id
/// (`us`, `ru`, ...) and the label shown for it (`EN`, `RU`, ...).
#[derive(Debug, Clone)]
pub struct InputLang {
    pub index: u32,
    pub id: String,
    pub label: String,
}

/// What std's `str::to_uppercase` gives for a string (Unicode upper-casing).
pub uninterp spec fn uppercase(s: Seq<char>) -> Seq<char>;

/// What std's `String::from_utf8_lossy` gives for a byte string.
pub uninterp spec fn lossy_utf8(bytes: Seq<u8>) -> Seq<char>;

/// The upper-case form of `s` (std's `str::to_uppercase`): its result is
/// named, not stated, since Unicode case mapping takes tables to state.
#[verifier::external_body]
fn to_upper(s: &str) -> (upper: String)
    ensures
        upper@ == uppercase(s@),
{
    s.to_uppercase()
}

/// Decodes bytes as UTF-8, replacing invalid sequences (std's
/// `String::from_utf8_lossy`): valid UTF-8 decodes to its characters; what
/// replaces invalid sequences is named, not stated.
#[verifier::external_body]
fn decode_lossy(bytes: &[u8]) -> (text: String)
    ensures
        text@ == lossy_utf8(bytes@),
        vstd::utf8::valid_utf8(bytes@) ==> text@ == vstd::utf8::decode_utf8(bytes@),
{
    String::from_utf8_lossy(bytes).into_owned()
}

/// The label of a layout id that the overlay knows.
pub open spec fn known_label(id: Seq<char>) -> Option<Seq<char>> {
    if id == "us"@ {
        Some("EN"@)
    } else if id == "ru"@ {
        Some("RU"@)
    } else if id == "ua"@ {
        Some("UA"@)
    } else if id == "de"@ {
        Some("DE"@)
    } else if id == "fr"@ {
        Some("FR"@)
    } else if id == "es"@ {
        Some("ES"@)
    } else {
        None
    }
}

/// The label shown for a layout id: its known label, else the id in upper case.
pub open spec fn lang_label(id: Seq<char>) -> Seq<char> {
    match known_label(id) {
        Some(label) => label,
        None => uppercase(id),
    }
}

/// The label shown for a layout id: `EN` for `us` and so on, else the id in
/// upper case.
pub fn label_for(id: &str) -> (label: String)
    ensures
        label@ == lang_label(id@),
{
    let id_s = String::from_str(id);
    if id_s == String::from_str("us") {
        String::from_str("EN")
    } else if id_s == String::from_str("ru") {
        String::from_str("RU")
    } else if id_s == String::from_str("ua") {
        String::from_str("UA")
    } else if id_s == String::from_str("de") {
        String::from_str("DE")
    } else if id_s == String::from_str("fr") {
        String::from_str("FR")
    } else if id_s == String::from_str("es") {
        String::from_str("ES")
    } else {
        to_upper(id)
    }
}


/// The indicator's labels: `EN` for the `us` layout; `RU`, `UA`, `DE`,
/// `FR`, `ES` for `ru`, `ua`, `de`, `fr`, `es`; every other layout id is
/// shown upper-cased, whatever it is.
pub proof fn six_layouts_have_fixed_labels_and_others_are_upper_cased(id: Seq<char>)
    ensures
        id == seq!['u', 's'] ==> lang_label(id) == seq!['E', 'N'],
        id == seq!['r', 'u'] ==> lang_label(id) == seq!['R', 'U'],
        id == seq!['u', 'a'] ==> lang_label(id) == seq!['U', 'A'],
        id == seq!['d', 'e'] ==> lang_label(id) == seq!['D', 'E'],
        id == seq!['f', 'r'] ==> lang_label(id) == seq!['F', 'R'],
        id == seq!['e', 's'] ==> lang_label(id) == seq!['E', 'S'],
        id != seq!['u', 's'] && id != seq!['r', 'u'] && id != seq!['u', 'a'] && id != seq!['d', 'e']
            && id != seq!['f', 'r'] && id != seq!['e', 's'] ==> lang_label(id) == uppercase(id),
{
    reveal_strlit("us");
    reveal_strlit("ru");
    reveal_strlit("ua");
    reveal_strlit("de");
    reveal_strlit("fr");
    reveal_strlit("es");
    reveal_strlit("EN");
    reveal_strlit("RU");
    reveal_strlit("UA");
    reveal_strlit("DE");
    reveal_strlit("FR");
    reveal_strlit("ES");
    assert("us"@ =~= seq!['u', 's']);
    assert("ru"@ =~= seq!['r', 'u']);
    assert("ua"@ =~= seq!['u', 'a']);
    assert("de"@ =~= seq!['d', 'e']);
    assert("fr"@ =~= seq!['f', 'r']);
    assert("es"@ =~= seq!['e', 's']);
    assert("EN"@ =~= seq!['E', 'N']);
    assert("RU"@ =~= seq!['R', 'U']);
    assert("UA"@ =~= seq!['U', 'A']);
    assert("DE"@ =~= seq!['D', 'E']);
    assert("FR"@ =~= seq!['F', 'R']);
    assert("ES"@ =~= seq!['E', 'S']);
}

/// Unicode `White_Space` (what std's `char::is_whitespace` tests).
pub open spec fn is_white_space(c: char) -> bool {
    let u = c as u32;
    ||| 0x09 <= u <= 0x0D
    ||| u == 0x20
    ||| u == 0x85
    ||| u == 0xA0
    ||| u == 0x1680
    ||| 0x2000 <= u <= 0x200A
    ||| u == 0x2028
    ||| u == 0x2029
    ||| u == 0x202F
    ||| u == 0x205F
    ||| u == 0x3000
}

/// `s` without its leading white space.
pub open spec fn trim_start(s: Seq<char>) -> Seq<char>
    decreases s.len(),
{
    if s.len() > 0 && is_white_space(s[0]) {
        trim_start(s.drop_first())
    } else {
        s
    }
}

/// `s` without its trailing white space.
pub open spec fn trim_end(s: Seq<char>) -> Seq<char>
    decreases s.len(),
{
    if s.len() > 0 && is_white_space(s.last()) {
        trim_end(s.drop_last())
    } else {
        s
    }
}

/// `s` without leading and trailing white space (std's `str::trim`).
pub open spec fn trimmed(s: Seq<char>) -> Seq<char> {
    trim_end(trim_start(s))
}

/// The index of the last space in `s`, if it has one.
pub open spec fn last_space(s: Seq<char>) -> Option<int>
    decreases s.len(),
{
    if s.len() == 0 {
        None
    } else if s.last() == ' ' {
        Some(s.len() - 1)
    } else {
        last_space(s.drop_last())
    }
}

/// An ASCII decimal digit.
pub open spec fn is_digit(c: char) -> bool {
    '0' as u32 <= c as u32 <= '9' as u32
}

/// The number that a string of decimal digits writes.
pub open spec fn digits_value(d: Seq<char>) -> int
    decreases d.len(),
{
    if d.len() == 0 {
        0
    } else {
        digits_value(d.drop_last()) * 10 + (d.last() as u32 - '0' as u32)
    }
}

/// How std parses a `u32` (`str::parse::<u32>`): an optional `+`, then at
/// least one decimal digit and nothing else, of a value that fits.
pub open spec fn parse_u32(s: Seq<char>) -> Option<u32> {
    let d = unsigned_part(s);
    if d.len() > 0 && all_digits(d) && digits_value(d) <= u32::MAX {
        Some(digits_value(d) as u32)
    } else {
        None
    }
}

/// `s` without one leading `+`.
pub open spec fn unsigned_part(s: Seq<char>) -> Seq<char> {
    if s.len() > 0 && s[0] == '+' {
        s.drop_first()
    } else {
        s
    }
}

/// Every character of `d` is a decimal digit.
pub open spec fn all_digits(d: Seq<char>) -> bool {
    forall|i: int| 0 <= i < d.len() ==> is_digit(#[trigger] d[i])
}

/// The input source index in the output of `gsettings get
/// org.gnome.desktop.input-sources current` (`uint32 N`): the number after
/// the last space of the trimmed output, or 0 where there is none.
pub open spec fn current_index(out: Seq<char>) -> u32 {
    let t = trimmed(out);
    match last_space(t) {
        Some(k) => match parse_u32(t.subrange(k + 1, t.len() as int)) {
            Some(n) => n,
            None => 0,
        },
        None => 0,
    }
}

/// The index of the first non-white-space character of `s`, and the end of
/// its last one: `trimmed(s)` lies between them.
pub fn trim_bounds(s: &Vec<char>) -> (bounds: (usize, usize))
    ensures
        bounds.0 <= bounds.1 <= s@.len(),
        s@.subrange(bounds.0 as int, bounds.1 as int) == trimmed(s@),
{
    let n = s.len();
    let mut a: usize = 0;
    assert(s@.subrange(0, n as int) =~= s@);
    while a < n && is_white_space_char(s[a])
        invariant
            n == s@.len(),
            a <= n,
            trim_start(s@) == trim_start(s@.subrange(a as int, n as int)),
        decreases n - a,
    {
        assert(s@.subrange(a as int, n as int).drop_first() =~= s@.subrange(a + 1, n as int));
        a = a + 1;
    }
    assert(trim_start(s@) == s@.subrange(a as int, n as int));
    let mut b: usize = n;
    while b > a && is_white_space_char(s[b - 1])
        invariant
            n == s@.len(),
            a <= b <= n,
            trim_end(s@.subrange(a as int, n as int)) == trim_end(s@.subrange(a as int, b as int)),
        decreases b - a,
    {
        assert(s@.subrange(a as int, b as int).drop_last() =~= s@.subrange(a as int, b - 1));
        b = b - 1;
    }
    (a, b)
}

/// Whether `c` is white space (std's `char::is_whitespace`).
pub fn is_white_space_char(c: char) -> (ws: bool)
    ensures
        ws == is_white_space(c),
{
    let u = c as u32;
    (0x09 <= u && u <= 0x0D) || u == 0x20 || u == 0x85 || u == 0xA0 || u == 0x1680
        || (0x2000 <= u && u <= 0x200A) || u == 0x2028 || u == 0x2029 || u == 0x202F
        || u == 0x205F || u == 0x3000
}

proof fn lemma_digits_value_prefix(d: Seq<char>, k: int)
    requires
        0 <= k <= d.len(),
        forall|i: int| 0 <= i < d.len() ==> is_digit(#[trigger] d[i]),
    ensures
        digits_value(d.take(k)) <= digits_value(d),
        0 <= digits_value(d.take(k)),
    decreases d.len() - k,
{
    lemma_digits_value_nonneg(d.take(k));
    if k < d.len() {
        lemma_digits_value_prefix(d, k + 1);
        assert(d.take(k + 1).drop_last() =~= d.take(k));
    } else {
        assert(d.take(k) =~= d);
    }
}

proof fn lemma_digits_value_nonneg(d: Seq<char>)
    requires
        forall|i: int| 0 <= i < d.len() ==> is_digit(#[trigger] d[i]),
    ensures
        0 <= digits_value(d),
    decreases d.len(),
{
    if d.len() > 0 {
        assert forall|i: int| 0 <= i < d.drop_last().len() implies is_digit(#[trigger] d.drop_last()[i]) by {
            assert(d.drop_last()[i] == d[i]);
        }
        lemma_digits_value_nonneg(d.drop_last());
    }
}

/// Parses a `u32` the way std's `str::parse::<u32>` does.
pub fn parse_u32_chars(s: &[char]) -> (n: Option<u32>)
    ensures
        n == parse_u32(s@),
{
    let ghost d = unsigned_part(s@);
    let start: usize = if s.len() > 0 && s[0] == '+' { 1 } else { 0 };
    assert(d =~= s@.subrange(start as int, s@.len() as int));
    if start >= s.len() {
        return None;
    }
    let mut value: u64 = 0;
    let mut i: usize = start;
    while i < s.len()
        invariant
            start <= i <= s@.len(),
            d == unsigned_part(s@),
            d =~= s@.subrange(start as int, s@.len() as int),
            forall|j: int| 0 <= j < i - start ==> is_digit(#[trigger] d[j]),
            value == digits_value(d.take(i - start)),
            value <= u32::MAX,
        decreases s@.len() - i,
    {
        let c = s[i];
        if !('0' as u32 <= c as u32 && c as u32 <= '9' as u32) {
            assert(!is_digit(d[i - start]));
            return None;
        }
        let digit = (c as u32 - '0' as u32) as u64;
        assert(d.take(i - start + 1).drop_last() =~= d.take(i - start));
        assert(d.take(i - start + 1).last() == c);
        value = value * 10 + digit;
        if value > u32::MAX as u64 {
            proof {
                if all_digits(d) {
                    lemma_digits_value_prefix(d, i - start + 1);
                }
            }
            return None;
        }
        i = i + 1;
    }
    assert(d.take(i - start) =~= d);
    Some(value as u32)
}

/// The input source index in the output of `gsettings get
/// org.gnome.desktop.input-sources current`, such as `uint32 1`; 0 where
/// the output holds none.
pub fn parse_current_index(out: &str) -> (index: u32)
    ensures
        index == current_index(out@),
{
    let chars = chars_of(out);
    let (a, b) = trim_bounds(&chars);
    let ghost t = trimmed(out@);
    let mut k: usize = b;
    assert(t.take(b - a) =~= t);
    while k > a && chars[k - 1] != ' '
        invariant
            a <= k <= b <= chars@.len(),
            t == chars@.subrange(a as int, b as int),
            last_space(t) == last_space(t.take(k - a)),
        decreases k - a,
    {
        assert(t.take(k - a).drop_last() =~= t.take(k - a - 1));
        k = k - 1;
    }
    if k == a {
        assert(t.take(0) =~= Seq::<char>::empty());
        return 0;
    }
    assert(t.take(k - a).last() == ' ');
    assert(last_space(t) == Some((k - 1 - a) as int));
    let digits = chars_of_range(&chars, k, b);
    assert(digits@ =~= t.subrange(k - a, t.len() as int));
    match parse_u32_chars(digits.as_slice()) {
        Some(n) => n,
        None => 0,
    }
}

/// The characters of `s` from `from` up to `to`.
fn chars_of_range(s: &Vec<char>, from: usize, to: usize) -> (part: Vec<char>)
    requires
        from <= to <= s@.len(),
    ensures
        part@ == s@.subrange(from as int, to as int),
{
    let mut part: Vec<char> = Vec::new();
    let mut i: usize = from;
    while i < to
        invariant
            from <= i <= to <= s@.len(),
            part@ == s@.subrange(from as int, i as int),
        decreases to - i,
    {
        part.push(s[i]);
        assert(part@ =~= s@.subrange(from as int, i + 1));
        i = i + 1;
    }
    part
}


/// The pieces of `s` between occurrences of `sep` (std's `str::split` on a
/// character): one more piece than `s` holds separators.
pub open spec fn split_pieces(s: Seq<char>, sep: char) -> Seq<Seq<char>>
    decreases s.len(),
{
    if s.len() == 0 {
        seq![Seq::empty()]
    } else {
        let pieces = split_pieces(s.drop_last(), sep);
        if s.last() == sep {
            pieces.push(Seq::empty())
        } else {
            pieces.update(pieces.len() - 1, pieces.last().push(s.last()))
        }
    }
}

/// The layout ids in the output of `gsettings get
/// org.gnome.desktop.input-sources sources`, such as
/// `[('xkb', 'us'), ('xkb', 'ru')]`: of the pieces between single quotes,
/// every fourth one from the fourth on (indexes 3, 7, 11, ...).
pub open spec fn source_ids(out: Seq<char>) -> Seq<Seq<char>> {
    let pieces = split_pieces(out, '\'');
    Seq::new(pieces.len() / 4, |j: int| pieces[4 * j + 3])
}

/// The views of a list of strings.
pub open spec fn string_views(strings: Seq<String>) -> Seq<Seq<char>> {
    strings.map_values(|s: String| s@)
}

/// The layout ids in the output of `gsettings get
/// org.gnome.desktop.input-sources sources`, in order.
pub fn parse_source_ids(out: &str) -> (ids: Vec<String>)
    ensures
        string_views(ids@) == source_ids(out@),
{
    let chars = chars_of(out);
    let ghost s = out@;
    let mut ids: Vec<String> = Vec::new();
    let mut current: Vec<char> = Vec::new();
    let mut piece: usize = 0;
    let mut i: usize = 0;
    proof {
        assert(s.take(0) =~= Seq::<char>::empty());
    }
    while i < chars.len()
        invariant
            chars@ == s,
            i <= s.len(),
            piece <= i,
            ({
                let pieces = split_pieces(s.take(i as int), '\'');
                &&& pieces.len() == piece + 1
                &&& current@ == pieces[piece as int]
                &&& ids@.len() == piece / 4
                &&& forall|j: int| 0 <= j < ids@.len() ==> (#[trigger] ids@[j])@ == pieces[4 * j + 3]
            }),
        decreases s.len() - i,
    {
        let ghost before = split_pieces(s.take(i as int), '\'');
        assert(s.take(i + 1).drop_last() =~= s.take(i as int));
        let c = chars[i];
        if c == '\'' {
            if piece % 4 == 3 {
                let id = string_of(current.as_slice());
                ids.push(id);
                assert(ids@[ids@.len() - 1]@ == before[4 * (ids@.len() - 1) + 3]);
            }
            current = Vec::new();
            piece = piece + 1;
            proof {
                let after = split_pieces(s.take(i + 1), '\'');
                assert(after == before.push(Seq::empty()));
                assert forall|j: int| 0 <= j < ids@.len() implies (#[trigger] ids@[j])@ == after[4 * j + 3] by {
                    assert(after[4 * j + 3] == before[4 * j + 3]);
                }
            }
        } else {
            current.push(c);
            proof {
                let after = split_pieces(s.take(i + 1), '\'');
                assert(after == before.update(before.len() - 1, before.last().push(c)));
                assert forall|j: int| 0 <= j < ids@.len() implies (#[trigger] ids@[j])@ == after[4 * j + 3] by {
                    assert(4 * j + 3 < piece);
                }
            }
        }
        i = i + 1;
    }
    assert(s.take(i as int) =~= s);
    if piece % 4 == 3 {
        let id = string_of(current.as_slice());
        ids.push(id);
    }
    proof {
        let pieces = split_pieces(s, '\'');
        assert(string_views(ids@) =~= source_ids(s));
    }
    ids
}

/// The layout id at `index` in a list of ids, or the empty id past its end.
pub open spec fn selected_id(ids: Seq<Seq<char>>, index: u32) -> Seq<char> {
    if index < ids.len() {
        ids[index as int]
    } else {
        Seq::empty()
    }
}

/// The active input source, from the outputs of `gsettings get
/// org.gnome.desktop.input-sources current` and `... sources`.
pub fn input_lang_from_gsettings(current_out: &[u8], sources_out: &[u8]) -> (lang: InputLang)
    ensures
        lang.index == current_index(lossy_utf8(current_out@)),
        lang.id@ == selected_id(source_ids(lossy_utf8(sources_out@)), lang.index),
        lang.label@ == lang_label(lang.id@),
{
    let idx_str = decode_lossy(current_out);
    let index = parse_current_index(idx_str.as_str());
    let src_str = decode_lossy(sources_out);
    let ids = parse_source_ids(src_str.as_str());
    let id = if (index as usize) < ids.len() {
        ids[index as usize].clone()
    } else {
        String::new()
    };
    let label = label_for(id.as_str());
    InputLang { index, id, label }
}


proof fn lemma_last_space_after_digits(p: Seq<char>, d: Seq<char>)
    requires
        p.len() > 0,
        p.last() == ' ',
        all_digits(d),
    ensures
        last_space(p + d) == Some(p.len() - 1),
    decreases d.len(),
{
    if d.len() == 0 {
        assert(p + d =~= p);
    } else {
        assert(is_digit(d[d.len() - 1]));
        assert((p + d).last() == d.last());
        assert((p + d).drop_last() =~= p + d.drop_last());
        assert(all_digits(d.drop_last())) by {
            assert forall|i: int| 0 <= i < d.drop_last().len() implies is_digit(#[trigger] d.drop_last()[i]) by {
                assert(d.drop_last()[i] == d[i]);
            }
        }
        lemma_last_space_after_digits(p, d.drop_last());
    }
}

/// The index that `gsettings` prints for the current input source,
/// `uint32 N` and a newline, reads back as `N`, for every `N`.
pub proof fn printed_index_reads_back(n: u32)
    ensures
        current_index(seq!['u', 'i', 'n', 't', '3', '2', ' '] + decimal(n as nat) + seq!['\n']) == n,
{
    let p = seq!['u', 'i', 'n', 't', '3', '2', ' '];
    let d = decimal(n as nat);
    crate::keycode_laws::decimal_reads_back(n as nat);
    let s = p + d + seq!['\n'];
    assert(s[0] == 'u');
    assert(trim_start(s) == s);
    assert(s.drop_last() =~= p + d);
    assert(is_digit(d[d.len() - 1]));
    assert((p + d).last() == d.last());
    assert(trim_end(p + d) == p + d);
    assert(trimmed(s) == p + d);
    lemma_last_space_after_digits(p, d);
    assert((p + d).subrange(7, (p + d).len() as int) =~= d);
    assert(is_digit(d[0]));
    assert(unsigned_part(d) == d);
}

} // verus!
