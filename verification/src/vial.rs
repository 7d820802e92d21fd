//! The keymap and switch-matrix data read from a Vial keyboard, and the
//! layer keys found in them.
use std::collections::HashMap;
use vstd::prelude::*;

use crate::keycodes::{basic_name, keycode_label, layer_call, low_byte};
use crate::text::decimal;

verus! {

broadcast use vstd::std_specs::hash::group_hash_axioms;

/// Every layer of a keymap, as `layers[layer][row][col]` keycodes.
#[derive(Debug, Clone)]
pub struct KeymapData {
    pub layers: Vec<Vec<Vec<u16>>>,
    pub num_layers: usize,
}

/// The matrix positions `(row, col)` of the keys held down.
#[derive(Debug, Clone)]
pub struct MatrixState {
    pub pressed: Vec<(usize, usize)>,
}

/// The layer the overlay shows, with the keys held down.
#[derive(Debug, Clone)]
pub struct LayerState {
    pub active_layer: usize,
    pub pressed: Vec<(usize, usize)>,
}

/// The layer that a keycode switches to, where it is one of the layer keys
/// the overlay follows: MO(layer), TG(layer), LT(layer, kc) or OSL(layer).
pub open spec fn layer_target(kc: u16) -> Option<usize> {
    if (kc & 0xFF00) == 0x5100 {
        Some((kc & 0xFF) as usize)
    } else if (kc & 0xFF00) == 0x5300 {
        Some((kc & 0xFF) as usize)
    } else if (kc & 0xF000) == 0x4000 {
        Some(((kc >> 8) & 0x0F) as usize)
    } else if (kc & 0xFF00) == 0x5400 {
        Some((kc & 0xFF) as usize)
    } else {
        None
    }
}

/// The rows of the base layer (layer 0) of a keymap; none where it has no layer.
pub open spec fn base_rows(keymap: KeymapData) -> Seq<Seq<u16>> {
    if keymap.layers@.len() == 0 {
        Seq::empty()
    } else {
        keymap.layers@[0]@.map_values(|row: Vec<u16>| row@)
    }
}

/// The positions, in order, of the first `n` keys of row `r` that switch to layer `t`.
pub open spec fn row_layer_keys(row: Seq<u16>, r: usize, t: usize, n: int) -> Seq<(usize, usize)>
    decreases n,
{
    if n <= 0 {
        Seq::empty()
    } else {
        row_layer_keys(row, r, t, n - 1) + if layer_target(row[n - 1]) == Some(t) {
            seq![(r, (n - 1) as usize)]
        } else {
            Seq::empty()
        }
    }
}

/// The positions, in row-major order, of the keys of the first `n` rows that
/// switch to layer `t`.
pub open spec fn rows_layer_keys(rows: Seq<Seq<u16>>, t: usize, n: int) -> Seq<(usize, usize)>
    decreases n,
{
    if n <= 0 {
        Seq::empty()
    } else {
        rows_layer_keys(rows, t, n - 1) + row_layer_keys(rows[n - 1], (n - 1) as usize, t, rows[n - 1].len() as int)
    }
}

/// The positions, in row-major order, of all keys of `rows` that switch to layer `t`.
pub open spec fn layer_key_positions(rows: Seq<Seq<u16>>, t: usize) -> Seq<(usize, usize)> {
    rows_layer_keys(rows, t, rows.len() as int)
}

/// `m` maps each layer to the positions of the keys of `rows` that switch to
/// it, in row-major order, and holds no layer that no key switches to.
pub open spec fn maps_layer_keys(m: Map<usize, Vec<(usize, usize)>>, rows: Seq<Seq<u16>>) -> bool {
    forall|t: usize|
        #![trigger m.contains_key(t)]
        #![trigger layer_key_positions(rows, t)]
        (m.contains_key(t) <==> layer_key_positions(rows, t).len() > 0)
            && (m.contains_key(t) ==> m[t]@ == layer_key_positions(rows, t))
}

/// The layer a keycode switches to, if it is a layer key.
pub fn layer_key_target(kc: u16) -> (target: Option<usize>)
    ensures
        target == layer_target(kc),
{
    if (kc & 0xFF00) == 0x5100 {
        Some((kc & 0xFF) as usize)  // MO(layer)
    } else if (kc & 0xFF00) == 0x5300 {
        Some((kc & 0xFF) as usize)  // TG(layer)
    } else if (kc & 0xF000) == 0x4000 {
        Some(((kc >> 8) & 0x0F) as usize)  // LT(layer, kc)
    } else if (kc & 0xFF00) == 0x5400 {
        Some((kc & 0xFF) as usize)  // OSL(layer)
    } else {
        None
    }
}

/// Scans the base layer for MO/TG/LT/OSL layer keys: maps each target layer
/// to the positions `(row, col)` of its keys, in row-major order.
pub fn find_layer_keys(keymap: &KeymapData) -> (map: HashMap<usize, Vec<(usize, usize)>>)
    ensures
        maps_layer_keys(map@, base_rows(*keymap)),
{
    let mut map: HashMap<usize, Vec<(usize, usize)>> = HashMap::new();
    if keymap.layers.len() == 0 {
        return map;
    }
    let base = &keymap.layers[0];
    let ghost rows = base_rows(*keymap);
    assert(rows.len() == base@.len());
    let mut r: usize = 0;
    while r < base.len()
        invariant
            rows == base_rows(*keymap),
            base@ == keymap.layers@[0]@,
            keymap.layers@.len() > 0,
            rows.len() == base@.len(),
            r <= base@.len(),
            forall|t: usize|
                #![trigger map@.contains_key(t)]
                #![trigger rows_layer_keys(rows, t, r as int)]
                (map@.contains_key(t) <==> rows_layer_keys(rows, t, r as int).len() > 0)
                    && (map@.contains_key(t) ==> map@[t]@ == rows_layer_keys(rows, t, r as int)),
        decreases base@.len() - r,
    {
        let row = &base[r];
        assert(rows[r as int] == row@);
        let mut c: usize = 0;
        while c < row.len()
            invariant
                rows == base_rows(*keymap),
                rows.len() == base@.len(),
                r < base@.len(),
                rows[r as int] == row@,
                c <= row@.len(),
                forall|t: usize|
                    #![trigger map@.contains_key(t)]
                    #![trigger row_layer_keys(row@, r, t, c as int)]
                    (map@.contains_key(t) <==> (rows_layer_keys(rows, t, r as int) + row_layer_keys(row@, r, t, c as int)).len() > 0)
                        && (map@.contains_key(t) ==> map@[t]@ == rows_layer_keys(rows, t, r as int) + row_layer_keys(row@, r, t, c as int)),
            decreases row@.len() - c,
        {
            let kc = row[c];
            let ghost old_map = map@;
            if let Some(t) = layer_key_target(kc) {
                let mut positions = match map.remove(&t) {
                    Some(v) => v,
                    None => Vec::new(),
                };
                positions.push((r, c));
                map.insert(t, positions);
            }
            assert forall|t: usize| #![trigger map@.contains_key(t)]
                (map@.contains_key(t) <==> (rows_layer_keys(rows, t, r as int) + row_layer_keys(row@, r, t, c + 1)).len() > 0)
                && (map@.contains_key(t) ==> map@[t]@ == rows_layer_keys(rows, t, r as int) + row_layer_keys(row@, r, t, c + 1)) by {
                assert(row_layer_keys(row@, r, t, c + 1) == row_layer_keys(row@, r, t, c as int) + if layer_target(row@[c as int]) == Some(t) {
                    seq![(r, c)]
                } else {
                    Seq::<(usize, usize)>::empty()
                });
                if layer_target(row@[c as int]) == Some(t) {
                    assert(rows_layer_keys(rows, t, r as int) + row_layer_keys(row@, r, t, c + 1)
                        =~= (rows_layer_keys(rows, t, r as int) + row_layer_keys(row@, r, t, c as int)).push((r, c)));
                } else {
                    assert(rows_layer_keys(rows, t, r as int) + row_layer_keys(row@, r, t, c + 1)
                        =~= rows_layer_keys(rows, t, r as int) + row_layer_keys(row@, r, t, c as int));
                }
            }
            c = c + 1;
        }
        assert forall|t: usize| #![trigger map@.contains_key(t)]
            (map@.contains_key(t) <==> rows_layer_keys(rows, t, r + 1).len() > 0)
            && (map@.contains_key(t) ==> map@[t]@ == rows_layer_keys(rows, t, r + 1)) by {
            assert(rows_layer_keys(rows, t, r + 1) == rows_layer_keys(rows, t, r as int) + row_layer_keys(row@, r, t, row@.len() as int));
        }
        r = r + 1;
    }
    map
}


/// Some key of layer `t` in `m` is held down.
pub open spec fn layer_engaged(m: Map<usize, Vec<(usize, usize)>>, pressed: Seq<(usize, usize)>, t: usize) -> bool {
    m.contains_key(t) && exists|i: int| 0 <= i < m[t]@.len() && pressed.contains(#[trigger] m[t]@[i])
}

/// `layer` is the layer to show: the highest layer in `m` with a key held
/// down, or 0 where no such layer is above 0.
pub open spec fn is_active_layer(m: Map<usize, Vec<(usize, usize)>>, pressed: Seq<(usize, usize)>, layer: usize) -> bool {
    &&& layer == 0 || layer_engaged(m, pressed, layer)
    &&& forall|t: usize| #[trigger] layer_engaged(m, pressed, t) ==> t <= layer
}

/// Whether `pos` is among the pressed positions.
pub fn is_pressed(pressed: &[(usize, usize)], pos: (usize, usize)) -> (found: bool)
    ensures
        found == pressed@.contains(pos),
{
    let mut i: usize = 0;
    while i < pressed.len()
        invariant
            i <= pressed@.len(),
            forall|j: int| 0 <= j < i ==> pressed@[j] != pos,
        decreases pressed@.len() - i,
    {
        let p = pressed[i];
        if p.0 == pos.0 && p.1 == pos.1 {
            assert(pressed@[i as int] == pos);
            return true;
        }
        i = i + 1;
    }
    false
}

/// Determines the active layer from the pressed keys and the layer key map:
/// higher layers take priority.
pub fn detect_active_layer(
    pressed: &[(usize, usize)],
    layer_keys: &HashMap<usize, Vec<(usize, usize)>>,
) -> (layer: usize)
    ensures
        is_active_layer(layer_keys@, pressed@, layer),
{
    let ghost m = layer_keys@;
    let ghost entries = vstd::std_specs::iter::IteratorSpec::remaining(&vstd::std_specs::hash::spec_hash_map_iter(layer_keys));
    let mut max_layer: usize = 0;
    assert forall|k: usize| #[trigger] layer_engaged(m, pressed@, k) implies
        exists|j: int| 0 <= j < entries.len() && *(#[trigger] entries[j]).0 == k by {
        assert(entries.contains((&k, &m[k])));
    }
    for entry in it: layer_keys.iter()
        invariant
            m == layer_keys@,
            it.seq() == entries,
            max_layer == 0 || layer_engaged(m, pressed@, max_layer),
            forall|k: usize| #[trigger] layer_engaged(m, pressed@, k) ==> k <= max_layer
                || exists|j: int| it.index() <= j < it.seq().len() && *(#[trigger] it.seq()[j]).0 == k,
    {
        let (target_ref, positions) = entry;
        let target_layer = *target_ref;
        let ghost before = max_layer;
        let mut i: usize = 0;
        while i < positions.len()
            invariant
                i <= positions@.len(),
                m.contains_key(target_layer),
                m[target_layer] == *positions,
                max_layer == 0 || layer_engaged(m, pressed@, max_layer),
                max_layer >= before,
                (exists|j: int| 0 <= j < i && pressed@.contains(#[trigger] positions@[j])) ==> target_layer <= max_layer,
            decreases positions@.len() - i,
        {
            if is_pressed(pressed, positions[i]) && target_layer > max_layer {
                max_layer = target_layer;
            }
            i = i + 1;
        }
    }
    max_layer
}


/// The key at `pos` in `rows` exists and switches to layer `t`.
pub open spec fn key_switches_to(rows: Seq<Seq<u16>>, pos: (usize, usize), t: usize) -> bool {
    &&& pos.0 < rows.len()
    &&& pos.1 < rows[pos.0 as int].len()
    &&& layer_target(rows[pos.0 as int][pos.1 as int]) == Some(t)
}

/// Every row and column of `rows` has a `usize` index, as those of a
/// `Vec<Vec<u16>>` do.
pub open spec fn rows_indexable(rows: Seq<Seq<u16>>) -> bool {
    &&& rows.len() <= usize::MAX
    &&& forall|r: int| 0 <= r < rows.len() ==> #[trigger] rows[r].len() <= usize::MAX
}

/// A held-down key of `rows` switches to layer `t`.
pub open spec fn layer_key_held(rows: Seq<Seq<u16>>, pressed: Seq<(usize, usize)>, t: usize) -> bool {
    exists|p: (usize, usize)| pressed.contains(p) && #[trigger] key_switches_to(rows, p, t)
}

/// `layer` is the highest layer that a held-down key of `rows` switches to,
/// or 0 where none switches to a layer above 0.
pub open spec fn is_highest_held_layer(rows: Seq<Seq<u16>>, pressed: Seq<(usize, usize)>, layer: usize) -> bool {
    &&& layer == 0 || layer_key_held(rows, pressed, layer)
    &&& forall|t: usize| #[trigger] layer_key_held(rows, pressed, t) ==> t <= layer
}

proof fn lemma_row_layer_keys_contains(row: Seq<u16>, r: usize, t: usize, n: int, pos: (usize, usize))
    requires
        0 <= n <= row.len(),
        row.len() <= usize::MAX,
    ensures
        row_layer_keys(row, r, t, n).contains(pos) <==> (pos.0 == r && pos.1 < n && layer_target(row[pos.1 as int]) == Some(t)),
    decreases n,
{
    if n > 0 {
        lemma_row_layer_keys_contains(row, r, t, n - 1, pos);
        let prev = row_layer_keys(row, r, t, n - 1);
        let last: Seq<(usize, usize)> = if layer_target(row[n - 1]) == Some(t) { seq![(r, (n - 1) as usize)] } else { Seq::empty() };
        assert(row_layer_keys(row, r, t, n) == prev + last);
        if (prev + last).contains(pos) {
            let i = choose|i: int| 0 <= i < (prev + last).len() && (prev + last)[i] == pos;
            if i < prev.len() {
                assert(prev[i] == pos);
            }
        }
        if pos.0 == r && pos.1 < n && layer_target(row[pos.1 as int]) == Some(t) {
            if pos.1 < n - 1 {
                let i = choose|i: int| 0 <= i < prev.len() && prev[i] == pos;
                assert((prev + last)[i] == pos);
            } else {
                assert((prev + last)[prev.len() as int] == pos);
            }
        }
    }
}

proof fn lemma_rows_layer_keys_contains(rows: Seq<Seq<u16>>, t: usize, n: int, pos: (usize, usize))
    requires
        0 <= n <= rows.len(),
        rows_indexable(rows),
    ensures
        rows_layer_keys(rows, t, n).contains(pos) <==> (pos.0 < n && key_switches_to(rows, pos, t)),
    decreases n,
{
    if n > 0 {
        lemma_rows_layer_keys_contains(rows, t, n - 1, pos);
        let row = rows[n - 1];
        lemma_row_layer_keys_contains(row, (n - 1) as usize, t, row.len() as int, pos);
        let prev = rows_layer_keys(rows, t, n - 1);
        let last = row_layer_keys(row, (n - 1) as usize, t, row.len() as int);
        assert(rows_layer_keys(rows, t, n) == prev + last);
        if (prev + last).contains(pos) {
            let i = choose|i: int| 0 <= i < (prev + last).len() && (prev + last)[i] == pos;
            if i < prev.len() {
                assert(prev[i] == pos);
            } else {
                assert(last[i - prev.len()] == pos);
            }
        }
        if pos.0 < n && key_switches_to(rows, pos, t) {
            if pos.0 < n - 1 {
                let i = choose|i: int| 0 <= i < prev.len() && prev[i] == pos;
                assert((prev + last)[i] == pos);
            } else {
                let i = choose|i: int| 0 <= i < last.len() && last[i] == pos;
                assert((prev + last)[prev.len() + i] == pos);
            }
        }
    }
}

/// Each key of the base layer is listed under the layer it switches to,
/// and no other position is listed: a position is under layer `t` exactly
/// when the base-layer key there switches to `t`.
pub proof fn layer_key_map_lists_exactly_the_layer_keys(
    m: Map<usize, Vec<(usize, usize)>>,
    rows: Seq<Seq<u16>>,
    t: usize,
    pos: (usize, usize),
)
    requires
        maps_layer_keys(m, rows),
        rows_indexable(rows),
    ensures
        (m.contains_key(t) && m[t]@.contains(pos)) <==> key_switches_to(rows, pos, t),
{
    lemma_rows_layer_keys_contains(rows, t, rows.len() as int, pos);
    let positions = layer_key_positions(rows, t);
    if key_switches_to(rows, pos, t) {
        let i = choose|i: int| 0 <= i < positions.len() && positions[i] == pos;
        assert(positions.len() > 0);
    }
}

/// The layer shown for a keymap is the highest layer that a held-down layer
/// key of its base layer switches to, or 0 where none switches above 0:
/// `detect_active_layer` over the map that `find_layer_keys` builds picks the
/// layer the held keys ask for, and higher layers take priority.
pub proof fn active_layer_is_highest_held_layer_key(
    m: Map<usize, Vec<(usize, usize)>>,
    rows: Seq<Seq<u16>>,
    pressed: Seq<(usize, usize)>,
    layer: usize,
)
    requires
        maps_layer_keys(m, rows),
        rows_indexable(rows),
    ensures
        is_active_layer(m, pressed, layer) <==> is_highest_held_layer(rows, pressed, layer),
{
    assert forall|t: usize|
        #![trigger layer_engaged(m, pressed, t)]
        #![trigger layer_key_held(rows, pressed, t)]
        layer_engaged(m, pressed, t) <==> layer_key_held(rows, pressed, t) by {
        if layer_engaged(m, pressed, t) {
            let i = choose|i: int| 0 <= i < m[t]@.len() && pressed.contains(#[trigger] m[t]@[i]);
            let p = m[t]@[i];
            assert(m[t]@.contains(p));
            layer_key_map_lists_exactly_the_layer_keys(m, rows, t, p);
            assert(key_switches_to(rows, p, t));
        }
        if layer_key_held(rows, pressed, t) {
            let p = choose|p: (usize, usize)| pressed.contains(p) && #[trigger] key_switches_to(rows, p, t);
            layer_key_map_lists_exactly_the_layer_keys(m, rows, t, p);
            let i = choose|i: int| 0 <= i < m[t]@.len() && m[t]@[i] == p;
            assert(pressed.contains(m[t]@[i]));
        }
    }
}


/// Holding more keys never lowers the layer shown.
pub proof fn holding_more_keys_never_lowers_the_layer(
    m: Map<usize, Vec<(usize, usize)>>,
    pressed: Seq<(usize, usize)>,
    more: Seq<(usize, usize)>,
    layer: usize,
    layer_with_more: usize,
)
    requires
        forall|p: (usize, usize)| pressed.contains(p) ==> more.contains(p),
        is_active_layer(m, pressed, layer),
        is_active_layer(m, more, layer_with_more),
    ensures
        layer <= layer_with_more,
{
    if layer != 0 {
        let i = choose|i: int| 0 <= i < m[layer]@.len() && pressed.contains(#[trigger] m[layer]@[i]);
        assert(more.contains(m[layer]@[i]));
        assert(layer_engaged(m, more, layer));
    }
}

/// With no key held down, the base layer (0) is shown.
pub proof fn no_key_held_shows_the_base_layer(m: Map<usize, Vec<(usize, usize)>>, pressed: Seq<(usize, usize)>, layer: usize)
    requires
        pressed.len() == 0,
        is_active_layer(m, pressed, layer),
    ensures
        layer == 0,
{
    if layer != 0 {
        let i = choose|i: int| 0 <= i < m[layer]@.len() && pressed.contains(#[trigger] m[layer]@[i]);
    }
}

/// There is one layer to show for a map and the keys held down.
pub proof fn active_layer_is_unique(
    m: Map<usize, Vec<(usize, usize)>>,
    pressed: Seq<(usize, usize)>,
    a: usize,
    b: usize,
)
    requires
        is_active_layer(m, pressed, a),
        is_active_layer(m, pressed, b),
    ensures
        a == b,
{
    if a != 0 {
        assert(layer_engaged(m, pressed, a));
    }
    if b != 0 {
        assert(layer_engaged(m, pressed, b));
    }
}


/// The layer keys the overlay follows, by keycode value: MO (0x51xx), TG
/// (0x53xx) and OSL (0x54xx) switch to the layer in their low byte, LT
/// (0x4000 to 0x4FFF) to the layer in bits 8 to 11; no other keycode (DF and
/// TT among them) is followed.
pub proof fn followed_layer_keys_by_value(kc: u16)
    ensures
        layer_target(kc) == if 0x5100 <= kc <= 0x51FF {
            Some((kc - 0x5100) as usize)
        } else if 0x5300 <= kc <= 0x53FF {
            Some((kc - 0x5300) as usize)
        } else if 0x5400 <= kc <= 0x54FF {
            Some((kc - 0x5400) as usize)
        } else if 0x4000 <= kc <= 0x4FFF {
            Some(((kc - 0x4000) / 256) as usize)
        } else {
            None
        },
{
    assert(kc & 0xFF == kc % 256) by (bit_vector);
    assert(0x5100 <= kc <= 0x51FF <==> (kc & 0xFF00) == 0x5100) by (bit_vector);
    assert(0x5300 <= kc <= 0x53FF <==> (kc & 0xFF00) == 0x5300) by (bit_vector);
    assert(0x5400 <= kc <= 0x54FF <==> (kc & 0xFF00) == 0x5400) by (bit_vector);
    assert(0x4000 <= kc <= 0x4FFF <==> (kc & 0xF000) == 0x4000) by (bit_vector);
    assert(0x4000 <= kc <= 0x4FFF ==> (kc >> 8) & 0x0F == (kc - 0x4000) / 256) by (bit_vector);
}

/// The label the overlay shows on a layer key it follows names the layer the
/// key switches to: `MO(t)`, `TG(t)`, `OSL(t)` or `LTt(key)`.
pub proof fn layer_key_label_names_its_layer(kc: u16, t: usize)
    requires
        layer_target(kc) == Some(t),
    ensures
        keycode_label(kc) == layer_call("MO"@, t as nat) || keycode_label(kc) == layer_call("TG"@, t as nat)
            || keycode_label(kc) == layer_call("OSL"@, t as nat)
            || keycode_label(kc) == "LT"@ + decimal(t as nat) + "("@ + basic_name(low_byte(kc)) + ")"@,
{
    assert(kc & 0xFF <= 0xFF) by (bit_vector);
    assert((kc >> 8) & 0x0F <= 0x0F) by (bit_vector);
    assert((kc & 0xFF00) == 0x5100 || (kc & 0xFF00) == 0x5300 || (kc & 0xFF00) == 0x5400 || (kc & 0xF000) == 0x4000
        ==> kc > 0x1FFF && (kc & 0xFF00) != 0x0200) by (bit_vector);
    assert((kc & 0xF000) == 0x4000 ==> (kc & 0xFF00) != 0x5100 && (kc & 0xFF00) != 0x5200 && (kc & 0xFF00) != 0x5300
        && (kc & 0xFF00) != 0x5400 && (kc & 0xFF00) != 0x5800) by (bit_vector);
}

} // verus!
