//! What the overlay keeps between commands: the keymap read at connection
//! and its layer keys, and the answers it gives from them.
use std::collections::HashMap;
use vstd::prelude::*;

use crate::keycodes::{decode_keycode, keycode_label};
use crate::text::{decimal, push_decimal};
use crate::vial::{
    base_rows, detect_active_layer, find_layer_keys, is_active_layer, maps_layer_keys, KeymapData,
    LayerState, MatrixState,
};

verus! {

broadcast use vstd::std_specs::hash::group_hash_axioms;

/// One key of the keymap as the overlay draws it.
#[derive(Debug, Clone)]
pub struct KeyInfo {
    pub code: u16,
    pub label: String,
}

/// The whole keymap as the overlay draws it: `layers[layer][row][col]`, with
/// the layer keys of the base layer.
#[derive(Debug)]
pub struct FullKeymap {
    pub num_layers: usize,
    pub layers: Vec<Vec<Vec<KeyInfo>>>,
    pub layer_keys: HashMap<usize, Vec<(usize, usize)>>,
}

/// `keys` has the shape of `codes`, and each key holds its keycode and the
/// keycode's label.
pub open spec fn labels_keycodes(keys: Seq<Vec<Vec<KeyInfo>>>, codes: Seq<Vec<Vec<u16>>>) -> bool {
    &&& keys.len() == codes.len()
    &&& forall|l: int| 0 <= l < keys.len() ==> (#[trigger] keys[l])@.len() == codes[l]@.len()
    &&& forall|l: int, r: int|
        0 <= l < keys.len() && 0 <= r < keys[l]@.len() ==> (#[trigger] keys[l]@[r])@.len() == codes[l]@[r]@.len()
    &&& forall|l: int, r: int, c: int|
        0 <= l < keys.len() && 0 <= r < keys[l]@.len() && 0 <= c < keys[l]@[r]@.len() ==> {
            &&& (#[trigger] keys[l]@[r]@[c]).code == codes[l]@[r]@[c]
            &&& keys[l]@[r]@[c].label@ == keycode_label(codes[l]@[r]@[c])
        }
}

/// Every keycode of a keymap with its label, layer by layer, row by row.
pub fn label_layers(layers: &Vec<Vec<Vec<u16>>>) -> (keys: Vec<Vec<Vec<KeyInfo>>>)
    ensures
        labels_keycodes(keys@, layers@),
{
    let mut keys: Vec<Vec<Vec<KeyInfo>>> = Vec::new();
    let mut l: usize = 0;
    while l < layers.len()
        invariant
            l <= layers@.len(),
            labels_keycodes(keys@, layers@.take(l as int)),
        decreases layers@.len() - l,
    {
        let layer = &layers[l];
        let mut rows: Vec<Vec<KeyInfo>> = Vec::new();
        let mut r: usize = 0;
        while r < layer.len()
            invariant
                r <= layer@.len(),
                rows@.len() == r,
                forall|i: int| 0 <= i < r ==> (#[trigger] rows@[i])@.len() == layer@[i]@.len(),
                forall|i: int, c: int|
                    0 <= i < r && 0 <= c < rows@[i]@.len() ==> {
                        &&& (#[trigger] rows@[i]@[c]).code == layer@[i]@[c]
                        &&& rows@[i]@[c].label@ == keycode_label(layer@[i]@[c])
                    },
            decreases layer@.len() - r,
        {
            let row = &layer[r];
            let mut infos: Vec<KeyInfo> = Vec::new();
            let mut c: usize = 0;
            while c < row.len()
                invariant
                    c <= row@.len(),
                    infos@.len() == c,
                    forall|i: int|
                        0 <= i < c ==> {
                            &&& (#[trigger] infos@[i]).code == row@[i]
                            &&& infos@[i].label@ == keycode_label(row@[i])
                        },
                decreases row@.len() - c,
            {
                let code = row[c];
                infos.push(KeyInfo { code, label: decode_keycode(code) });
                c = c + 1;
            }
            rows.push(infos);
            r = r + 1;
        }
        keys.push(rows);
        proof {
            assert(layers@.take(l + 1).drop_last() =~= layers@.take(l as int));
            assert(layers@.take(l + 1)[l as int] == layers@[l as int]);
        }
        l = l + 1;
    }
    assert(layers@.take(layers@.len() as int) =~= layers@);
    keys
}

/// The message for a keyboard found with `num_layers` layers.
pub open spec fn connected_text(num_layers: usize) -> Seq<char> {
    "Connected: "@ + decimal(num_layers as nat) + " layers"@
}

/// The message for a keyboard found with `num_layers` layers:
/// `Connected: N layers`.
pub fn connected_message(num_layers: usize) -> (msg: String)
    ensures
        msg@ == connected_text(num_layers),
{
    let mut msg = String::from_str("Connected: ");
    push_decimal(&mut msg, num_layers as u64);
    msg.append(" layers");
    assert(msg@ =~= connected_text(num_layers));
    msg
}

/// The keymap the overlay works from, once a keyboard is connected, and the
/// layer keys of its base layer.
pub struct Session {
    keymap: Option<KeymapData>,
    layer_keys: HashMap<usize, Vec<(usize, usize)>>,
}

impl Session {
    #[verifier::type_invariant]
    spec fn consistent(self) -> bool {
        match self.keymap {
            Some(k) => maps_layer_keys(self.layer_keys@, base_rows(k)),
            None => self.layer_keys@ == Map::<usize, Vec<(usize, usize)>>::empty(),
        }
    }

    /// The keymap read at the last connection, if any.
    pub closed spec fn keymap(self) -> Option<KeymapData> {
        self.keymap
    }

    /// The layer keys of the connected keymap's base layer.
    pub closed spec fn layer_key_map(self) -> Map<usize, Vec<(usize, usize)>> {
        self.layer_keys@
    }

    /// Nothing connected yet.
    pub fn new() -> (session: Self)
        ensures
            session.keymap() is None,
            session.layer_key_map() == Map::<usize, Vec<(usize, usize)>>::empty(),
    {
        Session { keymap: None, layer_keys: HashMap::new() }
    }

    /// Takes the keymap read from a newly connected keyboard: finds its layer
    /// keys and keeps both; answers `Connected: N layers`.
    pub fn connect(&mut self, keymap: KeymapData) -> (msg: String)
        ensures
            final(self).keymap() == Some(keymap),
            maps_layer_keys(final(self).layer_key_map(), base_rows(keymap)),
            msg@ == connected_text(keymap.num_layers),
    {
        let layer_keys = find_layer_keys(&keymap);
        let msg = connected_message(keymap.num_layers);
        *self = Session { keymap: Some(keymap), layer_keys };
        msg
    }

    /// The keymap with its labels and layer keys, or `Not connected`.
    pub fn full_keymap(&self) -> (result: Result<FullKeymap, String>)
        ensures
            match self.keymap() {
                None => result matches Err(e) && e@ == "Not connected"@,
                Some(k) => result matches Ok(full) && {
                    &&& full.num_layers == k.num_layers
                    &&& labels_keycodes(full.layers@, k.layers@)
                    &&& full.layer_keys@ == self.layer_key_map()
                },
            },
    {
        match &self.keymap {
            None => Err(String::from_str("Not connected")),
            Some(keymap) => {
                let layers = label_layers(&keymap.layers);
                Ok(FullKeymap { num_layers: keymap.num_layers, layers, layer_keys: self.layer_keys.clone() })
            },
        }
    }

    /// The layer to show for the keys held down, with those keys.
    pub fn layer_state(&self, matrix: MatrixState) -> (state: LayerState)
        ensures
            is_active_layer(self.layer_key_map(), matrix.pressed@, state.active_layer),
            state.pressed == matrix.pressed,
    {
        let active = detect_active_layer(matrix.pressed.as_slice(), &self.layer_keys);
        LayerState { active_layer: active, pressed: matrix.pressed }
    }
}

} // verus!
