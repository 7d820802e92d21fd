use sofle_overlay::vial::{detect_active_layer, find_layer_keys, layer_key_target, KeymapData};
use std::collections::HashMap;

fn blank_layer() -> Vec<Vec<u16>> {
    vec![vec![0x0004u16; 6]; 10]
}

fn sample_keymap() -> KeymapData {
    let mut base = blank_layer();
    base[0][0] = 0x432C; // LT(3, space)
    base[4][3] = 0x5101; // MO(1)
    base[3][5] = 0x5302; // TG(2)
    base[9][2] = 0x5401; // OSL(1)
    base[8][1] = 0x5202; // DF(2): not followed
    base[7][0] = 0x5802; // TT(2): not followed
    let mut upper = blank_layer();
    upper[1][1] = 0x5104; // MO(4) on layer 1: not scanned
    KeymapData { layers: vec![base, upper], num_layers: 2 }
}

#[test]
fn layer_targets_of_followed_keys() {
    assert_eq!(layer_key_target(0x5103), Some(3));
    assert_eq!(layer_key_target(0x5305), Some(5));
    assert_eq!(layer_key_target(0x4A2C), Some(10));
    assert_eq!(layer_key_target(0x5407), Some(7));
    assert_eq!(layer_key_target(0x5201), None);
    assert_eq!(layer_key_target(0x5801), None);
    assert_eq!(layer_key_target(0x0004), None);
}

#[test]
fn layer_keys_of_the_base_layer() {
    let map = find_layer_keys(&sample_keymap());
    let mut expected: HashMap<usize, Vec<(usize, usize)>> = HashMap::new();
    expected.insert(3, vec![(0, 0)]);
    expected.insert(1, vec![(4, 3), (9, 2)]);
    expected.insert(2, vec![(3, 5)]);
    assert_eq!(map, expected);
}

#[test]
fn no_layers_no_layer_keys() {
    let keymap = KeymapData { layers: vec![], num_layers: 0 };
    assert!(find_layer_keys(&keymap).is_empty());
}

#[test]
fn ragged_rows_are_scanned_in_order() {
    let keymap = KeymapData { layers: vec![vec![vec![0x5101], vec![], vec![0x0004, 0x5101, 0x4101]]], num_layers: 1 };
    let map = find_layer_keys(&keymap);
    assert_eq!(map.len(), 1);
    assert_eq!(map[&1], vec![(0, 0), (2, 1), (2, 2)]);
}

#[test]
fn no_key_held_means_base_layer() {
    let map = find_layer_keys(&sample_keymap());
    assert_eq!(detect_active_layer(&[], &map), 0);
    assert_eq!(detect_active_layer(&[(1, 1), (5, 5)], &map), 0);
}

#[test]
fn held_layer_key_selects_its_layer() {
    let map = find_layer_keys(&sample_keymap());
    assert_eq!(detect_active_layer(&[(4, 3)], &map), 1);
    assert_eq!(detect_active_layer(&[(9, 2)], &map), 1);
    assert_eq!(detect_active_layer(&[(3, 5), (2, 2)], &map), 2);
}

#[test]
fn higher_layers_take_priority() {
    let map = find_layer_keys(&sample_keymap());
    assert_eq!(detect_active_layer(&[(4, 3), (0, 0)], &map), 3);
    assert_eq!(detect_active_layer(&[(0, 0), (3, 5), (4, 3)], &map), 3);
    assert_eq!(detect_active_layer(&[(4, 3), (3, 5)], &map), 2);
}

#[test]
fn holding_more_keys_never_lowers_the_layer_on_samples() {
    let map = find_layer_keys(&sample_keymap());
    let few = [(3, 5)];
    let more = [(3, 5), (4, 3), (1, 1)];
    assert!(detect_active_layer(&few, &map) <= detect_active_layer(&more, &map));
}

#[test]
fn layer_zero_keys_do_not_change_the_answer() {
    let mut map: HashMap<usize, Vec<(usize, usize)>> = HashMap::new();
    map.insert(0, vec![(1, 1)]);
    map.insert(6, vec![(2, 2)]);
    assert_eq!(detect_active_layer(&[(1, 1)], &map), 0);
    assert_eq!(detect_active_layer(&[(1, 1), (2, 2)], &map), 6);
}
