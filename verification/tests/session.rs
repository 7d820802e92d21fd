use sofle_overlay::session::{connected_message, label_layers, Session};
use sofle_overlay::vial::{KeymapData, MatrixState};

fn keymap() -> KeymapData {
    let mut base = vec![vec![0x0004u16; 6]; 10];
    base[4][3] = 0x5101;
    base[0][0] = 0x432C;
    let upper = vec![vec![0x0001u16; 6]; 10];
    KeymapData { layers: vec![base, upper], num_layers: 2 }
}

#[test]
fn nothing_before_connecting() {
    let session = Session::new();
    match session.full_keymap() {
        Err(e) => assert_eq!(e, "Not connected"),
        Ok(_) => panic!("keymap before connecting"),
    }
    let state = session.layer_state(MatrixState { pressed: vec![(4, 3)] });
    assert_eq!(state.active_layer, 0);
    assert_eq!(state.pressed, vec![(4, 3)]);
}

#[test]
fn connecting_reports_the_layer_count() {
    let mut session = Session::new();
    assert_eq!(session.connect(keymap()), "Connected: 2 layers");
    assert_eq!(connected_message(0), "Connected: 0 layers");
    assert_eq!(connected_message(12), "Connected: 12 layers");
}

#[test]
fn keymap_read_back_after_connecting() {
    let mut session = Session::new();
    session.connect(keymap());
    let full = session.full_keymap().expect("connected");
    assert_eq!(full.num_layers, 2);
    assert_eq!(full.layers.len(), 2);
    assert_eq!(full.layers[0][4][3].code, 0x5101);
    assert_eq!(full.layers[0][4][3].label, "MO(1)");
    assert_eq!(full.layers[0][0][0].label, "LT3(\u{2423})");
    assert_eq!(full.layers[0][1][1].label, "A");
    assert_eq!(full.layers[1][9][5].label, "\u{25BD}");
    assert_eq!(full.layer_keys.len(), 2);
    assert_eq!(full.layer_keys[&1], vec![(4, 3)]);
    assert_eq!(full.layer_keys[&3], vec![(0, 0)]);
}

#[test]
fn layer_follows_held_keys_after_connecting() {
    let mut session = Session::new();
    session.connect(keymap());
    assert_eq!(session.layer_state(MatrixState { pressed: vec![] }).active_layer, 0);
    assert_eq!(session.layer_state(MatrixState { pressed: vec![(4, 3)] }).active_layer, 1);
    assert_eq!(session.layer_state(MatrixState { pressed: vec![(4, 3), (0, 0)] }).active_layer, 3);
}

#[test]
fn reconnecting_replaces_the_keymap() {
    let mut session = Session::new();
    session.connect(keymap());
    let other = KeymapData { layers: vec![vec![vec![0x5302]]], num_layers: 1 };
    assert_eq!(session.connect(other), "Connected: 1 layers");
    let full = session.full_keymap().expect("connected");
    assert_eq!(full.num_layers, 1);
    assert_eq!(full.layers[0][0][0].label, "TG(2)");
    assert_eq!(full.layer_keys.len(), 1);
    assert_eq!(session.layer_state(MatrixState { pressed: vec![(4, 3)] }).active_layer, 0);
    assert_eq!(session.layer_state(MatrixState { pressed: vec![(0, 0)] }).active_layer, 2);
}

#[test]
fn labels_keep_the_shape_of_ragged_layers() {
    let keys = label_layers(&vec![vec![vec![0x0004, 0x5102], vec![]], vec![]]);
    assert_eq!(keys.len(), 2);
    assert_eq!(keys[0].len(), 2);
    assert_eq!(keys[0][0].len(), 2);
    assert_eq!(keys[0][0][1].label, "MO(2)");
    assert!(keys[0][1].is_empty());
    assert!(keys[1].is_empty());
}
