use sofle_overlay::protocol::{
    command_frame, is_sofle_device, keycode_from_response, keycode_request, layer_count_from_response,
    layer_count_request, matrix_state_from_response, matrix_state_request, probe_accepts, KeymapReader,
    MSG_LEN,
};

fn reply(bytes: &[u8]) -> [u8; MSG_LEN] {
    let mut r = [0u8; MSG_LEN];
    r[..bytes.len()].copy_from_slice(bytes);
    r
}

#[test]
fn only_the_sofle_ids_match() {
    assert!(is_sofle_device(0xFC32, 0x0287));
    assert!(!is_sofle_device(0xFC32, 0x0288));
    assert!(!is_sofle_device(0x0287, 0xFC32));
}

#[test]
fn frames_are_padded_with_zeros() {
    let msg = command_frame(&[1, 2, 3]);
    assert_eq!(&msg[..3], &[1, 2, 3]);
    assert!(msg[3..].iter().all(|&b| b == 0));
    assert_eq!(command_frame(&[]), [0u8; 32]);
}

#[test]
fn frames_are_cut_at_32_bytes() {
    let data: Vec<u8> = (1..=40).collect();
    let msg = command_frame(&data);
    assert_eq!(msg.to_vec(), data[..32].to_vec());
}

#[test]
fn requests_carry_their_commands() {
    assert_eq!(layer_count_request(), reply(&[0x11]));
    assert_eq!(keycode_request(1, 9, 5), reply(&[0x04, 1, 9, 5]));
    assert_eq!(matrix_state_request(), reply(&[0x02, 0x03]));
}

#[test]
fn probe_accepts_the_vial_interface_only() {
    assert!(probe_accepts(32, &reply(&[0x11, 4])));
    assert!(!probe_accepts(0, &reply(&[0x11, 4])));
    assert!(!probe_accepts(32, &reply(&[0x11, 0])));
    assert!(!probe_accepts(32, &reply(&[0x12, 4])));
}

#[test]
fn layer_count_is_the_second_byte() {
    assert_eq!(layer_count_from_response(&reply(&[0x11, 4])), 4);
    assert_eq!(layer_count_from_response(&reply(&[0x11, 255])), 255);
}

#[test]
fn keycodes_are_big_endian() {
    assert_eq!(keycode_from_response(&reply(&[0x04, 0, 1, 2, 0x51, 0x02])), 0x5102);
    assert_eq!(keycode_from_response(&reply(&[0x04, 0, 0, 0, 0x00, 0x04])), 0x0004);
    assert_eq!(keycode_from_response(&reply(&[0x04, 0, 0, 0, 0xFF, 0xFF])), 0xFFFF);
}

#[test]
fn matrix_bits_become_positions_in_row_major_order() {
    // row 0: cols 0 and 5; row 3: col 2; row 9: all six columns; bit 6 of row 4 is outside the matrix.
    let resp = reply(&[0x02, 0x03, 0b10_0001, 0, 0, 0b100, 0b100_0000, 0, 0, 0, 0, 0b11_1111]);
    let state = matrix_state_from_response(&resp);
    assert_eq!(
        state.pressed,
        vec![(0, 0), (0, 5), (3, 2), (9, 0), (9, 1), (9, 2), (9, 3), (9, 4), (9, 5)]
    );
}

#[test]
fn empty_matrix_has_no_keys_held() {
    let resp = reply(&[0x02, 0x03]);
    assert!(matrix_state_from_response(&resp).pressed.is_empty());
}

#[test]
fn bytes_after_the_matrix_are_ignored() {
    let mut resp = reply(&[0x02, 0x03]);
    resp[12] = 0xFF;
    resp[31] = 0xFF;
    assert!(matrix_state_from_response(&resp).pressed.is_empty());
}

#[test]
fn reader_asks_for_every_position_in_order_and_builds_the_keymap() {
    let mut reader = KeymapReader::new(2);
    let mut asked = Vec::new();
    while let Some(req) = reader.next_request() {
        assert_eq!(req[0], 0x04);
        let (layer, row, col) = (req[1], req[2], req[3]);
        asked.push((layer, row, col));
        let code = (layer as u16) * 1000 + (row as u16) * 10 + col as u16;
        reader.accept(&reply(&[0x04, layer, row, col, (code >> 8) as u8, code as u8]));
    }
    assert!(reader.is_complete());
    assert_eq!(asked.len(), 120);
    assert_eq!(asked[0], (0, 0, 0));
    assert_eq!(asked[7], (0, 1, 1));
    assert_eq!(asked[60], (1, 0, 0));
    assert_eq!(asked[119], (1, 9, 5));
    let keymap = reader.finish();
    assert_eq!(keymap.num_layers, 2);
    assert_eq!(keymap.layers.len(), 2);
    for l in 0..2 {
        assert_eq!(keymap.layers[l].len(), 10);
        for r in 0..10 {
            assert_eq!(keymap.layers[l][r].len(), 6);
            for c in 0..6 {
                assert_eq!(keymap.layers[l][r][c], (l * 1000 + r * 10 + c) as u16);
            }
        }
    }
}

#[test]
fn reader_for_no_layers_is_complete_at_once() {
    let reader = KeymapReader::new(0);
    assert!(reader.is_complete());
    assert!(reader.next_request().is_none());
    let keymap = reader.finish();
    assert_eq!(keymap.num_layers, 0);
    assert!(keymap.layers.is_empty());
}
