//! The Vial/VIA raw-HID messages the overlay exchanges with the keyboard:
//! the requests it sends and what it reads from the replies.
use vstd::prelude::*;

use crate::vial::{KeymapData, MatrixState};

verus! {

/// USB vendor id of the Sofle keyboard.
pub const SOFLE_VID: u16 = 0xFC32;
/// USB product id of the Sofle keyboard.
pub const SOFLE_PID: u16 = 0x0287;
/// Rows of the switch matrix (five per half).
pub const MATRIX_ROWS: usize = 10;
/// Columns of the switch matrix.
pub const MATRIX_COLS: usize = 6;
/// Length of every raw-HID message, both ways.
pub const MSG_LEN: usize = 32;

/// VIA command `get_keyboard_value`.
pub const CMD_GET_KEYBOARD_VALUE: u8 = 0x02;
/// Sub-command of `get_keyboard_value` that reads the switch matrix.
pub const SUBCMD_SWITCH_MATRIX_STATE: u8 = 0x03;
/// VIA command `dynamic_keymap_get_keycode`.
pub const CMD_GET_KEYCODE: u8 = 0x04;
/// VIA command `dynamic_keymap_get_layer_count`.
pub const CMD_GET_LAYER_COUNT: u8 = 0x11;

/// The message that carries `data`: its first 32 bytes, zero-padded to 32.
pub open spec fn frame(data: Seq<u8>) -> Seq<u8> {
    Seq::new(32, |i: int| if i < data.len() { data[i] } else { 0u8 })
}

/// Whether a HID interface belongs to the Sofle keyboard.
pub fn is_sofle_device(vendor_id: u16, product_id: u16) -> (yes: bool)
    ensures
        yes == (vendor_id == SOFLE_VID && product_id == SOFLE_PID),
{
    vendor_id == SOFLE_VID && product_id == SOFLE_PID
}

/// Lays out a command as a 32-byte message: the data first (cut at 32 bytes),
/// then zeros.
pub fn command_frame(data: &[u8]) -> (msg: [u8; MSG_LEN])
    ensures
        msg@ == frame(data@),
{
    let mut msg = [0u8; MSG_LEN];
    let len = if data.len() < MSG_LEN { data.len() } else { MSG_LEN };
    let mut i: usize = 0;
    while i < len
        invariant
            len <= data@.len(),
            len <= MSG_LEN,
            i <= len,
            msg@.len() == MSG_LEN,
            forall|j: int| 0 <= j < i ==> msg@[j] == data@[j],
            forall|j: int| i <= j < MSG_LEN ==> msg@[j] == 0u8,
        decreases len - i,
    {
        msg[i] = data[i];
        i = i + 1;
    }
    assert(msg@ =~= frame(data@));
    msg
}

/// The request for the number of layers; the interface that answers it in
/// kind is the Vial one.
pub fn layer_count_request() -> (msg: [u8; MSG_LEN])
    ensures
        msg@ == frame(seq![CMD_GET_LAYER_COUNT]),
{
    let data: [u8; 1] = [CMD_GET_LAYER_COUNT];
    let msg = command_frame(data.as_slice());
    assert(data@ =~= seq![CMD_GET_LAYER_COUNT]);
    msg
}

/// Whether a reply to the layer-count request comes from the Vial interface:
/// something was read, it echoes the command and reports at least one layer.
pub fn probe_accepts(read: usize, resp: &[u8; MSG_LEN]) -> (yes: bool)
    ensures
        yes == (read > 0 && resp@[0] == CMD_GET_LAYER_COUNT && resp@[1] > 0),
{
    read > 0 && resp[0] == CMD_GET_LAYER_COUNT && resp[1] > 0
}

/// The number of layers in a reply to the layer-count request.
pub fn layer_count_from_response(resp: &[u8; MSG_LEN]) -> (count: usize)
    ensures
        count == resp@[1],
{
    resp[1] as usize
}

/// The request for the keycode at `(layer, row, col)`.
pub fn keycode_request(layer: u8, row: u8, col: u8) -> (msg: [u8; MSG_LEN])
    ensures
        msg@ == frame(seq![CMD_GET_KEYCODE, layer, row, col]),
{
    let data: [u8; 4] = [CMD_GET_KEYCODE, layer, row, col];
    let msg = command_frame(data.as_slice());
    assert(data@ =~= seq![CMD_GET_KEYCODE, layer, row, col]);
    msg
}

/// The keycode in a reply to a keycode request: bytes 4 and 5, big-endian.
pub open spec fn reply_keycode(resp: Seq<u8>) -> u16 {
    (resp[4] * 256 + resp[5]) as u16
}

/// The keycode in a reply to a keycode request.
pub fn keycode_from_response(resp: &[u8; MSG_LEN]) -> (kc: u16)
    ensures
        kc == reply_keycode(resp@),
{
    let hi = resp[4];
    let lo = resp[5];
    let kc = ((hi as u16) << 8) | lo as u16;
    assert(((hi as u16) << 8) | lo as u16 == hi * 256 + lo) by (bit_vector);
    kc
}

/// The request for the state of the switch matrix.
pub fn matrix_state_request() -> (msg: [u8; MSG_LEN])
    ensures
        msg@ == frame(seq![CMD_GET_KEYBOARD_VALUE, SUBCMD_SWITCH_MATRIX_STATE]),
{
    let data: [u8; 2] = [CMD_GET_KEYBOARD_VALUE, SUBCMD_SWITCH_MATRIX_STATE];
    let msg = command_frame(data.as_slice());
    assert(data@ =~= seq![CMD_GET_KEYBOARD_VALUE, SUBCMD_SWITCH_MATRIX_STATE]);
    msg
}

/// Bit `col` of a matrix row byte: the key in that column is down.
pub open spec fn key_bit(b: u8, col: usize) -> bool {
    b & (1u8 << col) != 0
}

/// The held-down keys among the first `n` columns of row `r`, whose bits are `b`.
pub open spec fn row_pressed(b: u8, r: usize, n: int) -> Seq<(usize, usize)>
    decreases n,
{
    if n <= 0 {
        Seq::empty()
    } else {
        row_pressed(b, r, n - 1) + if key_bit(b, (n - 1) as usize) {
            seq![(r, (n - 1) as usize)]
        } else {
            Seq::empty()
        }
    }
}

/// The held-down keys of the first `n` rows, in row-major order; the bitmap
/// holds one byte per row (six columns fit in one byte).
pub open spec fn matrix_pressed(bitmap: Seq<u8>, n: int) -> Seq<(usize, usize)>
    decreases n,
{
    if n <= 0 {
        Seq::empty()
    } else {
        matrix_pressed(bitmap, n - 1) + row_pressed(bitmap[n - 1], (n - 1) as usize, MATRIX_COLS as int)
    }
}

/// The held-down keys in a reply to the matrix request, in row-major order:
/// the bitmap starts after the two bytes of the command echo.
pub open spec fn reply_pressed(resp: Seq<u8>) -> Seq<(usize, usize)> {
    matrix_pressed(resp.subrange(2, resp.len() as int), MATRIX_ROWS as int)
}

proof fn lemma_empty_row(r: usize, n: int)
    requires
        n <= 8,
    ensures
        row_pressed(0u8, r, n) == Seq::<(usize, usize)>::empty(),
    decreases n,
{
    if n > 0 {
        lemma_empty_row(r, n - 1);
        let c = (n - 1) as usize;
        assert(0u8 & (1u8 << c) == 0) by (bit_vector);
        assert(row_pressed(0u8, r, n) =~= Seq::<(usize, usize)>::empty());
    }
}

proof fn lemma_row_pressed_contains(b: u8, r: usize, n: int, pos: (usize, usize))
    requires
        0 <= n <= 8,
    ensures
        row_pressed(b, r, n).contains(pos) <==> (pos.0 == r && pos.1 < n && key_bit(b, pos.1)),
    decreases n,
{
    if n > 0 {
        lemma_row_pressed_contains(b, r, n - 1, pos);
        let prev = row_pressed(b, r, n - 1);
        let last: Seq<(usize, usize)> = if key_bit(b, (n - 1) as usize) { seq![(r, (n - 1) as usize)] } else { Seq::empty() };
        assert(row_pressed(b, r, n) == prev + last);
        if (prev + last).contains(pos) {
            let i = choose|i: int| 0 <= i < (prev + last).len() && (prev + last)[i] == pos;
            if i < prev.len() {
                assert(prev[i] == pos);
            }
        }
        if pos.0 == r && pos.1 < n && key_bit(b, pos.1) {
            if pos.1 < n - 1 {
                let i = choose|i: int| 0 <= i < prev.len() && prev[i] == pos;
                assert((prev + last)[i] == pos);
            } else {
                assert((prev + last)[prev.len() as int] == pos);
            }
        }
    }
}

proof fn lemma_matrix_pressed_contains(bitmap: Seq<u8>, n: int, pos: (usize, usize))
    requires
        0 <= n <= bitmap.len(),
        n <= MATRIX_ROWS,
    ensures
        matrix_pressed(bitmap, n).contains(pos) <==> (pos.0 < n && pos.1 < MATRIX_COLS && key_bit(bitmap[pos.0 as int], pos.1)),
    decreases n,
{
    if n > 0 {
        lemma_matrix_pressed_contains(bitmap, n - 1, pos);
        lemma_row_pressed_contains(bitmap[n - 1], (n - 1) as usize, MATRIX_COLS as int, pos);
        let prev = matrix_pressed(bitmap, n - 1);
        let last = row_pressed(bitmap[n - 1], (n - 1) as usize, MATRIX_COLS as int);
        assert(matrix_pressed(bitmap, n) == prev + last);
        if (prev + last).contains(pos) {
            let i = choose|i: int| 0 <= i < (prev + last).len() && (prev + last)[i] == pos;
            if i < prev.len() {
                assert(prev[i] == pos);
            } else {
                assert(last[i - prev.len()] == pos);
            }
        }
        if pos.0 < n && pos.1 < MATRIX_COLS && key_bit(bitmap[pos.0 as int], pos.1) {
            if pos.0 < n - 1 {
                let i = choose|i: int| 0 <= i < prev.len() && prev[i] == pos;
                assert((prev + last)[i] == pos);
            } else {
                let i = choose|i: int| 0 <= i < last.len() && last[i] == pos;
                assert((prev + last)[prev.len() + i] == pos);
            }
        }
    }
}

/// A key is listed as held down in a matrix reply exactly when it lies in the
/// matrix and its bit is set: bit `col` of byte `2 + row`.
pub proof fn matrix_reply_lists_exactly_the_set_bits(resp: Seq<u8>, pos: (usize, usize))
    requires
        resp.len() == MSG_LEN,
    ensures
        reply_pressed(resp).contains(pos) <==> (pos.0 < MATRIX_ROWS && pos.1 < MATRIX_COLS && key_bit(resp[2 + pos.0], pos.1)),
{
    let bitmap = resp.subrange(2, resp.len() as int);
    lemma_matrix_pressed_contains(bitmap, MATRIX_ROWS as int, pos);
    if pos.0 < MATRIX_ROWS {
        assert(bitmap[pos.0 as int] == resp[2 + pos.0]);
    }
}

/// Reads which keys are held down from a reply to the matrix request.
pub fn matrix_state_from_response(resp: &[u8; MSG_LEN]) -> (state: MatrixState)
    ensures
        state.pressed@ == reply_pressed(resp@),
{
    let ghost bitmap = resp@.subrange(2, MSG_LEN as int);
    let mut pressed: Vec<(usize, usize)> = Vec::new();
    let mut row: usize = 0;
    while row < MATRIX_ROWS
        invariant
            row <= MATRIX_ROWS,
            bitmap == resp@.subrange(2, MSG_LEN as int),
            pressed@ == matrix_pressed(bitmap, row as int),
        decreases MATRIX_ROWS - row,
    {
        let b = resp[2 + row];
        assert(b == bitmap[row as int]);
        let ghost before = pressed@;
        if b == 0 {
            proof {
                lemma_empty_row(row, MATRIX_COLS as int);
            }
            assert(pressed@ =~= before + row_pressed(b, row, MATRIX_COLS as int));
            row = row + 1;
            continue;
        }
        let mut col: usize = 0;
        while col < MATRIX_COLS
            invariant
                col <= MATRIX_COLS,
                pressed@ == before + row_pressed(b, row, col as int),
            decreases MATRIX_COLS - col,
        {
            if b & (1u8 << col) != 0 {
                pressed.push((row, col));
            }
            assert(pressed@ =~= before + row_pressed(b, row, col + 1));
            col = col + 1;
        }
        row = row + 1;
    }
    MatrixState { pressed }
}


/// Keycodes asked for per layer: one per matrix position.
pub open spec fn keys_per_layer() -> int {
    (MATRIX_ROWS * MATRIX_COLS) as int
}

/// The matrix position `(layer, row, col)` that the `k`-th keycode request
/// asks for: layer by layer, row by row, column by column.
pub open spec fn position_at(k: int) -> (int, int, int) {
    (k / keys_per_layer(), (k % keys_per_layer()) / (MATRIX_COLS as int), k % (MATRIX_COLS as int))
}

/// `keymap` holds `num_layers` layers of 10 rows of 6 keycodes, and the keycode
/// at `(layer, row, col)` is the one received for that position: `codes`
/// lists them in request order.
pub open spec fn keymap_from_codes(keymap: KeymapData, num_layers: nat, codes: Seq<u16>) -> bool {
    &&& keymap.num_layers == num_layers
    &&& keymap.layers@.len() == num_layers
    &&& forall|l: int| 0 <= l < num_layers ==> (#[trigger] keymap.layers@[l])@.len() == MATRIX_ROWS
    &&& forall|l: int, r: int|
        0 <= l < num_layers && 0 <= r < MATRIX_ROWS ==> (#[trigger] keymap.layers@[l]@[r])@.len() == MATRIX_COLS
    &&& forall|l: int, r: int, c: int|
        0 <= l < num_layers && 0 <= r < MATRIX_ROWS && 0 <= c < MATRIX_COLS
            ==> #[trigger] keymap.layers@[l]@[r]@[c] == codes[l * keys_per_layer() + r * (MATRIX_COLS as int) + c]
}

proof fn lemma_position_at(k: int, l: int, r: int, c: int)
    requires
        k == l * 60 + r * 6 + c,
        0 <= l,
        0 <= r < 10,
        0 <= c < 6,
    ensures
        position_at(k) == (l, r, c),
{
    assert(k / 60 == l && k % 60 == r * 6 + c) by (nonlinear_arith)
        requires
            k == l * 60 + r * 6 + c,
            0 <= l,
            0 <= r < 10,
            0 <= c < 6,
    ;
    assert((r * 6 + c) / 6 == r && k % 6 == c) by (nonlinear_arith)
        requires
            k == l * 60 + r * 6 + c,
            0 <= l,
            0 <= r < 10,
            0 <= c < 6,
    ;
}

/// Reads a whole keymap, one keycode request at a time: it says which
/// request to send next and takes each reply in turn.
pub struct KeymapReader {
    num_layers: u8,
    layer: u8,
    row: u8,
    col: u8,
    codes: Vec<u16>,
}

impl KeymapReader {
    /// The reader's counters point at the position after the last received
    /// keycode.
    pub closed spec fn wf(self) -> bool {
        &&& self.codes@.len() == self.layer * 60 + self.row * 6 + self.col
        &&& self.row < MATRIX_ROWS
        &&& self.col < MATRIX_COLS
        &&& self.layer <= self.num_layers
        &&& self.layer == self.num_layers ==> self.row == 0 && self.col == 0
    }

    /// The number of layers being read.
    pub closed spec fn layer_count(self) -> nat {
        self.num_layers as nat
    }

    /// The keycodes received so far, in request order.
    pub closed spec fn received(self) -> Seq<u16> {
        self.codes@
    }

    /// Every position has been read.
    pub open spec fn complete(self) -> bool {
        self.received().len() == self.layer_count() * keys_per_layer()
    }

    /// A reader for a keymap of `num_layers` layers, with nothing read yet.
    pub fn new(num_layers: u8) -> (reader: Self)
        ensures
            reader.wf(),
            reader.layer_count() == num_layers,
            reader.received() == Seq::<u16>::empty(),
    {
        let codes = Vec::with_capacity(num_layers as usize * MATRIX_ROWS * MATRIX_COLS);
        KeymapReader { num_layers, layer: 0, row: 0, col: 0, codes }
    }

    /// Whether every position has been read.
    pub fn is_complete(&self) -> (done: bool)
        requires
            self.wf(),
        ensures
            done == self.complete(),
            self.received().len() <= self.layer_count() * keys_per_layer(),
    {
        assert(self.layer < self.num_layers ==> self.codes@.len() < self.num_layers * 60) by (nonlinear_arith)
            requires
                self.codes@.len() == self.layer * 60 + self.row * 6 + self.col,
                self.row < 10,
                self.col < 6,
        ;
        assert(self.codes@.len() <= self.num_layers * 60) by (nonlinear_arith)
            requires
                self.codes@.len() == self.layer * 60 + self.row * 6 + self.col,
                self.row < 10,
                self.col < 6,
                self.layer <= self.num_layers,
                self.layer == self.num_layers ==> self.row == 0 && self.col == 0,
        ;
        self.layer == self.num_layers
    }

    /// The next request to send: the keycode request for the next position in
    /// order, or `None` once the whole keymap has been read.
    pub fn next_request(&self) -> (msg: Option<[u8; MSG_LEN]>)
        requires
            self.wf(),
        ensures
            msg is None <==> self.complete(),
            msg matches Some(m) ==> {
                let (l, r, c) = position_at(self.received().len() as int);
                &&& 0 <= l < 256 && 0 <= r < 256 && 0 <= c < 256
                &&& m@ == frame(seq![CMD_GET_KEYCODE, l as u8, r as u8, c as u8])
            },
    {
        proof {
            lemma_position_at(self.codes@.len() as int, self.layer as int, self.row as int, self.col as int);
        }
        if self.layer == self.num_layers {
            None
        } else {
            Some(keycode_request(self.layer, self.row, self.col))
        }
    }

    /// Takes the reply to the request `next_request` gave: records its keycode
    /// for the position it asked for.
    pub fn accept(&mut self, resp: &[u8; MSG_LEN])
        requires
            old(self).wf(),
            !old(self).complete(),
        ensures
            final(self).wf(),
            final(self).layer_count() == old(self).layer_count(),
            final(self).received() == old(self).received().push(reply_keycode(resp@)),
    {
        let kc = keycode_from_response(resp);
        self.codes.push(kc);
        if self.col + 1 < MATRIX_COLS as u8 {
            self.col = self.col + 1;
        } else if self.row + 1 < MATRIX_ROWS as u8 {
            self.col = 0;
            self.row = self.row + 1;
        } else {
            self.col = 0;
            self.row = 0;
            self.layer = self.layer + 1;
        }
    }

    /// The keymap read: `num_layers` layers of 10 rows of 6 keycodes, each the
    /// keycode received for its position.
    pub fn finish(self) -> (keymap: KeymapData)
        requires
            self.wf(),
            self.complete(),
        ensures
            keymap_from_codes(keymap, self.layer_count(), self.received()),
    {
        let num_layers = self.num_layers as usize;
        let codes = &self.codes;
        let mut layers: Vec<Vec<Vec<u16>>> = Vec::with_capacity(num_layers);
        let mut layer: usize = 0;
        while layer < num_layers
            invariant
                num_layers == self.num_layers,
                codes@.len() == num_layers * 60,
                layer <= num_layers,
                layers@.len() == layer,
                forall|l: int| 0 <= l < layer ==> (#[trigger] layers@[l])@.len() == MATRIX_ROWS,
                forall|l: int, r: int|
                    0 <= l < layer && 0 <= r < MATRIX_ROWS ==> (#[trigger] layers@[l]@[r])@.len() == MATRIX_COLS,
                forall|l: int, r: int, c: int|
                    0 <= l < layer && 0 <= r < MATRIX_ROWS && 0 <= c < MATRIX_COLS
                        ==> #[trigger] layers@[l]@[r]@[c] == codes@[l * 60 + r * 6 + c],
            decreases num_layers - layer,
        {
            let mut rows: Vec<Vec<u16>> = Vec::with_capacity(MATRIX_ROWS);
            let mut row: usize = 0;
            while row < MATRIX_ROWS
                invariant
                    codes@.len() == num_layers * 60,
                    num_layers <= 255,
                    layer < num_layers,
                    row <= MATRIX_ROWS,
                    rows@.len() == row,
                    forall|r: int| 0 <= r < row ==> (#[trigger] rows@[r])@.len() == MATRIX_COLS,
                    forall|r: int, c: int|
                        0 <= r < row && 0 <= c < MATRIX_COLS ==> #[trigger] rows@[r]@[c] == codes@[layer * 60 + r * 6 + c],
                decreases MATRIX_ROWS - row,
            {
                let mut cols: Vec<u16> = Vec::with_capacity(MATRIX_COLS);
                let mut col: usize = 0;
                while col < MATRIX_COLS
                    invariant
                        codes@.len() == num_layers * 60,
                        num_layers <= 255,
                        layer < num_layers,
                        row < MATRIX_ROWS,
                        col <= MATRIX_COLS,
                        cols@.len() == col,
                        forall|c: int| 0 <= c < col ==> #[trigger] cols@[c] == codes@[layer * 60 + row * 6 + c],
                    decreases MATRIX_COLS - col,
                {
                    assert(layer * 60 + row * 6 + col < num_layers * 60) by (nonlinear_arith)
                        requires
                            layer < num_layers,
                            row < 10,
                            col < 6,
                    ;
                    cols.push(codes[layer * 60 + row * 6 + col]);
                    col = col + 1;
                }
                rows.push(cols);
                row = row + 1;
            }
            layers.push(rows);
            layer = layer + 1;
        }
        KeymapData { layers, num_layers }
    }
}

} // verus!
