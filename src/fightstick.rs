use vstd::prelude::*;

use crate::usart::{UsartCommand, SEND_DATA};

verus! {

/// The wire byte of an axis value: the value shifted up by 127, modulo 256.
/// On the axis range `-127..=127` this is exactly `v + 127`.
pub open spec fn axis_byte(v: i8) -> u8 {
    ((v as int + 127) % 256) as u8
}

/// The axis value a wire byte stands for: the inverse of `axis_byte`.
pub open spec fn axis_value(b: u8) -> i8 {
    let d = b as int - 127;
    (if d > 127 { d - 256 } else { d }) as i8
}

/// Encodes one axis value as its wire byte.
pub fn encode_axis(v: i8) -> (r: u8)
    ensures
        r == axis_byte(v),
        -127 <= v ==> r as int == v as int + 127,
{
    let shifted: i16 = v as i16 + 127;
    if shifted < 0 {
        255
    } else {
        shifted as u8
    }
}

/// Decodes a wire byte back into its axis value.
pub fn decode_axis(b: u8) -> (r: i8)
    ensures
        r == axis_value(b),
        b <= 254 ==> r as int == b as int - 127,
{
    let shifted: i16 = b as i16 - 127;
    if shifted > 127 {
        -128
    } else {
        shifted as i8
    }
}

/// Decoding undoes encoding for every axis value, and encoding undoes
/// decoding for every byte.
pub proof fn lemma_axis_round_trip(v: i8, b: u8)
    ensures
        axis_value(axis_byte(v)) == v,
        axis_byte(axis_value(b)) == b,
{
}

/// One sampled input frame: two axes and eleven buttons.
#[derive(Clone, Copy, Debug, PartialEq, Eq, Structural)]
pub struct Fightstick {
    pub x: i8,
    pub y: i8,
    pub button_0: bool,
    pub button_1: bool,
    pub button_2: bool,
    pub button_3: bool,
    pub button_4: bool,
    pub button_5: bool,
    pub button_6: bool,
    pub button_7: bool,
    pub button_8: bool,
    pub button_9: bool,
    pub button_10: bool,
}

/// The four wire bytes of a gamepad state:
/// `[axis_x, axis_y, buttons_lo, buttons_hi]`.
#[derive(Clone, Copy, Debug, Eq)]
pub struct FightstickDescriptor(pub [u8; 4]);

/// The bit that a pressed button at position `index` sets in its byte.
pub open spec fn flag_bit(val: bool, index: u8) -> u8 {
    if val {
        (1u8 << index) as u8
    } else {
        0u8
    }
}

/// Whether bit `index` of `byte` is set.
pub open spec fn bit_is_set(byte: u8, index: u8) -> bool {
    (byte >> index) & 1u8 == 1u8
}

/// Buttons 0..=7 packed as bits 0..=7.
pub open spec fn buttons_lo(f: Fightstick) -> u8 {
    flag_bit(f.button_0, 0) | flag_bit(f.button_1, 1) | flag_bit(f.button_2, 2) | flag_bit(
        f.button_3,
        3,
    ) | flag_bit(f.button_4, 4) | flag_bit(f.button_5, 5) | flag_bit(f.button_6, 6) | flag_bit(
        f.button_7,
        7,
    )
}

/// Buttons 8..=10 packed as bits 0..=2; bits 3..=7 stay clear.
pub open spec fn buttons_hi(f: Fightstick) -> u8 {
    flag_bit(f.button_8, 0) | flag_bit(f.button_9, 1) | flag_bit(f.button_10, 2)
}

/// Byte `index` of the encoding of `f`, or `None` past the fourth byte.
pub open spec fn descriptor_byte(f: Fightstick, index: u8) -> Option<u8> {
    if index == 0 {
        Some(axis_byte(f.x))
    } else if index == 1 {
        Some(axis_byte(f.y))
    } else if index == 2 {
        Some(buttons_lo(f))
    } else if index == 3 {
        Some(buttons_hi(f))
    } else {
        None
    }
}

/// The four wire bytes of `f`.
pub open spec fn encoded(f: Fightstick) -> Seq<u8> {
    seq![axis_byte(f.x), axis_byte(f.y), buttons_lo(f), buttons_hi(f)]
}

/// The input frame that four wire bytes stand for.
pub open spec fn decoded(d: Seq<u8>) -> Fightstick
    recommends
        d.len() == 4,
{
    Fightstick {
        x: axis_value(d[0]),
        y: axis_value(d[1]),
        button_0: bit_is_set(d[2], 0),
        button_1: bit_is_set(d[2], 1),
        button_2: bit_is_set(d[2], 2),
        button_3: bit_is_set(d[2], 3),
        button_4: bit_is_set(d[2], 4),
        button_5: bit_is_set(d[2], 5),
        button_6: bit_is_set(d[2], 6),
        button_7: bit_is_set(d[2], 7),
        button_8: bit_is_set(d[3], 0),
        button_9: bit_is_set(d[3], 1),
        button_10: bit_is_set(d[3], 2),
    }
}

/// The descriptor sent while no input has arrived: axes centred, no button.
pub open spec fn idle_bytes() -> Seq<u8> {
    seq![127u8, 127u8, 0u8, 0u8]
}

proof fn lemma_unpack_low(b0: bool, b1: bool, b2: bool, b3: bool, b4: bool, b5: bool, b6: bool, b7: bool)
    by (bit_vector)
    ensures
        ({
            let byte = flag_bit(b0, 0) | flag_bit(b1, 1) | flag_bit(b2, 2) | flag_bit(b3, 3)
                | flag_bit(b4, 4) | flag_bit(b5, 5) | flag_bit(b6, 6) | flag_bit(b7, 7);
            &&& bit_is_set(byte, 0) == b0
            &&& bit_is_set(byte, 1) == b1
            &&& bit_is_set(byte, 2) == b2
            &&& bit_is_set(byte, 3) == b3
            &&& bit_is_set(byte, 4) == b4
            &&& bit_is_set(byte, 5) == b5
            &&& bit_is_set(byte, 6) == b6
            &&& bit_is_set(byte, 7) == b7
        }),
{
}

proof fn lemma_unpack_high(b8: bool, b9: bool, b10: bool)
    by (bit_vector)
    ensures
        ({
            let byte = flag_bit(b8, 0) | flag_bit(b9, 1) | flag_bit(b10, 2);
            &&& bit_is_set(byte, 0) == b8
            &&& bit_is_set(byte, 1) == b9
            &&& bit_is_set(byte, 2) == b10
            &&& byte & 0xf8u8 == 0
        }),
{
}

/// Packing the eleven buttons into two bytes and unpacking them gives back
/// every button; bits 3..=7 of the high byte are always clear.
pub proof fn lemma_buttons_round_trip(f: Fightstick)
    ensures
        forall|i: int| 0 <= i < 8 ==> #[trigger] bit_is_set(buttons_lo(f), i as u8) == f.button(i),
        forall|i: int| 0 <= i < 3 ==> #[trigger] bit_is_set(buttons_hi(f), i as u8) == f.button(i + 8),
        buttons_hi(f) & 0xf8u8 == 0,
{
    lemma_unpack_low(
        f.button_0,
        f.button_1,
        f.button_2,
        f.button_3,
        f.button_4,
        f.button_5,
        f.button_6,
        f.button_7,
    );
    lemma_unpack_high(f.button_8, f.button_9, f.button_10);
}

/// Decoding the wire bytes of an input frame gives back that frame.
pub proof fn lemma_frame_round_trip(f: Fightstick)
    ensures
        decoded(encoded(f)) == f,
{
    lemma_unpack_low(
        f.button_0,
        f.button_1,
        f.button_2,
        f.button_3,
        f.button_4,
        f.button_5,
        f.button_6,
        f.button_7,
    );
    lemma_unpack_high(f.button_8, f.button_9, f.button_10);
    lemma_axis_round_trip(f.x, 0);
    lemma_axis_round_trip(f.y, 0);
}

fn left_shift_bit(val: bool, index: u8) -> (r: u8)
    requires
        index < 8,
    ensures
        r == flag_bit(val, index),
{
    if val {
        1u8 << index
    } else {
        0
    }
}

impl Fightstick {
    /// Whether button `i` (0..=10) is pressed.
    pub open spec fn button(self, i: int) -> bool {
        if i == 0 {
            self.button_0
        } else if i == 1 {
            self.button_1
        } else if i == 2 {
            self.button_2
        } else if i == 3 {
            self.button_3
        } else if i == 4 {
            self.button_4
        } else if i == 5 {
            self.button_5
        } else if i == 6 {
            self.button_6
        } else if i == 7 {
            self.button_7
        } else if i == 8 {
            self.button_8
        } else if i == 9 {
            self.button_9
        } else {
            self.button_10
        }
    }

    /// Byte `index` of the wire encoding of this frame; `None` for an index
    /// past the fourth byte.
    pub fn get_descriptor_index(&self, index: u8) -> (r: Option<u8>)
        ensures
            r == descriptor_byte(*self, index),
    {
        match index {
            0 => Some(encode_axis(self.x)),
            1 => Some(encode_axis(self.y)),
            2 => Some(
                left_shift_bit(self.button_0, 0) | left_shift_bit(self.button_1, 1)
                    | left_shift_bit(self.button_2, 2) | left_shift_bit(self.button_3, 3)
                    | left_shift_bit(self.button_4, 4) | left_shift_bit(self.button_5, 5)
                    | left_shift_bit(self.button_6, 6) | left_shift_bit(self.button_7, 7),
            ),
            3 => Some(
                left_shift_bit(self.button_8, 0) | left_shift_bit(self.button_9, 1)
                    | left_shift_bit(self.button_10, 2),
            ),
            _ => None,
        }
    }

    /// The wire descriptor of this frame.
    pub fn to_descriptor(&self) -> (r: FightstickDescriptor)
        ensures
            r.0@ == encoded(*self),
    {
        let x = encode_axis(self.x);
        let y = encode_axis(self.y);
        let lo = match self.get_descriptor_index(2) {
            Some(b) => b,
            None => 0,
        };
        let hi = match self.get_descriptor_index(3) {
            Some(b) => b,
            None => 0,
        };
        let r = FightstickDescriptor([x, y, lo, hi]);
        assert(r.0@ =~= encoded(*self));
        r
    }

    /// The input frame that a wire descriptor stands for.
    pub fn from_descriptor(d: &FightstickDescriptor) -> (r: Fightstick)
        ensures
            r == decoded(d.0@),
    {
        let lo = d.0[2];
        let hi = d.0[3];
        Fightstick {
            x: decode_axis(d.0[0]),
            y: decode_axis(d.0[1]),
            button_0: (lo >> 0u8) & 1 == 1,
            button_1: (lo >> 1u8) & 1 == 1,
            button_2: (lo >> 2u8) & 1 == 1,
            button_3: (lo >> 3u8) & 1 == 1,
            button_4: (lo >> 4u8) & 1 == 1,
            button_5: (lo >> 5u8) & 1 == 1,
            button_6: (lo >> 6u8) & 1 == 1,
            button_7: (lo >> 7u8) & 1 == 1,
            button_8: (hi >> 0u8) & 1 == 1,
            button_9: (hi >> 1u8) & 1 == 1,
            button_10: (hi >> 2u8) & 1 == 1,
        }
    }
}

impl Default for Fightstick {
    fn default() -> (r: Fightstick)
        ensures
            r.x == 0 && r.y == 0,
            forall|i: int| 0 <= i <= 10 ==> !#[trigger] r.button(i),
    {
        Fightstick {
            x: 0,
            y: 0,
            button_0: false,
            button_1: false,
            button_2: false,
            button_3: false,
            button_4: false,
            button_5: false,
            button_6: false,
            button_7: false,
            button_8: false,
            button_9: false,
            button_10: false,
        }
    }
}

impl From<Fightstick> for FightstickDescriptor {
    fn from(f: Fightstick) -> (r: FightstickDescriptor)
        ensures
            r.0@ == encoded(f),
    {
        let r = f.to_descriptor();
        assert(r.0 =~= [axis_byte(f.x), axis_byte(f.y), buttons_lo(f), buttons_hi(f)]);
        r
    }
}

impl vstd::std_specs::convert::FromSpecImpl<Fightstick> for FightstickDescriptor {
    open spec fn obeys_from_spec() -> bool {
        true
    }

    open spec fn from_spec(v: Fightstick) -> FightstickDescriptor {
        FightstickDescriptor(
            [axis_byte(v.x), axis_byte(v.y), buttons_lo(v), buttons_hi(v)],
        )
    }
}

impl FightstickDescriptor {
    /// The descriptor of an idle gamepad: `[127, 127, 0, 0]`.
    pub fn idle() -> (r: FightstickDescriptor)
        ensures
            r.0@ == idle_bytes(),
    {
        let r = FightstickDescriptor([127, 127, 0, 0]);
        assert(r.0@ =~= idle_bytes());
        r
    }

    /// The data frame the controller sends: `SEND_DATA` followed by the four
    /// descriptor bytes.
    pub fn build_send_data_message(&self) -> (r: [u8; 5])
        ensures
            r@ == seq![SEND_DATA].add(self.0@),
    {
        let r = [UsartCommand::SendData.into(), self.0[0], self.0[1], self.0[2], self.0[3]];
        assert(r@ =~= seq![SEND_DATA].add(self.0@));
        r
    }
}

impl PartialEq for FightstickDescriptor {
    fn eq(&self, other: &FightstickDescriptor) -> (r: bool)
        ensures
            r == (self.0@ == other.0@),
    {
        let r = self.0[0] == other.0[0] && self.0[1] == other.0[1] && self.0[2] == other.0[2]
            && self.0[3] == other.0[3];
        proof {
            if r {
                assert(self.0@ =~= other.0@);
            }
        }
        r
    }
}

impl vstd::std_specs::cmp::PartialEqSpecImpl for FightstickDescriptor {
    open spec fn obeys_eq_spec() -> bool {
        true
    }

    open spec fn eq_spec(&self, other: &FightstickDescriptor) -> bool {
        self.0@ == other.0@
    }
}

impl Default for FightstickDescriptor {
    fn default() -> (r: FightstickDescriptor)
        ensures
            r.0@ == seq![0u8, 0u8, 0u8, 0u8],
    {
        let r = FightstickDescriptor([0, 0, 0, 0]);
        assert(r.0@ =~= seq![0u8, 0u8, 0u8, 0u8]);
        r
    }
}

} // verus!
