//! Kinds of circuit variable and how their values are encoded.
//!
//! A value of a variable is public data in one of two encodings: as field
//! elements, which the proof system works on, or as bytes in a fixed-width,
//! big-endian layout for use outside of it. The container appends these
//! encodings and never looks into them.
use vstd::prelude::*;

verus! {

/// A kind of circuit variable whose values are encoded as field elements.
pub trait CircuitVariable {
    /// The values that a variable of this kind takes.
    type ValueType;

    /// The number of field elements that encode one value.
    spec fn spec_nb_elements() -> nat;

    /// The field elements that encode `value`.
    spec fn spec_elements(value: Self::ValueType) -> Seq<u64>;

    /// The value that `elements` encode.
    spec fn spec_from_elements(elements: Seq<u64>) -> Self::ValueType;

    /// Every encoding has the length of this kind, and decodes to the value
    /// that it was made from.
    proof fn encoding_round_trip(value: Self::ValueType)
        ensures
            Self::spec_elements(value).len() == Self::spec_nb_elements(),
            Self::spec_from_elements(Self::spec_elements(value)) == value,
    ;

    /// The number of field elements that encode one value.
    fn nb_elements() -> (n: usize)
        ensures
            n == Self::spec_nb_elements(),
    ;

    /// Encodes `value` as field elements.
    fn elements(value: Self::ValueType) -> (out: Vec<u64>)
        ensures
            out@ == Self::spec_elements(value),
    ;

    /// Decodes the value that `elements` encode.
    fn from_elements(elements: &[u64]) -> (value: Self::ValueType)
        requires
            elements@.len() == Self::spec_nb_elements(),
        ensures
            value == Self::spec_from_elements(elements@),
    ;
}

/// A kind of circuit variable whose values also have a byte encoding.
pub trait EvmVariable: CircuitVariable {
    /// The number of bytes that encode one value.
    spec fn spec_nb_bytes() -> nat;

    /// The bytes that encode `value`.
    spec fn spec_encode_value(value: Self::ValueType) -> Seq<u8>;

    /// Every byte encoding has the width of this kind.
    proof fn encoding_width(value: Self::ValueType)
        ensures
            Self::spec_encode_value(value).len() == Self::spec_nb_bytes(),
    ;

    /// Encodes `value` as bytes.
    fn encode_value(value: Self::ValueType) -> (out: Vec<u8>)
        ensures
            out@ == Self::spec_encode_value(value),
    ;
}

/// A single field element.
#[derive(Debug, Clone, Copy, PartialEq, Eq)]
pub struct Variable;

/// A boolean, encoded as the element one or zero.
#[derive(Debug, Clone, Copy, PartialEq, Eq)]
pub struct BoolVariable;

/// A byte, encoded as its eight bits, most significant first.
#[derive(Debug, Clone, Copy, PartialEq, Eq)]
pub struct ByteVariable;

/// The element that encodes a bit.
pub open spec fn bit_element(bit: bool) -> u64 {
    if bit {
        1
    } else {
        0
    }
}

/// The weight of bit `i` of a byte, counted from the most significant bit.
/// It is zero outside of a byte.
pub open spec fn bit_weight(i: int) -> int {
    if i == 0 {
        128
    } else if i == 1 {
        64
    } else if i == 2 {
        32
    } else if i == 3 {
        16
    } else if i == 4 {
        8
    } else if i == 5 {
        4
    } else if i == 6 {
        2
    } else if i == 7 {
        1
    } else {
        0
    }
}

/// Whether bit `i` of `value` is set, counted from the most significant bit.
pub open spec fn bit_at(value: u8, i: int) -> bool {
    (value as int / bit_weight(i)) % 2 == 1
}

/// What an element adds to a byte when it stands for bit `i`: the weight of
/// that bit if the element is one, and nothing otherwise.
pub open spec fn element_weight(element: u64, i: int) -> int {
    if element == 1 {
        bit_weight(i)
    } else {
        0
    }
}

/// The byte whose bits are the first eight of `elements`, most significant
/// first.
pub open spec fn byte_of_elements(elements: Seq<u64>) -> u8 {
    (element_weight(elements[0], 0) + element_weight(elements[1], 1) + element_weight(
        elements[2],
        2,
    ) + element_weight(elements[3], 3) + element_weight(elements[4], 4) + element_weight(
        elements[5],
        5,
    ) + element_weight(elements[6], 6) + element_weight(elements[7], 7)) as u8
}

/// The eight elements that encode `value`.
pub open spec fn elements_of_byte(value: u8) -> Seq<u64> {
    Seq::new(8, |i: int| bit_element(bit_at(value, i)))
}

impl CircuitVariable for Variable {
    type ValueType = u64;

    open spec fn spec_nb_elements() -> nat {
        1
    }

    open spec fn spec_elements(value: u64) -> Seq<u64> {
        seq![value]
    }

    open spec fn spec_from_elements(elements: Seq<u64>) -> u64 {
        elements[0]
    }

    proof fn encoding_round_trip(value: u64) {
    }

    fn nb_elements() -> (n: usize) {
        1
    }

    fn elements(value: u64) -> (out: Vec<u64>) {
        let mut out: Vec<u64> = Vec::new();
        out.push(value);
        assert(out@ =~= seq![value]);
        out
    }

    fn from_elements(elements: &[u64]) -> (value: u64) {
        elements[0]
    }
}

impl CircuitVariable for BoolVariable {
    type ValueType = bool;

    open spec fn spec_nb_elements() -> nat {
        1
    }

    open spec fn spec_elements(value: bool) -> Seq<u64> {
        seq![bit_element(value)]
    }

    open spec fn spec_from_elements(elements: Seq<u64>) -> bool {
        elements[0] == 1
    }

    proof fn encoding_round_trip(value: bool) {
    }

    fn nb_elements() -> (n: usize) {
        1
    }

    fn elements(value: bool) -> (out: Vec<u64>) {
        let mut out: Vec<u64> = Vec::new();
        out.push(if value { 1 } else { 0 });
        assert(out@ =~= seq![bit_element(value)]);
        out
    }

    fn from_elements(elements: &[u64]) -> (value: bool) {
        elements[0] == 1
    }
}

impl EvmVariable for BoolVariable {
    open spec fn spec_nb_bytes() -> nat {
        1
    }

    open spec fn spec_encode_value(value: bool) -> Seq<u8> {
        seq![if value { 1u8 } else { 0u8 }]
    }

    proof fn encoding_width(value: bool) {
    }

    fn encode_value(value: bool) -> (out: Vec<u8>) {
        let mut out: Vec<u8> = Vec::new();
        out.push(if value { 1 } else { 0 });
        assert(out@ =~= seq![if value { 1u8 } else { 0u8 }]);
        out
    }
}

impl CircuitVariable for ByteVariable {
    type ValueType = u8;

    open spec fn spec_nb_elements() -> nat {
        8
    }

    open spec fn spec_elements(value: u8) -> Seq<u64> {
        elements_of_byte(value)
    }

    open spec fn spec_from_elements(elements: Seq<u64>) -> u8 {
        byte_of_elements(elements)
    }

    proof fn encoding_round_trip(value: u8) {
        let e = elements_of_byte(value);
        let v = value as int;
        assert(v / 128 == 0 || v / 128 == 1);
        assert(v / 64 == 2 * (v / 128) + (v / 64) % 2);
        assert(v / 32 == 2 * (v / 64) + (v / 32) % 2);
        assert(v / 16 == 2 * (v / 32) + (v / 16) % 2);
        assert(v / 8 == 2 * (v / 16) + (v / 8) % 2);
        assert(v / 4 == 2 * (v / 8) + (v / 4) % 2);
        assert(v / 2 == 2 * (v / 4) + (v / 2) % 2);
        assert(v == 2 * (v / 2) + v % 2);
        assert(element_weight(e[0], 0) == 128 * ((v / 128) % 2));
        assert(element_weight(e[1], 1) == 64 * ((v / 64) % 2));
        assert(element_weight(e[2], 2) == 32 * ((v / 32) % 2));
        assert(element_weight(e[3], 3) == 16 * ((v / 16) % 2));
        assert(element_weight(e[4], 4) == 8 * ((v / 8) % 2));
        assert(element_weight(e[5], 5) == 4 * ((v / 4) % 2));
        assert(element_weight(e[6], 6) == 2 * ((v / 2) % 2));
        assert(element_weight(e[7], 7) == v % 2);
    }

    fn nb_elements() -> (n: usize) {
        8
    }

    fn elements(value: u8) -> (out: Vec<u64>) {
        let mut out: Vec<u64> = Vec::new();
        let mut weight: u8 = 128;
        let mut i: usize = 0;
        while i < 8
            invariant
                i <= 8,
                weight == bit_weight(i as int),
                out@ == Seq::new(i as nat, |k: int| bit_element(bit_at(value, k))),
            decreases 8 - i,
        {
            let bit = (value / weight) % 2 == 1;
            out.push(if bit { 1 } else { 0 });
            assert(out@ =~= Seq::new((i + 1) as nat, |k: int| bit_element(bit_at(value, k))));
            weight = weight / 2;
            i += 1;
        }
        out
    }

    fn from_elements(elements: &[u64]) -> (value: u8) {
        let b0: u8 = if elements[0] == 1 { 128 } else { 0 };
        let b1: u8 = if elements[1] == 1 { 64 } else { 0 };
        let b2: u8 = if elements[2] == 1 { 32 } else { 0 };
        let b3: u8 = if elements[3] == 1 { 16 } else { 0 };
        let b4: u8 = if elements[4] == 1 { 8 } else { 0 };
        let b5: u8 = if elements[5] == 1 { 4 } else { 0 };
        let b6: u8 = if elements[6] == 1 { 2 } else { 0 };
        let b7: u8 = if elements[7] == 1 { 1 } else { 0 };
        b0 + b1 + b2 + b3 + b4 + b5 + b6 + b7
    }
}

impl EvmVariable for ByteVariable {
    open spec fn spec_nb_bytes() -> nat {
        1
    }

    open spec fn spec_encode_value(value: u8) -> Seq<u8> {
        seq![value]
    }

    proof fn encoding_width(value: u8) {
    }

    fn encode_value(value: u8) -> (out: Vec<u8>) {
        let mut out: Vec<u8> = Vec::new();
        out.push(value);
        assert(out@ =~= seq![value]);
        out
    }
}

} // verus!
