//! Element types a [`Buffer`](crate::memory::Buffer) can store, and their
//! exact little-endian byte encoding.
//!
//! Every stored element is a fixed number of base-256 digits; [`Sample`]
//! carries the encoding, the decoding, and the proof that the two invert
//! each other, which is what makes reading a buffer back give the values
//! that were written.

use vstd::prelude::*;

use crate::memory::DataType;

verus! {

/// Little-endian base-256 digits of `x`, `n` bytes long.
pub open spec fn le_digits(x: int, n: nat) -> Seq<u8>
    decreases n,
{
    if n == 0 {
        Seq::empty()
    } else {
        seq![(x % 256) as u8] + le_digits(x / 256, (n - 1) as nat)
    }
}

/// The value of a little-endian byte sequence.
pub open spec fn le_value(b: Seq<u8>) -> int
    decreases b.len(),
{
    if b.len() == 0 {
        0
    } else {
        b[0] + 256 * le_value(b.drop_first())
    }
}

/// 256 to the power `n`: the number of values `n` bytes can store.
pub open spec fn pow256(n: nat) -> int
    decreases n,
{
    if n == 0 {
        1
    } else {
        256 * pow256((n - 1) as nat)
    }
}

pub proof fn lemma_pow256_values()
    ensures
        pow256(0) == 1,
        pow256(1) == 0x100,
        pow256(2) == 0x10000,
        pow256(3) == 0x1000000,
        pow256(4) == 0x100000000,
        pow256(5) == 0x10000000000,
        pow256(6) == 0x1000000000000,
        pow256(7) == 0x100000000000000,
        pow256(8) == 0x10000000000000000,
{
    assert(pow256(0) == 1);
    assert(pow256(1) == 0x100);
    assert(pow256(2) == 0x10000);
    assert(pow256(3) == 0x1000000);
    assert(pow256(4) == 0x100000000);
    assert(pow256(5) == 0x10000000000);
    assert(pow256(6) == 0x1000000000000);
    assert(pow256(7) == 0x100000000000000);
    assert(pow256(8) == 0x10000000000000000);
}

pub proof fn lemma_pow256_increases(a: nat, b: nat)
    requires
        a <= b,
    ensures
        pow256(a) <= pow256(b),
        pow256(a) >= 1,
    decreases b,
{
    if b > 0 {
        if a == b {
            lemma_pow256_increases((a - 1) as nat, (b - 1) as nat);
        } else {
            lemma_pow256_increases(a, (b - 1) as nat);
        }
    }
}

pub proof fn lemma_le_digits_len(x: int, n: nat)
    ensures
        le_digits(x, n).len() == n,
    decreases n,
{
    if n > 0 {
        lemma_le_digits_len(x / 256, (n - 1) as nat);
    }
}

/// The value of any `n`-byte sequence lies below `pow256(n)`.
pub proof fn lemma_le_value_bound(b: Seq<u8>)
    ensures
        0 <= le_value(b) < pow256(b.len()),
    decreases b.len(),
{
    if b.len() > 0 {
        lemma_le_value_bound(b.drop_first());
        assert(le_value(b) == b[0] + 256 * le_value(b.drop_first()));
        assert(256 * le_value(b.drop_first()) <= 256 * (pow256((b.len() - 1) as nat) - 1))
            by (nonlinear_arith)
            requires
                le_value(b.drop_first()) <= pow256((b.len() - 1) as nat) - 1,
        ;
    }
}

/// Reading back the little-endian digits of a value in range recovers it.
pub proof fn lemma_le_roundtrip(x: int, n: nat)
    requires
        0 <= x < pow256(n),
    ensures
        le_value(le_digits(x, n)) == x,
    decreases n,
{
    if n > 0 {
        let rest = x / 256;
        let p = pow256((n - 1) as nat);
        vstd::arithmetic::div_mod::lemma_fundamental_div_mod(x, 256);
        assert(rest < p) by {
            if rest >= p {
                assert(256 * rest >= 256 * p) by (nonlinear_arith)
                    requires
                        rest >= p,
                ;
            }
        }
        assert(rest >= 0) by {
            vstd::arithmetic::div_mod::lemma_div_pos_is_pos(x, 256);
        }
        lemma_le_roundtrip(rest, (n - 1) as nat);
        let digits = le_digits(x, n);
        assert(digits.drop_first() =~= le_digits(rest, (n - 1) as nat));
        assert(le_value(digits) == x % 256 + 256 * rest);
    }
}

/// The `width` little-endian digits of `x`, as a fresh vector.
fn le_bytes(x: u64, width: usize) -> (r: Vec<u8>)
    ensures
        r@ == le_digits(x as int, width as nat),
{
    let mut out: Vec<u8> = Vec::new();
    let mut v: u64 = x;
    let mut i: usize = 0;
    while i < width
        invariant
            i <= width,
            out@.len() == i,
            le_digits(x as int, width as nat) =~= out@ + le_digits(
                v as int,
                (width - i) as nat,
            ),
        decreases width - i,
    {
        let ghost v0 = v as int;
        let ghost n0 = (width - i) as nat;
        let ghost before = out@;
        let d = (v % 256) as u8;
        out.push(d);
        v = v / 256;
        i += 1;
        proof {
            assert(le_digits(v0, n0) =~= seq![d] + le_digits(v0 / 256, (n0 - 1) as nat));
            assert(before + le_digits(v0, n0) =~= before.push(d) + le_digits(
                v as int,
                (width - i) as nat,
            ));
        }
    }
    out
}

/// Read the value of the `width` bytes of `data` that start at `offset`.
fn le_read(data: &Vec<u8>, offset: usize, width: usize) -> (r: u64)
    requires
        offset + width <= data@.len(),
        width <= 8,
    ensures
        r as int == le_value(data@.subrange(offset as int, offset + width)),
{
    let n = data.len();
    let mut r: u64 = 0;
    let mut j: usize = width;
    while j > 0
        invariant
            j <= width,
            width <= 8,
            offset + width <= data@.len(),
            data@.len() == n,
            r as int == le_value(data@.subrange(offset + j, offset + width)),
            r < pow256((width - j) as nat),
        decreases j,
    {
        let ghost r0 = r as int;
        let ghost j0 = j as int;
        j -= 1;
        let b = data[offset + j];
        proof {
            lemma_pow256_values();
            lemma_pow256_increases((width - j0) as nat, 7);
            let win = data@.subrange(offset + j, offset + width);
            assert(win.drop_first() =~= data@.subrange(offset + j0, offset + width));
            assert(le_value(win) == b + 256 * r0);
            assert(r0 <= pow256(7) - 1);
            assert(256 * r0 <= 256 * (pow256(7) - 1)) by (nonlinear_arith)
                requires
                    r0 <= pow256(7) - 1,
            ;
            assert(pow256((width - j) as nat) == 256 * pow256((width - j0) as nat));
            assert(256 * r0 + b < pow256((width - j) as nat)) by (nonlinear_arith)
                requires
                    r0 < pow256((width - j0) as nat),
                    b < 256,
                    pow256((width - j) as nat) == 256 * pow256((width - j0) as nat),
            ;
        }
        r = r * 256 + (b as u64);
    }
    proof {
        assert(data@.subrange(offset as int, offset + width) =~= data@.subrange(
            offset + 0,
            offset + width,
        ));
    }
    r
}

/// Types whose values a [`Buffer`](crate::memory::Buffer) can store by value.
pub trait Sealed: Clone + Copy {

}

/// Trait of element types that can be stored in a
/// [`Buffer`](crate::memory::Buffer): each carries its data-type tag and an
/// exact byte encoding.
pub trait Sample: Sealed {
    /// The data-type tag buffers of this element type carry.
    spec fn data_type_spec() -> DataType;

    /// Number of bytes one element occupies.
    spec fn width_spec() -> nat;

    /// The bytes that store one element.
    spec fn encode_spec(x: Self) -> Seq<u8>;

    /// The element stored by an exact `width_spec()`-byte sequence.
    spec fn decode_spec(b: Seq<u8>) -> Self;

    /// One element occupies between one and eight bytes.
    proof fn lemma_width()
        ensures
            1 <= Self::width_spec() <= 8,
    ;

    /// The encoding is `width_spec()` bytes long and decoding inverts it.
    proof fn lemma_codec(x: Self)
        ensures
            Self::encode_spec(x).len() == Self::width_spec(),
            Self::decode_spec(Self::encode_spec(x)) == x,
    ;

    /// The data-type tag of this element type.
    fn data_type() -> (r: DataType)
        ensures
            r == Self::data_type_spec(),
    ;

    /// Byte width of one element.
    fn width() -> (r: usize)
        ensures
            r == Self::width_spec(),
    ;

    /// The encoding of this element, as a fresh vector.
    fn to_bytes(self) -> (r: Vec<u8>)
        ensures
            r@ == Self::encode_spec(self),
    ;

    /// Decode one element from `data`, starting at byte `offset`.
    fn read_bytes(data: &Vec<u8>, offset: usize) -> (r: Self)
        requires
            offset + Self::width_spec() <= data@.len(),
        ensures
            r == Self::decode_spec(data@.subrange(offset as int, offset + Self::width_spec())),
    ;
}


impl Sealed for u8 {

}

impl Sample for u8 {
    open spec fn data_type_spec() -> DataType {
        DataType::Uint8
    }

    open spec fn width_spec() -> nat {
        1
    }

    open spec fn encode_spec(x: u8) -> Seq<u8> {
        le_digits(x as int, 1)
    }

    open spec fn decode_spec(b: Seq<u8>) -> u8 {
        (le_value(b) % 0x100) as u8
    }

    proof fn lemma_width() {
    }

    proof fn lemma_codec(x: u8) {
        lemma_pow256_values();
        lemma_le_digits_len(x as int, 1);
        lemma_le_roundtrip(x as int, 1);
        vstd::arithmetic::div_mod::lemma_small_mod(x as nat, 0x100 as nat);
    }

    fn data_type() -> DataType {
        DataType::Uint8
    }

    fn width() -> usize {
        1
    }

    fn to_bytes(self) -> Vec<u8> {
        le_bytes(self as u64, 1)
    }

    fn read_bytes(data: &Vec<u8>, offset: usize) -> (r: u8) {
        let v = le_read(data, offset, 1);
        proof {
            lemma_pow256_values();
            lemma_le_value_bound(data@.subrange(offset as int, offset + 1));
            vstd::arithmetic::div_mod::lemma_small_mod(v as nat, 0x100 as nat);
        }
        v as u8
    }
}


impl Sealed for u16 {

}

impl Sample for u16 {
    open spec fn data_type_spec() -> DataType {
        DataType::Uint16
    }

    open spec fn width_spec() -> nat {
        2
    }

    open spec fn encode_spec(x: u16) -> Seq<u8> {
        le_digits(x as int, 2)
    }

    open spec fn decode_spec(b: Seq<u8>) -> u16 {
        (le_value(b) % 0x10000) as u16
    }

    proof fn lemma_width() {
    }

    proof fn lemma_codec(x: u16) {
        lemma_pow256_values();
        lemma_le_digits_len(x as int, 2);
        lemma_le_roundtrip(x as int, 2);
        vstd::arithmetic::div_mod::lemma_small_mod(x as nat, 0x10000 as nat);
    }

    fn data_type() -> DataType {
        DataType::Uint16
    }

    fn width() -> usize {
        2
    }

    fn to_bytes(self) -> Vec<u8> {
        le_bytes(self as u64, 2)
    }

    fn read_bytes(data: &Vec<u8>, offset: usize) -> (r: u16) {
        let v = le_read(data, offset, 2);
        proof {
            lemma_pow256_values();
            lemma_le_value_bound(data@.subrange(offset as int, offset + 2));
            vstd::arithmetic::div_mod::lemma_small_mod(v as nat, 0x10000 as nat);
        }
        v as u16
    }
}


impl Sealed for u32 {

}

impl Sample for u32 {
    open spec fn data_type_spec() -> DataType {
        DataType::Uint32
    }

    open spec fn width_spec() -> nat {
        4
    }

    open spec fn encode_spec(x: u32) -> Seq<u8> {
        le_digits(x as int, 4)
    }

    open spec fn decode_spec(b: Seq<u8>) -> u32 {
        (le_value(b) % 0x100000000) as u32
    }

    proof fn lemma_width() {
    }

    proof fn lemma_codec(x: u32) {
        lemma_pow256_values();
        lemma_le_digits_len(x as int, 4);
        lemma_le_roundtrip(x as int, 4);
        vstd::arithmetic::div_mod::lemma_small_mod(x as nat, 0x100000000 as nat);
    }

    fn data_type() -> DataType {
        DataType::Uint32
    }

    fn width() -> usize {
        4
    }

    fn to_bytes(self) -> Vec<u8> {
        le_bytes(self as u64, 4)
    }

    fn read_bytes(data: &Vec<u8>, offset: usize) -> (r: u32) {
        let v = le_read(data, offset, 4);
        proof {
            lemma_pow256_values();
            lemma_le_value_bound(data@.subrange(offset as int, offset + 4));
            vstd::arithmetic::div_mod::lemma_small_mod(v as nat, 0x100000000 as nat);
        }
        v as u32
    }
}


impl Sealed for u64 {

}

impl Sample for u64 {
    open spec fn data_type_spec() -> DataType {
        DataType::Uint64
    }

    open spec fn width_spec() -> nat {
        8
    }

    open spec fn encode_spec(x: u64) -> Seq<u8> {
        le_digits(x as int, 8)
    }

    open spec fn decode_spec(b: Seq<u8>) -> u64 {
        (le_value(b) % 0x10000000000000000) as u64
    }

    proof fn lemma_width() {
    }

    proof fn lemma_codec(x: u64) {
        lemma_pow256_values();
        lemma_le_digits_len(x as int, 8);
        lemma_le_roundtrip(x as int, 8);
        vstd::arithmetic::div_mod::lemma_small_mod(x as nat, 0x10000000000000000 as nat);
    }

    fn data_type() -> DataType {
        DataType::Uint64
    }

    fn width() -> usize {
        8
    }

    fn to_bytes(self) -> Vec<u8> {
        le_bytes(self as u64, 8)
    }

    fn read_bytes(data: &Vec<u8>, offset: usize) -> (r: u64) {
        let v = le_read(data, offset, 8);
        proof {
            lemma_pow256_values();
            lemma_le_value_bound(data@.subrange(offset as int, offset + 8));
            vstd::arithmetic::div_mod::lemma_small_mod(v as nat, 0x10000000000000000 as nat);
        }
        v as u64
    }
}


impl Sealed for i8 {

}

impl Sample for i8 {
    open spec fn data_type_spec() -> DataType {
        DataType::Int8
    }

    open spec fn width_spec() -> nat {
        1
    }

    open spec fn encode_spec(x: i8) -> Seq<u8> {
        le_digits(
            if x >= 0 {
                x as int
            } else {
                x as int + 0x100
            },
            1,
        )
    }

    open spec fn decode_spec(b: Seq<u8>) -> i8 {
        if le_value(b) % 0x100 < 0x80 {
            (le_value(b) % 0x100) as i8
        } else {
            (le_value(b) % 0x100 - 0x100) as i8
        }
    }

    proof fn lemma_width() {
    }

    proof fn lemma_codec(x: i8) {
        let u = if x >= 0 {
            x as int
        } else {
            x as int + 0x100
        };
        lemma_pow256_values();
        lemma_le_digits_len(u, 1);
        lemma_le_roundtrip(u, 1);
        vstd::arithmetic::div_mod::lemma_small_mod(u as nat, 0x100 as nat);
    }

    fn data_type() -> DataType {
        DataType::Int8
    }

    fn width() -> usize {
        1
    }

    fn to_bytes(self) -> Vec<u8> {
        let u: u64 = if self >= 0 {
            self as u64
        } else {
            ((self as i64) + 0x100i64) as u64
        };
        le_bytes(u, 1)
    }

    fn read_bytes(data: &Vec<u8>, offset: usize) -> (r: i8) {
        let v = le_read(data, offset, 1);
        proof {
            lemma_pow256_values();
            lemma_le_value_bound(data@.subrange(offset as int, offset + 1));
            vstd::arithmetic::div_mod::lemma_small_mod(v as nat, 0x100 as nat);
        }
        if v < 0x80 {
            v as i8
        } else {
            ((v as i64) - 0x100i64) as i8
        }
    }
}


impl Sealed for i16 {

}

impl Sample for i16 {
    open spec fn data_type_spec() -> DataType {
        DataType::Int16
    }

    open spec fn width_spec() -> nat {
        2
    }

    open spec fn encode_spec(x: i16) -> Seq<u8> {
        le_digits(
            if x >= 0 {
                x as int
            } else {
                x as int + 0x10000
            },
            2,
        )
    }

    open spec fn decode_spec(b: Seq<u8>) -> i16 {
        if le_value(b) % 0x10000 < 0x8000 {
            (le_value(b) % 0x10000) as i16
        } else {
            (le_value(b) % 0x10000 - 0x10000) as i16
        }
    }

    proof fn lemma_width() {
    }

    proof fn lemma_codec(x: i16) {
        let u = if x >= 0 {
            x as int
        } else {
            x as int + 0x10000
        };
        lemma_pow256_values();
        lemma_le_digits_len(u, 2);
        lemma_le_roundtrip(u, 2);
        vstd::arithmetic::div_mod::lemma_small_mod(u as nat, 0x10000 as nat);
    }

    fn data_type() -> DataType {
        DataType::Int16
    }

    fn width() -> usize {
        2
    }

    fn to_bytes(self) -> Vec<u8> {
        let u: u64 = if self >= 0 {
            self as u64
        } else {
            ((self as i64) + 0x10000i64) as u64
        };
        le_bytes(u, 2)
    }

    fn read_bytes(data: &Vec<u8>, offset: usize) -> (r: i16) {
        let v = le_read(data, offset, 2);
        proof {
            lemma_pow256_values();
            lemma_le_value_bound(data@.subrange(offset as int, offset + 2));
            vstd::arithmetic::div_mod::lemma_small_mod(v as nat, 0x10000 as nat);
        }
        if v < 0x8000 {
            v as i16
        } else {
            ((v as i64) - 0x10000i64) as i16
        }
    }
}


impl Sealed for i32 {

}

impl Sample for i32 {
    open spec fn data_type_spec() -> DataType {
        DataType::Int32
    }

    open spec fn width_spec() -> nat {
        4
    }

    open spec fn encode_spec(x: i32) -> Seq<u8> {
        le_digits(
            if x >= 0 {
                x as int
            } else {
                x as int + 0x100000000
            },
            4,
        )
    }

    open spec fn decode_spec(b: Seq<u8>) -> i32 {
        if le_value(b) % 0x100000000 < 0x80000000 {
            (le_value(b) % 0x100000000) as i32
        } else {
            (le_value(b) % 0x100000000 - 0x100000000) as i32
        }
    }

    proof fn lemma_width() {
    }

    proof fn lemma_codec(x: i32) {
        let u = if x >= 0 {
            x as int
        } else {
            x as int + 0x100000000
        };
        lemma_pow256_values();
        lemma_le_digits_len(u, 4);
        lemma_le_roundtrip(u, 4);
        vstd::arithmetic::div_mod::lemma_small_mod(u as nat, 0x100000000 as nat);
    }

    fn data_type() -> DataType {
        DataType::Int32
    }

    fn width() -> usize {
        4
    }

    fn to_bytes(self) -> Vec<u8> {
        let u: u64 = if self >= 0 {
            self as u64
        } else {
            ((self as i64) + 0x100000000i64) as u64
        };
        le_bytes(u, 4)
    }

    fn read_bytes(data: &Vec<u8>, offset: usize) -> (r: i32) {
        let v = le_read(data, offset, 4);
        proof {
            lemma_pow256_values();
            lemma_le_value_bound(data@.subrange(offset as int, offset + 4));
            vstd::arithmetic::div_mod::lemma_small_mod(v as nat, 0x100000000 as nat);
        }
        if v < 0x80000000 {
            v as i32
        } else {
            ((v as i64) - 0x100000000i64) as i32
        }
    }
}


impl Sealed for i64 {

}

impl Sample for i64 {
    open spec fn data_type_spec() -> DataType {
        DataType::Int64
    }

    open spec fn width_spec() -> nat {
        8
    }

    open spec fn encode_spec(x: i64) -> Seq<u8> {
        le_digits(
            if x >= 0 {
                x as int
            } else {
                x as int + 0x10000000000000000
            },
            8,
        )
    }

    open spec fn decode_spec(b: Seq<u8>) -> i64 {
        if le_value(b) % 0x10000000000000000 < 0x8000000000000000 {
            (le_value(b) % 0x10000000000000000) as i64
        } else {
            (le_value(b) % 0x10000000000000000 - 0x10000000000000000) as i64
        }
    }

    proof fn lemma_width() {
    }

    proof fn lemma_codec(x: i64) {
        let u = if x >= 0 {
            x as int
        } else {
            x as int + 0x10000000000000000
        };
        lemma_pow256_values();
        lemma_le_digits_len(u, 8);
        lemma_le_roundtrip(u, 8);
        vstd::arithmetic::div_mod::lemma_small_mod(u as nat, 0x10000000000000000 as nat);
    }

    fn data_type() -> DataType {
        DataType::Int64
    }

    fn width() -> usize {
        8
    }

    fn to_bytes(self) -> Vec<u8> {
        let u: u64 = if self >= 0 {
            self as u64
        } else {
            ((self as i128) + 0x10000000000000000i128) as u64
        };
        le_bytes(u, 8)
    }

    fn read_bytes(data: &Vec<u8>, offset: usize) -> (r: i64) {
        let v = le_read(data, offset, 8);
        proof {
            lemma_pow256_values();
            lemma_le_value_bound(data@.subrange(offset as int, offset + 8));
            vstd::arithmetic::div_mod::lemma_small_mod(v as nat, 0x10000000000000000 as nat);
        }
        if v < 0x8000000000000000 {
            v as i64
        } else {
            ((v as i128) - 0x10000000000000000i128) as i64
        }
    }
}

impl Sealed for bool {

}

impl Sample for bool {
    open spec fn data_type_spec() -> DataType {
        DataType::Bool
    }

    open spec fn width_spec() -> nat {
        1
    }

    open spec fn encode_spec(x: bool) -> Seq<u8> {
        le_digits(if x { 1int } else { 0int }, 1)
    }

    open spec fn decode_spec(b: Seq<u8>) -> bool {
        le_value(b) % 0x100 != 0
    }

    proof fn lemma_width() {
    }

    proof fn lemma_codec(x: bool) {
        let u: int = if x { 1int } else { 0int };
        lemma_pow256_values();
        lemma_le_digits_len(u, 1);
        lemma_le_roundtrip(u, 1);
        vstd::arithmetic::div_mod::lemma_small_mod(u as nat, 0x100 as nat);
    }

    fn data_type() -> DataType {
        DataType::Bool
    }

    fn width() -> usize {
        1
    }

    fn to_bytes(self) -> Vec<u8> {
        le_bytes(if self { 1 } else { 0 }, 1)
    }

    fn read_bytes(data: &Vec<u8>, offset: usize) -> (r: bool) {
        let v = le_read(data, offset, 1);
        proof {
            lemma_pow256_values();
            lemma_le_value_bound(data@.subrange(offset as int, offset + 1));
            vstd::arithmetic::div_mod::lemma_small_mod(v as nat, 0x100 as nat);
        }
        v != 0
    }
}

impl Sealed for crate::memory::Byte {

}

impl Sample for crate::memory::Byte {
    open spec fn data_type_spec() -> DataType {
        DataType::Bytes
    }

    open spec fn width_spec() -> nat {
        1
    }

    open spec fn encode_spec(x: crate::memory::Byte) -> Seq<u8> {
        le_digits(x.0 as int, 1)
    }

    open spec fn decode_spec(b: Seq<u8>) -> crate::memory::Byte {
        crate::memory::Byte((le_value(b) % 0x100) as u8)
    }

    proof fn lemma_width() {
    }

    proof fn lemma_codec(x: crate::memory::Byte) {
        lemma_pow256_values();
        lemma_le_digits_len(x.0 as int, 1);
        lemma_le_roundtrip(x.0 as int, 1);
        vstd::arithmetic::div_mod::lemma_small_mod(x.0 as nat, 0x100 as nat);
    }

    fn data_type() -> DataType {
        DataType::Bytes
    }

    fn width() -> usize {
        1
    }

    fn to_bytes(self) -> Vec<u8> {
        le_bytes(self.0 as u64, 1)
    }

    fn read_bytes(data: &Vec<u8>, offset: usize) -> (r: crate::memory::Byte) {
        let v = le_read(data, offset, 1);
        proof {
            lemma_pow256_values();
            lemma_le_value_bound(data@.subrange(offset as int, offset + 1));
            vstd::arithmetic::div_mod::lemma_small_mod(v as nat, 0x100 as nat);
        }
        crate::memory::Byte(v as u8)
    }
}


/// The bytes that store a sequence of elements, one encoding after another.
pub open spec fn encode_seq<T: Sample>(s: Seq<T>) -> Seq<u8>
    decreases s.len(),
{
    if s.len() == 0 {
        Seq::empty()
    } else {
        T::encode_spec(s[0]) + encode_seq(s.drop_first())
    }
}

/// The elements stored by a byte sequence, one per `width_spec()` window.
pub open spec fn decoded_samples<T: Sample>(b: Seq<u8>) -> Seq<T> {
    Seq::new(
        b.len() / T::width_spec(),
        |i: int|
            T::decode_spec(
                b.subrange(i * T::width_spec(), i * T::width_spec() + T::width_spec()),
            ),
    )
}

pub proof fn lemma_encode_seq_len<T: Sample>(s: Seq<T>)
    ensures
        encode_seq(s).len() == s.len() * T::width_spec(),
    decreases s.len(),
{
    if s.len() == 0 {
    } else {
        T::lemma_codec(s[0]);
        lemma_encode_seq_len::<T>(s.drop_first());
        assert((s.len() - 1) * T::width_spec() + T::width_spec() == s.len()
            * T::width_spec()) by (nonlinear_arith);
    }
}

/// Appending one element appends its encoding.
pub proof fn lemma_encode_seq_push<T: Sample>(s: Seq<T>, x: T)
    ensures
        encode_seq(s.push(x)) == encode_seq(s) + T::encode_spec(x),
    decreases s.len(),
{
    if s.len() == 0 {
        assert(s.push(x)[0] == x);
        assert(s.push(x).drop_first() =~= Seq::<T>::empty());
        assert(s =~= Seq::<T>::empty());
        assert(encode_seq(Seq::<T>::empty()) == Seq::<u8>::empty());
        assert(encode_seq(s.push(x)) == T::encode_spec(x) + Seq::<u8>::empty());
        assert(T::encode_spec(x) + Seq::<u8>::empty() =~= Seq::<u8>::empty()
            + T::encode_spec(x));
    } else {
        assert(s.push(x).drop_first() =~= s.drop_first().push(x));
        lemma_encode_seq_push::<T>(s.drop_first(), x);
        assert(s.push(x)[0] == s[0]);
        assert(encode_seq(s.push(x)) == T::encode_spec(s[0]) + encode_seq(
            s.drop_first().push(x),
        ));
        assert(encode_seq(s) == T::encode_spec(s[0]) + encode_seq(s.drop_first()));
        assert(T::encode_spec(s[0]) + (encode_seq(s.drop_first()) + T::encode_spec(x)) =~= (
        T::encode_spec(s[0]) + encode_seq(s.drop_first())) + T::encode_spec(x));
    }
}

/// The window of the encoding of a sequence at position `i` is the encoding
/// of its `i`-th element.
pub proof fn lemma_encode_seq_index<T: Sample>(s: Seq<T>, i: int)
    requires
        0 <= i < s.len(),
    ensures
        encode_seq(s).subrange(i * T::width_spec(), i * T::width_spec() + T::width_spec())
            == T::encode_spec(s[i]),
    decreases i,
{
    let w = T::width_spec() as int;
    T::lemma_width();
    T::lemma_codec(s[0]);
    lemma_encode_seq_len::<T>(s);
    lemma_encode_seq_len::<T>(s.drop_first());
    assert(i * w >= 0 && i * w + w <= s.len() * w) by (nonlinear_arith)
        requires
            0 <= i < s.len(),
            w >= 1,
    ;
    if i == 0 {
        assert(encode_seq(s).subrange(0, w) =~= T::encode_spec(s[0]));
        assert(i * w == 0) by (nonlinear_arith)
            requires
                i == 0,
        ;
        assert(encode_seq(s).subrange(i * w, i * w + w) == T::encode_spec(s[i]));
    } else {
        lemma_encode_seq_index::<T>(s.drop_first(), i - 1);
        assert((i - 1) * w == i * w - w) by (nonlinear_arith);
        assert(encode_seq(s).subrange(i * w, i * w + w) =~= encode_seq(
            s.drop_first(),
        ).subrange(i * w - w, i * w));
        assert(s.drop_first()[i - 1] == s[i]);
        assert(encode_seq(s).subrange(i * w, i * w + w) == T::encode_spec(s[i]));
    }
    assert(encode_seq(s).subrange(
        i * T::width_spec(),
        i * T::width_spec() + T::width_spec(),
    ) == encode_seq(s).subrange(i * w, i * w + w));
}

/// Round trip: decoding the encoding of any element sequence returns it.
pub proof fn lemma_codec_seq_roundtrip<T: Sample>(s: Seq<T>)
    ensures
        decoded_samples::<T>(encode_seq(s)) == s,
{
    let b = encode_seq(s);
    let w = T::width_spec();
    T::lemma_width();
    if s.len() == 0 {
        vstd::arithmetic::div_mod::lemma_div_of0(w as int);
        assert(decoded_samples::<T>(b) =~= s);
    } else {
        T::lemma_codec(s[0]);
        lemma_encode_seq_len::<T>(s);
        assert(b.len() / w == s.len()) by {
            vstd::arithmetic::div_mod::lemma_div_multiples_vanish(
                s.len() as int,
                w as int,
            );
            assert(s.len() * w == w * s.len()) by (nonlinear_arith);
        }
        assert forall|i: int| 0 <= i < s.len() implies decoded_samples::<T>(b)[i] == s[i] by {
            lemma_encode_seq_index::<T>(s, i);
            T::lemma_codec(s[i]);
        }
        assert(decoded_samples::<T>(b) =~= s);
    }
}

} // verus!
