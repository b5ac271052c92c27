//! The concrete table families: ranges of unsigned integers, and bitwise
//! operations on 8- and 16-bit operands, with two variable operands or one
//! fixed at compile time.
use vstd::prelude::*;
use crate::lookup::{
    CustomTable, CustomSet, Custom1DMap, Custom2DMap, TableRow, pow_of_two, range_seq, set_rows,
    on_axis, lemma_pow_of_two_monotone,
    rows_1d, rows_2d,
};

verus! {

/// How many values a range of `bits` bits holds among the values of `u64`.
pub open spec fn range_count(bits: nat) -> nat {
    if bits < 64 {
        pow_of_two(bits)
    } else {
        pow_of_two(64)
    }
}

/// `range_count(bits)`, computed.
fn range_limit(bits: u32) -> (r: u128)
    ensures
        r == range_count(bits as nat),
{
    let cap: u32 = if bits < 64 { bits } else { 64 };
    let mut r: u128 = 1;
    let mut b: u32 = 0;
    proof {
        reveal_with_fuel(pow_of_two, 65);
        assert(pow_of_two(64) == 0x1_0000_0000_0000_0000u128);
    }
    while b < cap
        invariant
            b <= cap <= 64,
            cap == if bits < 64 { bits } else { 64 },
            r == pow_of_two(b as nat),
            r * pow_of_two((64 - b) as nat) == pow_of_two(64),
            pow_of_two(64) == 0x1_0000_0000_0000_0000u128,
        decreases cap - b,
    {
        proof {
            lemma_pow_of_two_positive((63 - b) as nat);
            assert(pow_of_two((64 - b) as nat) == 2 * pow_of_two((63 - b) as nat));
            assert(r * 2 <= pow_of_two(64)) by (nonlinear_arith)
                requires
                    r * pow_of_two((64 - b) as nat) == pow_of_two(64),
                    pow_of_two((64 - b) as nat) == 2 * pow_of_two((63 - b) as nat),
                    pow_of_two((63 - b) as nat) >= 1,
            ;
            assert(r * 2 * pow_of_two((63 - b) as nat) == pow_of_two(64)) by (nonlinear_arith)
                requires
                    r * pow_of_two((64 - b) as nat) == pow_of_two(64),
                    pow_of_two((64 - b) as nat) == 2 * pow_of_two((63 - b) as nat),
            ;
        }
        r = r * 2;
        b = b + 1;
    }
    r
}

proof fn lemma_pow_of_two_positive(b: nat)
    ensures
        pow_of_two(b) >= 1,
    decreases b,
{
    if b > 0 {
        lemma_pow_of_two_positive((b - 1) as nat);
    }
}

/// `0, 1, ..., count - 1`.
fn collect_range(count: u128) -> (r: Vec<u64>)
    requires
        count <= 0x1_0000_0000_0000_0000,
    ensures
        r@ == range_seq(count as nat),
{
    let mut r: Vec<u64> = Vec::new();
    let mut i: u128 = 0;
    while i < count
        invariant
            i <= count <= 0x1_0000_0000_0000_0000,
            r@.len() == i,
            forall|j: int| 0 <= j < i ==> #[trigger] r@[j] == j as u64,
        decreases count - i,
    {
        r.push(i as u64);
        i = i + 1;
    }
    assert(r@ =~= range_seq(count as nat));
    r
}

/// The values `0 .. 2^BITS`.
pub struct UintRangeTable<const BITS: u32>;

impl<const BITS: u32> CustomSet for UintRangeTable<BITS> {
    open spec fn elements() -> Seq<u64> {
        range_seq(range_count(BITS as nat))
    }

    fn collect_elements() -> (r: Vec<u64>) {
        proof {
            reveal_with_fuel(pow_of_two, 65);
        }
        let limit = range_limit(BITS);
        collect_range(limit)
    }
}

impl<const BITS: u32> CustomTable for UintRangeTable<BITS> {
    open spec fn rows() -> Seq<(int, int, int)> {
        set_rows(<Self as CustomSet>::elements())
    }

    fn collect_rows() -> (r: Vec<TableRow>) {
        <Self as CustomSet>::collect_rows()
    }
}

/// Bitwise NOT of an 8-bit value.
pub struct U8NotTable;

impl Custom1DMap for U8NotTable {
    open spec fn x_axis() -> Seq<u64> {
        range_seq(256)
    }

    open spec fn map(x: u64) -> u64 {
        (!(x as u8)) as u64
    }

    fn lookup(x: u64) -> (y: u64) {
        (!(x as u8)) as u64
    }

    fn collect_x_axis() -> (r: Vec<u64>) {
        collect_range(256)
    }
}

impl CustomTable for U8NotTable {
    open spec fn rows() -> Seq<(int, int, int)> {
        rows_1d::<Self>()
    }

    fn collect_rows() -> (r: Vec<TableRow>) {
        <Self as Custom1DMap>::collect_rows()
    }
}

/// Bitwise NOT of a 16-bit value.
pub struct U16NotTable;

impl Custom1DMap for U16NotTable {
    open spec fn x_axis() -> Seq<u64> {
        range_seq(65536)
    }

    open spec fn map(x: u64) -> u64 {
        (!(x as u16)) as u64
    }

    fn lookup(x: u64) -> (y: u64) {
        (!(x as u16)) as u64
    }

    fn collect_x_axis() -> (r: Vec<u64>) {
        collect_range(65536)
    }
}

impl CustomTable for U16NotTable {
    open spec fn rows() -> Seq<(int, int, int)> {
        rows_1d::<Self>()
    }

    fn collect_rows() -> (r: Vec<TableRow>) {
        <Self as Custom1DMap>::collect_rows()
    }
}

/// Bitwise OR of two 8-bit values.
pub struct U8OrTable;

impl Custom2DMap for U8OrTable {
    open spec fn x_axis() -> Seq<u64> {
        range_seq(256)
    }

    open spec fn y_axis() -> Seq<u64> {
        range_seq(256)
    }

    open spec fn map(x: u64, y: u64) -> u64 {
        ((x as u8) | (y as u8)) as u64
    }

    fn lookup(x: u64, y: u64) -> (z: u64) {
        ((x as u8) | (y as u8)) as u64
    }

    fn collect_x_axis() -> (r: Vec<u64>) {
        collect_range(256)
    }

    fn collect_y_axis() -> (r: Vec<u64>) {
        collect_range(256)
    }
}

impl CustomTable for U8OrTable {
    open spec fn rows() -> Seq<(int, int, int)> {
        rows_2d::<Self>()
    }

    fn collect_rows() -> (r: Vec<TableRow>) {
        <Self as Custom2DMap>::collect_rows()
    }
}

/// Bitwise XOR of two 8-bit values.
pub struct U8XorTable;

impl Custom2DMap for U8XorTable {
    open spec fn x_axis() -> Seq<u64> {
        range_seq(256)
    }

    open spec fn y_axis() -> Seq<u64> {
        range_seq(256)
    }

    open spec fn map(x: u64, y: u64) -> u64 {
        ((x as u8) ^ (y as u8)) as u64
    }

    fn lookup(x: u64, y: u64) -> (z: u64) {
        ((x as u8) ^ (y as u8)) as u64
    }

    fn collect_x_axis() -> (r: Vec<u64>) {
        collect_range(256)
    }

    fn collect_y_axis() -> (r: Vec<u64>) {
        collect_range(256)
    }
}

impl CustomTable for U8XorTable {
    open spec fn rows() -> Seq<(int, int, int)> {
        rows_2d::<Self>()
    }

    fn collect_rows() -> (r: Vec<TableRow>) {
        <Self as Custom2DMap>::collect_rows()
    }
}

/// Bitwise AND of two 8-bit values.
pub struct U8AndTable;

impl Custom2DMap for U8AndTable {
    open spec fn x_axis() -> Seq<u64> {
        range_seq(256)
    }

    open spec fn y_axis() -> Seq<u64> {
        range_seq(256)
    }

    open spec fn map(x: u64, y: u64) -> u64 {
        ((x as u8) & (y as u8)) as u64
    }

    fn lookup(x: u64, y: u64) -> (z: u64) {
        ((x as u8) & (y as u8)) as u64
    }

    fn collect_x_axis() -> (r: Vec<u64>) {
        collect_range(256)
    }

    fn collect_y_axis() -> (r: Vec<u64>) {
        collect_range(256)
    }
}

impl CustomTable for U8AndTable {
    open spec fn rows() -> Seq<(int, int, int)> {
        rows_2d::<Self>()
    }

    fn collect_rows() -> (r: Vec<TableRow>) {
        <Self as Custom2DMap>::collect_rows()
    }
}

/// Bitwise AND of the NOT of one 8-bit value with another.
pub struct U8NotAndTable;

impl Custom2DMap for U8NotAndTable {
    open spec fn x_axis() -> Seq<u64> {
        range_seq(256)
    }

    open spec fn y_axis() -> Seq<u64> {
        range_seq(256)
    }

    open spec fn map(x: u64, y: u64) -> u64 {
        ((!(x as u8)) & (y as u8)) as u64
    }

    fn lookup(x: u64, y: u64) -> (z: u64) {
        ((!(x as u8)) & (y as u8)) as u64
    }

    fn collect_x_axis() -> (r: Vec<u64>) {
        collect_range(256)
    }

    fn collect_y_axis() -> (r: Vec<u64>) {
        collect_range(256)
    }
}

impl CustomTable for U8NotAndTable {
    open spec fn rows() -> Seq<(int, int, int)> {
        rows_2d::<Self>()
    }

    fn collect_rows() -> (r: Vec<TableRow>) {
        <Self as Custom2DMap>::collect_rows()
    }
}

/// Bitwise OR of a 8-bit value with the constant `OP`.
pub struct U8OrWithConstTable<const OP: u8>;

impl<const OP: u8> Custom1DMap for U8OrWithConstTable<OP> {
    open spec fn x_axis() -> Seq<u64> {
        range_seq(256)
    }

    open spec fn map(x: u64) -> u64 {
        ((x as u8) | OP) as u64
    }

    fn lookup(x: u64) -> (y: u64) {
        ((x as u8) | OP) as u64
    }

    fn collect_x_axis() -> (r: Vec<u64>) {
        collect_range(256)
    }
}

impl<const OP: u8> CustomTable for U8OrWithConstTable<OP> {
    open spec fn rows() -> Seq<(int, int, int)> {
        rows_1d::<Self>()
    }

    fn collect_rows() -> (r: Vec<TableRow>) {
        <Self as Custom1DMap>::collect_rows()
    }
}

/// Bitwise XOR of a 8-bit value with the constant `OP`.
pub struct U8XorWithConstTable<const OP: u8>;

impl<const OP: u8> Custom1DMap for U8XorWithConstTable<OP> {
    open spec fn x_axis() -> Seq<u64> {
        range_seq(256)
    }

    open spec fn map(x: u64) -> u64 {
        ((x as u8) ^ OP) as u64
    }

    fn lookup(x: u64) -> (y: u64) {
        ((x as u8) ^ OP) as u64
    }

    fn collect_x_axis() -> (r: Vec<u64>) {
        collect_range(256)
    }
}

impl<const OP: u8> CustomTable for U8XorWithConstTable<OP> {
    open spec fn rows() -> Seq<(int, int, int)> {
        rows_1d::<Self>()
    }

    fn collect_rows() -> (r: Vec<TableRow>) {
        <Self as Custom1DMap>::collect_rows()
    }
}

/// Bitwise AND of a 8-bit value with the constant `OP`.
pub struct U8AndWithConstTable<const OP: u8>;

impl<const OP: u8> Custom1DMap for U8AndWithConstTable<OP> {
    open spec fn x_axis() -> Seq<u64> {
        range_seq(256)
    }

    open spec fn map(x: u64) -> u64 {
        ((x as u8) & OP) as u64
    }

    fn lookup(x: u64) -> (y: u64) {
        ((x as u8) & OP) as u64
    }

    fn collect_x_axis() -> (r: Vec<u64>) {
        collect_range(256)
    }
}

impl<const OP: u8> CustomTable for U8AndWithConstTable<OP> {
    open spec fn rows() -> Seq<(int, int, int)> {
        rows_1d::<Self>()
    }

    fn collect_rows() -> (r: Vec<TableRow>) {
        <Self as Custom1DMap>::collect_rows()
    }
}

/// Bitwise AND of the NOT of a 8-bit value with the constant `OP`.
pub struct U8NotAndWithConstTable<const OP: u8>;

impl<const OP: u8> Custom1DMap for U8NotAndWithConstTable<OP> {
    open spec fn x_axis() -> Seq<u64> {
        range_seq(256)
    }

    open spec fn map(x: u64) -> u64 {
        ((!(x as u8)) & OP) as u64
    }

    fn lookup(x: u64) -> (y: u64) {
        ((!(x as u8)) & OP) as u64
    }

    fn collect_x_axis() -> (r: Vec<u64>) {
        collect_range(256)
    }
}

impl<const OP: u8> CustomTable for U8NotAndWithConstTable<OP> {
    open spec fn rows() -> Seq<(int, int, int)> {
        rows_1d::<Self>()
    }

    fn collect_rows() -> (r: Vec<TableRow>) {
        <Self as Custom1DMap>::collect_rows()
    }
}

/// Bitwise OR of a 16-bit value with the constant `OP`.
pub struct U16OrWithConstTable<const OP: u16>;

impl<const OP: u16> Custom1DMap for U16OrWithConstTable<OP> {
    open spec fn x_axis() -> Seq<u64> {
        range_seq(65536)
    }

    open spec fn map(x: u64) -> u64 {
        ((x as u16) | OP) as u64
    }

    fn lookup(x: u64) -> (y: u64) {
        ((x as u16) | OP) as u64
    }

    fn collect_x_axis() -> (r: Vec<u64>) {
        collect_range(65536)
    }
}

impl<const OP: u16> CustomTable for U16OrWithConstTable<OP> {
    open spec fn rows() -> Seq<(int, int, int)> {
        rows_1d::<Self>()
    }

    fn collect_rows() -> (r: Vec<TableRow>) {
        <Self as Custom1DMap>::collect_rows()
    }
}

/// Bitwise XOR of a 16-bit value with the constant `OP`.
pub struct U16XorWithConstTable<const OP: u16>;

impl<const OP: u16> Custom1DMap for U16XorWithConstTable<OP> {
    open spec fn x_axis() -> Seq<u64> {
        range_seq(65536)
    }

    open spec fn map(x: u64) -> u64 {
        ((x as u16) ^ OP) as u64
    }

    fn lookup(x: u64) -> (y: u64) {
        ((x as u16) ^ OP) as u64
    }

    fn collect_x_axis() -> (r: Vec<u64>) {
        collect_range(65536)
    }
}

impl<const OP: u16> CustomTable for U16XorWithConstTable<OP> {
    open spec fn rows() -> Seq<(int, int, int)> {
        rows_1d::<Self>()
    }

    fn collect_rows() -> (r: Vec<TableRow>) {
        <Self as Custom1DMap>::collect_rows()
    }
}

/// Bitwise AND of a 16-bit value with the constant `OP`.
pub struct U16AndWithConstTable<const OP: u16>;

impl<const OP: u16> Custom1DMap for U16AndWithConstTable<OP> {
    open spec fn x_axis() -> Seq<u64> {
        range_seq(65536)
    }

    open spec fn map(x: u64) -> u64 {
        ((x as u16) & OP) as u64
    }

    fn lookup(x: u64) -> (y: u64) {
        ((x as u16) & OP) as u64
    }

    fn collect_x_axis() -> (r: Vec<u64>) {
        collect_range(65536)
    }
}

impl<const OP: u16> CustomTable for U16AndWithConstTable<OP> {
    open spec fn rows() -> Seq<(int, int, int)> {
        rows_1d::<Self>()
    }

    fn collect_rows() -> (r: Vec<TableRow>) {
        <Self as Custom1DMap>::collect_rows()
    }
}

/// Bitwise AND of the NOT of a 16-bit value with the constant `OP`.
pub struct U16NotAndWithConstTable<const OP: u16>;

impl<const OP: u16> Custom1DMap for U16NotAndWithConstTable<OP> {
    open spec fn x_axis() -> Seq<u64> {
        range_seq(65536)
    }

    open spec fn map(x: u64) -> u64 {
        ((!(x as u16)) & OP) as u64
    }

    fn lookup(x: u64) -> (y: u64) {
        ((!(x as u16)) & OP) as u64
    }

    fn collect_x_axis() -> (r: Vec<u64>) {
        collect_range(65536)
    }
}

impl<const OP: u16> CustomTable for U16NotAndWithConstTable<OP> {
    open spec fn rows() -> Seq<(int, int, int)> {
        rows_1d::<Self>()
    }

    fn collect_rows() -> (r: Vec<TableRow>) {
        <Self as Custom1DMap>::collect_rows()
    }
}

proof fn lemma_pow_of_two_63()
    ensures
        pow_of_two(63) == 0x8000_0000_0000_0000,
{
    reveal_with_fuel(pow_of_two, 64);
}

/// A value is an element of the range table of `B < 64` bits exactly when it
/// lies in `[0, 2^B)`; so the proving build's membership check passes for
/// those values and fails for every value from `2^B` on.
pub proof fn lemma_range_table_membership<const B: u32>(v: int)
    requires
        B < 64,
    ensures
        on_axis(<UintRangeTable<B> as CustomSet>::elements(), v) <==> 0 <= v < pow_of_two(B as nat),
{
    let count = pow_of_two(B as nat);
    let es = <UintRangeTable<B> as CustomSet>::elements();
    lemma_pow_of_two_monotone(B as nat, 63);
    lemma_pow_of_two_63();
    if 0 <= v < count {
        assert(es[v] as int == v);
    }
    if on_axis(es, v) {
        let i = choose|i: int| 0 <= i < es.len() && es[i] as int == v;
        assert(es[i] as int == i);
    }
}

/// The 8-bit XOR table maps every pair of bytes `(x, y)`, and only those, to
/// `x ^ y`.
pub proof fn lemma_xor_table(x: u64, y: u64)
    ensures
        on_axis(<U8XorTable as Custom2DMap>::x_axis(), x as int) <==> x < 256,
        on_axis(<U8XorTable as Custom2DMap>::y_axis(), y as int) <==> y < 256,
        x < 256 && y < 256 ==> <U8XorTable as Custom2DMap>::map(x, y) == x ^ y,
{
    let xs = <U8XorTable as Custom2DMap>::x_axis();
    if x < 256 {
        assert(xs[x as int] as int == x);
    }
    if on_axis(xs, x as int) {
        let i = choose|i: int| 0 <= i < xs.len() && xs[i] as int == x;
        assert(xs[i] as int == i);
    }
    if y < 256 {
        assert(xs[y as int] as int == y);
    }
    if on_axis(xs, y as int) {
        let i = choose|i: int| 0 <= i < xs.len() && xs[i] as int == y;
        assert(xs[i] as int == i);
    }
    if x < 256 && y < 256 {
        assert(((x as u8) ^ (y as u8)) as u64 == x ^ y) by (bit_vector)
            requires
                x < 256,
                y < 256,
        ;
    }
}

} // verus!
