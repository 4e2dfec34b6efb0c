//! The byte layout of `summon_lot.tbl`.
//!
//! An 8-byte header (the row count as a little-endian `i32`, then 4 unused bytes)
//! followed by 20-byte rows, all fields little-endian:
//! `+0` pool key, `+4` skill or base-param id, `+8` curve id, `+12` weight (`i32`), `+16` unused.
use vstd::prelude::*;

use crate::hexid::{hex, hex_value};

verus! {

/// Bytes in one table row.
pub const ROW: usize = 20;

/// Bytes in the table header.
pub const HEADER: usize = 8;

/// The unsigned little-endian 32-bit value stored at `off`.
pub open spec fn le_u32(b: Seq<u8>, off: int) -> int {
    b[off] + 256 * b[off + 1] + 65536 * b[off + 2] + 16777216 * b[off + 3]
}

/// The header's row count, read as a signed 32-bit value and widened to `usize`
/// (a negative count sign-extends to a huge one).
pub open spec fn row_count(b: Seq<u8>) -> int {
    let v = le_u32(b, 0);
    if v < 0x8000_0000 {
        v
    } else {
        v - 0x1_0000_0000 + usize::MAX + 1
    }
}

/// Byte offset of row `r`.
pub open spec fn row_off(r: int) -> int {
    HEADER + ROW * r
}

/// Row `r` is announced by the header and lies wholly inside the buffer.
pub open spec fn is_row(b: Seq<u8>, r: int) -> bool {
    0 <= r < row_count(b) && row_off(r) + ROW <= b.len()
}

/// The pool key of row `r`.
pub open spec fn row_key(b: Seq<u8>, r: int) -> int {
    le_u32(b, row_off(r))
}

/// The skill or base-param id of row `r`.
pub open spec fn row_id(b: Seq<u8>, r: int) -> int {
    le_u32(b, row_off(r) + 4)
}

/// The curve id of row `r`.
pub open spec fn row_curve(b: Seq<u8>, r: int) -> int {
    le_u32(b, row_off(r) + 8)
}

/// The weight field of row `r`, as its unsigned bit pattern.
pub open spec fn row_weight(b: Seq<u8>, r: int) -> int {
    le_u32(b, row_off(r) + 12)
}

/// Row `r` is a row of pool `pool`.
pub open spec fn in_pool(b: Seq<u8>, r: int, pool: int) -> bool {
    is_row(b, r) && row_key(b, r) == pool
}

/// The row that byte `i` falls in.
pub open spec fn slot_row(i: int) -> int {
    (i - HEADER) / (ROW as int)
}

/// The position of byte `i` inside its row.
pub open spec fn slot_pos(i: int) -> int {
    (i - HEADER) % (ROW as int)
}

/// Byte `k` (0 to 3) of the little-endian encoding of `v`.
pub open spec fn le_byte(v: int, k: int) -> u8 {
    if k == 0 {
        (v % 256) as u8
    } else if k == 1 {
        ((v / 256) % 256) as u8
    } else if k == 2 {
        ((v / 65536) % 256) as u8
    } else {
        ((v / 16777216) % 256) as u8
    }
}

/// Byte `i` is a weight byte of a row of `pool` whose id is not `keep`.
pub open spec fn forces_byte(b: Seq<u8>, pool: int, keep: int, i: int) -> bool {
    &&& i >= HEADER
    &&& in_pool(b, slot_row(i), pool)
    &&& row_id(b, slot_row(i)) != keep
    &&& 12 <= slot_pos(i) < 16
}

/// The table after every row of `pool` whose id is not `keep` got weight 1.
pub open spec fn forced(b: Seq<u8>, pool: int, keep: int) -> Seq<u8> {
    Seq::new(
        b.len(),
        |i: int|
            if forces_byte(b, pool, keep, i) {
                le_byte(1, slot_pos(i) - 12)
            } else {
                b[i]
            },
    )
}

/// Byte `i` is a curve byte of a row of `pool`.
pub open spec fn curve_byte(b: Seq<u8>, pool: int, i: int) -> bool {
    &&& i >= HEADER
    &&& in_pool(b, slot_row(i), pool)
    &&& 8 <= slot_pos(i) < 12
}

/// The table after every row of `pool` got curve `curve`.
pub open spec fn curved(b: Seq<u8>, pool: int, curve: int) -> Seq<u8> {
    Seq::new(
        b.len(),
        |i: int|
            if curve_byte(b, pool, i) {
                le_byte(curve, slot_pos(i) - 8)
            } else {
                b[i]
            },
    )
}

/// Byte `k` of row `r` sits at the expected place.
pub proof fn lemma_slot(r: int, k: int)
    requires
        0 <= r,
        0 <= k < ROW,
    ensures
        slot_row(row_off(r) + k) == r,
        slot_pos(row_off(r) + k) == k,
{
    vstd::arithmetic::div_mod::lemma_fundamental_div_mod_converse(ROW * r + k, ROW as int, r, k);
}

/// Every byte past the header sits in a row at a position below `ROW`.
pub proof fn lemma_byte_slot(i: int)
    requires
        i >= HEADER,
    ensures
        slot_row(i) >= 0,
        0 <= slot_pos(i) < ROW,
        i == row_off(slot_row(i)) + slot_pos(i),
{
    vstd::arithmetic::div_mod::lemma_fundamental_div_mod(i - HEADER, ROW as int);
    vstd::arithmetic::div_mod::lemma_div_pos_is_pos(i - HEADER, ROW as int);
    vstd::arithmetic::div_mod::lemma_mod_bound(i - HEADER, ROW as int);
}

/// The header's row count.
pub fn rows(b: &[u8]) -> (n: usize)
    requires
        b@.len() >= 4,
    ensures
        n == row_count(b@),
{
    let v: u32 = field(b, 0);
    if v < 0x8000_0000 {
        v as usize
    } else {
        usize::MAX - ((0xFFFF_FFFFu32 - v) as usize)
    }
}

/// The little-endian `u32` at `off`.
pub fn field(b: &[u8], off: usize) -> (v: u32)
    requires
        off + 4 <= b@.len(),
    ensures
        v == le_u32(b@, off as int),
{
    (b[off] as u32) + (b[off + 1] as u32) * 256 + (b[off + 2] as u32) * 65536 + (b[off + 3] as u32)
        * 16777216
}

/// `offs` lists, in increasing order, the offsets of exactly the rows of `pool`.
pub open spec fn lists_pool_rows(b: Seq<u8>, pool: int, offs: Seq<usize>) -> bool {
    &&& forall|k: int|
        #![trigger offs[k]]
        0 <= k < offs.len() ==> {
            &&& offs[k] >= HEADER
            &&& slot_pos(offs[k] as int) == 0
            &&& in_pool(b, slot_row(offs[k] as int), pool)
        }
    &&& forall|r: int| #[trigger] in_pool(b, r, pool) ==> offs.contains(row_off(r) as usize)
    &&& forall|j: int, k: int| 0 <= j < k < offs.len() ==> offs[j] < offs[k]
}

/// The offsets of the rows whose key is the id that `pool` names, in table order.
pub fn each_row_of(b: &[u8], pool: &str) -> (offs: Vec<usize>)
    requires
        b@.len() >= 4,
    ensures
        lists_pool_rows(b@, hex_value(pool@) as int, offs@),
{
    let pool = hex(pool);
    let n = rows(b);
    let len = b.len();
    let mut offs: Vec<usize> = Vec::new();
    let mut r: usize = 0;
    let mut off: usize = HEADER;
    while r < n && len >= ROW && off <= len - ROW
        invariant
            n == row_count(b@),
            len == b@.len(),
            off == row_off(r as int),
            r <= n,
            forall|k: int|
                #![trigger offs[k]]
                0 <= k < offs.len() ==> {
                    &&& offs[k] >= HEADER
                    &&& slot_pos(offs[k] as int) == 0
                    &&& slot_row(offs[k] as int) < r
                    &&& in_pool(b@, slot_row(offs[k] as int), pool as int)
                },
            forall|q: int| #[trigger] in_pool(b@, q, pool as int) && q < r ==> offs@.contains(row_off(q) as usize),
            forall|j: int, k: int| 0 <= j < k < offs.len() ==> offs[j] < offs[k],
            forall|k: int| 0 <= k < offs.len() ==> offs[k] < off,
        decreases n - r,
    {
        proof {
            lemma_slot(r as int, 0);
        }
        let ghost prev = offs@;
        if field(b, off) == pool {
            offs.push(off);
            proof {
                assert(in_pool(b@, r as int, pool as int));
                assert(offs@[prev.len() as int] == off);
            }
        }
        proof {
            assert forall|q: int| #[trigger] in_pool(b@, q, pool as int) && q < r + 1 implies offs@.contains(row_off(q) as usize) by {
                if q < r {
                    assert(prev.contains(row_off(q) as usize));
                    let j = choose|j: int| 0 <= j < prev.len() && prev[j] == row_off(q) as usize;
                    assert(offs@[j] == prev[j]);
                } else {
                    assert(offs@[offs@.len() - 1] == off);
                }
            }
        }
        r = r + 1;
        off = off + ROW;
    }
    proof {
        assert forall|q: int| #[trigger] in_pool(b@, q, pool as int) implies offs@.contains(row_off(q) as usize) by {
            if q >= r {
                assert(row_off(q) >= row_off(r as int));
            }
        }
    }
    offs
}

/// A pool row `s` other than the one at `offs[k]` was handled before step `k`
/// exactly when it is handled before step `k + 1`.
proof fn lemma_listed_order(b: Seq<u8>, p: int, offs: Seq<usize>, k: int, s: int)
    requires
        b.len() <= usize::MAX,
        lists_pool_rows(b, p, offs),
        0 <= k < offs.len(),
        in_pool(b, s, p),
        row_off(s) != offs[k],
    ensures
        k + 1 < offs.len() ==> (row_off(s) < offs[k + 1] <==> row_off(s) < offs[k]),
        k + 1 == offs.len() ==> row_off(s) < offs[k],
{
    assert(offs.contains(row_off(s) as usize));
    let j = choose|j: int| 0 <= j < offs.len() && offs[j] == row_off(s) as usize;
    assert(j != k);
    if j < k {
        assert(offs[j] < offs[k]);
        if k + 1 < offs.len() {
            assert(offs[k] < offs[k + 1]);
        }
    } else {
        assert(offs[k] < offs[j]);
        if k + 1 < offs.len() {
            if j > k + 1 {
                assert(offs[k + 1] < offs[j]);
            }
        }
    }
}

/// A listed offset is the start of the row it names.
proof fn lemma_listed_start(b: Seq<u8>, p: int, offs: Seq<usize>, k: int)
    requires
        lists_pool_rows(b, p, offs),
        0 <= k < offs.len(),
    ensures
        offs[k] == row_off(slot_row(offs[k] as int)),
        in_pool(b, slot_row(offs[k] as int), p),
        slot_row(offs[k] as int) >= 0,
{
    lemma_byte_slot(offs[k] as int);
}

/// After `k` steps of `force`, the weight bytes of the pool rows before `offs[k]`
/// (all of them once `k` reaches the end) are rewritten and nothing else moved.
#[verifier::opaque]
pub open spec fn force_progress(b0: Seq<u8>, p: int, keep: int, offs: Seq<usize>, k: int, cur: Seq<u8>) -> bool {
    &&& cur.len() == b0.len()
    &&& forall|i: int|
        0 <= i < b0.len() ==> #[trigger] cur[i] == (if forces_byte(b0, p, keep, i) && (k < offs.len()
            ==> row_off(slot_row(i)) < offs[k]) {
            le_byte(1, slot_pos(i) - 12)
        } else {
            b0[i]
        })
}

/// One step of `force` keeps `force_progress`.
proof fn lemma_force_step(
    b0: Seq<u8>,
    p: int,
    keep: int,
    offs: Seq<usize>,
    k: int,
    before: Seq<u8>,
    after: Seq<u8>,
)
    requires
        b0.len() <= usize::MAX,
        lists_pool_rows(b0, p, offs),
        0 <= k < offs.len(),
        force_progress(b0, p, keep, offs, k, before),
        row_id(b0, slot_row(offs[k] as int)) != keep ==> after == before.update(offs[k] + 12, 1u8)
            .update(offs[k] + 13, 0u8).update(offs[k] + 14, 0u8).update(offs[k] + 15, 0u8),
        row_id(b0, slot_row(offs[k] as int)) == keep ==> after == before,
    ensures
        force_progress(b0, p, keep, offs, k + 1, after),
{
    reveal(force_progress);
    let off = offs[k] as int;
    let r = slot_row(off);
    lemma_listed_start(b0, p, offs, k);
    assert forall|i: int| 0 <= i < b0.len() implies #[trigger] after[i] == (if forces_byte(
        b0,
        p,
        keep,
        i,
    ) && (k + 1 < offs.len() ==> row_off(slot_row(i)) < offs[k + 1]) {
        le_byte(1, slot_pos(i) - 12)
    } else {
        b0[i]
    }) by {
        assert(before[i] == (if forces_byte(b0, p, keep, i) && (k < offs.len() ==> row_off(slot_row(i))
            < offs[k]) {
            le_byte(1, slot_pos(i) - 12)
        } else {
            b0[i]
        }));
        if off <= i < off + ROW {
            lemma_slot(r, i - off);
            if k + 1 < offs.len() {
                assert(offs[k] < offs[k + 1]);
            }
        } else {
            assert(after[i] == before[i]);
            if forces_byte(b0, p, keep, i) {
                let s = slot_row(i);
                lemma_byte_slot(i);
                lemma_listed_order(b0, p, offs, k, s);
            }
        }
    }
}

/// Before the first step of `force`, nothing is due yet.
proof fn lemma_force_start(b0: Seq<u8>, p: int, keep: int, offs: Seq<usize>)
    requires
        b0.len() <= usize::MAX,
        lists_pool_rows(b0, p, offs),
    ensures
        force_progress(b0, p, keep, offs, 0, b0),
{
    reveal(force_progress);
    assert forall|i: int| 0 <= i < b0.len() && #[trigger] forces_byte(b0, p, keep, i) implies !(0
        < offs.len() ==> row_off(slot_row(i)) < offs[0]) by {
        let s = slot_row(i);
        assert(offs.contains(row_off(s) as usize));
        let j = choose|j: int| 0 <= j < offs.len() && offs[j] == row_off(s) as usize;
        if j > 0 {
            assert(offs[0] < offs[j]);
        }
    }
}

/// Before step `k`, the id field of the row at `offs[k]` is still as it was.
proof fn lemma_force_id_intact(b0: Seq<u8>, p: int, keep: int, offs: Seq<usize>, k: int, cur: Seq<u8>)
    requires
        lists_pool_rows(b0, p, offs),
        0 <= k < offs.len(),
        force_progress(b0, p, keep, offs, k, cur),
    ensures
        cur.len() == b0.len(),
        offs[k] + ROW <= cur.len(),
        le_u32(cur, offs[k] + 4) == row_id(b0, slot_row(offs[k] as int)),
{
    reveal(force_progress);
    let off = offs[k] as int;
    let r = slot_row(off);
    lemma_listed_start(b0, p, offs, k);
    assert forall|t: int| 4 <= t < 8 implies #[trigger] cur[off + t] == b0[off + t] by {
        lemma_slot(r, t);
    }
}

/// Sets the weight of every row of pool `pool` to 1, except the rows whose id is `keep`,
/// which keep their weight: the chosen row still rolls, just heavily favoured.
pub fn force(b: &mut [u8], pool: &str, keep: &str)
    requires
        old(b)@.len() >= 4,
    ensures
        final(b)@ == forced(old(b)@, hex_value(pool@) as int, hex_value(keep@) as int),
{
    let ghost b0 = b@;
    let ghost p = hex_value(pool@) as int;
    let len = b.len();
    assert(b0.len() == len);
    let keep = hex(keep);
    let offs = each_row_of(b, pool);
    let mut k: usize = 0;
    proof {
        lemma_force_start(b0, p, keep as int, offs@);
    }
    while k < offs.len()
        invariant
            b0.len() <= usize::MAX,
            lists_pool_rows(b0, p, offs@),
            k <= offs.len(),
            force_progress(b0, p, keep as int, offs@, k as int, b@),
        decreases offs.len() - k,
    {
        let off = offs[k];
        proof {
            lemma_force_id_intact(b0, p, keep as int, offs@, k as int, b@);
        }
        let id = field(b, off + 4);
        let ghost before = b@;
        if id != keep {
            b[off + 12] = 1;
            b[off + 13] = 0;
            b[off + 14] = 0;
            b[off + 15] = 0;
        }
        proof {
            lemma_force_step(b0, p, keep as int, offs@, k as int, before, b@);
        }
        k = k + 1;
    }
    proof {
        reveal(force_progress);
        assert(b@ =~= forced(b0, p, keep as int));
    }
}

/// After `k` steps of `set_curve`, the curve bytes of the pool rows before `offs[k]`
/// (all of them once `k` reaches the end) hold `curve` and nothing else moved.
#[verifier::opaque]
pub open spec fn curve_progress(b0: Seq<u8>, p: int, curve: int, offs: Seq<usize>, k: int, cur: Seq<u8>) -> bool {
    &&& cur.len() == b0.len()
    &&& forall|i: int|
        0 <= i < b0.len() ==> #[trigger] cur[i] == (if curve_byte(b0, p, i) && (k < offs.len() ==> row_off(
            slot_row(i),
        ) < offs[k]) {
            le_byte(curve, slot_pos(i) - 8)
        } else {
            b0[i]
        })
}

/// Before the first step of `set_curve`, nothing is due yet.
proof fn lemma_curve_start(b0: Seq<u8>, p: int, curve: int, offs: Seq<usize>)
    requires
        b0.len() <= usize::MAX,
        lists_pool_rows(b0, p, offs),
    ensures
        curve_progress(b0, p, curve, offs, 0, b0),
{
    reveal(curve_progress);
    assert forall|i: int| 0 <= i < b0.len() && #[trigger] curve_byte(b0, p, i) implies !(0 < offs.len()
        ==> row_off(slot_row(i)) < offs[0]) by {
        let s = slot_row(i);
        assert(offs.contains(row_off(s) as usize));
        let j = choose|j: int| 0 <= j < offs.len() && offs[j] == row_off(s) as usize;
        if j > 0 {
            assert(offs[0] < offs[j]);
        }
    }
}

/// One step of `set_curve` keeps `curve_progress`.
proof fn lemma_curve_step(
    b0: Seq<u8>,
    p: int,
    curve: int,
    offs: Seq<usize>,
    k: int,
    before: Seq<u8>,
    after: Seq<u8>,
)
    requires
        b0.len() <= usize::MAX,
        lists_pool_rows(b0, p, offs),
        0 <= k < offs.len(),
        curve_progress(b0, p, curve, offs, k, before),
        after == before.update(offs[k] + 8, le_byte(curve, 0)).update(offs[k] + 9, le_byte(curve, 1)).update(
            offs[k] + 10,
            le_byte(curve, 2),
        ).update(offs[k] + 11, le_byte(curve, 3)),
    ensures
        curve_progress(b0, p, curve, offs, k + 1, after),
{
    reveal(curve_progress);
    let off = offs[k] as int;
    let r = slot_row(off);
    lemma_listed_start(b0, p, offs, k);
    assert forall|i: int| 0 <= i < b0.len() implies #[trigger] after[i] == (if curve_byte(b0, p, i) && (k
        + 1 < offs.len() ==> row_off(slot_row(i)) < offs[k + 1]) {
        le_byte(curve, slot_pos(i) - 8)
    } else {
        b0[i]
    }) by {
        assert(before[i] == (if curve_byte(b0, p, i) && (k < offs.len() ==> row_off(slot_row(i))
            < offs[k]) {
            le_byte(curve, slot_pos(i) - 8)
        } else {
            b0[i]
        }));
        if off <= i < off + ROW {
            lemma_slot(r, i - off);
            if k + 1 < offs.len() {
                assert(offs[k] < offs[k + 1]);
            }
        } else {
            assert(after[i] == before[i]);
            if curve_byte(b0, p, i) {
                let s = slot_row(i);
                lemma_byte_slot(i);
                lemma_listed_order(b0, p, offs, k, s);
            }
        }
    }
}

/// Points every row of pool `pool` at the level curve `curve`.
pub fn set_curve(b: &mut [u8], pool: &str, curve: &str)
    requires
        old(b)@.len() >= 4,
    ensures
        final(b)@ == curved(old(b)@, hex_value(pool@) as int, hex_value(curve@) as int),
{
    let ghost b0 = b@;
    let ghost p = hex_value(pool@) as int;
    let len = b.len();
    assert(b0.len() == len);
    let curve = hex(curve);
    let c0 = (curve % 256) as u8;
    let c1 = ((curve / 256) % 256) as u8;
    let c2 = ((curve / 65536) % 256) as u8;
    let c3 = ((curve / 16777216) % 256) as u8;
    let offs = each_row_of(b, pool);
    let mut k: usize = 0;
    proof {
        lemma_curve_start(b0, p, curve as int, offs@);
    }
    while k < offs.len()
        invariant
            b0.len() <= usize::MAX,
            lists_pool_rows(b0, p, offs@),
            k <= offs.len(),
            curve_progress(b0, p, curve as int, offs@, k as int, b@),
            c0 == le_byte(curve as int, 0),
            c1 == le_byte(curve as int, 1),
            c2 == le_byte(curve as int, 2),
            c3 == le_byte(curve as int, 3),
        decreases offs.len() - k,
    {
        let off = offs[k];
        proof {
            lemma_listed_start(b0, p, offs@, k as int);
            reveal(curve_progress);
        }
        let ghost before = b@;
        b[off + 8] = c0;
        b[off + 9] = c1;
        b[off + 10] = c2;
        b[off + 11] = c3;
        proof {
            lemma_curve_step(b0, p, curve as int, offs@, k as int, before, b@);
        }
        k = k + 1;
    }
    proof {
        reveal(curve_progress);
        assert(b@ =~= curved(b0, p, curve as int));
    }
}

/// The four little-endian bytes of a `u32` value spell that value back.
pub proof fn lemma_le_bytes_roundtrip(v: int)
    requires
        0 <= v <= u32::MAX,
    ensures
        le_byte(v, 0) + 256 * le_byte(v, 1) + 65536 * le_byte(v, 2) + 16777216 * le_byte(v, 3) == v,
{
    let a = v % 256;
    let q1 = v / 256;
    let b1 = q1 % 256;
    let q2 = v / 65536;
    let b2 = q2 % 256;
    let q3 = v / 16777216;
    let b3 = q3 % 256;
    assert(v == a + 256 * b1 + 65536 * b2 + 16777216 * b3) by (nonlinear_arith)
        requires
            0 <= v <= u32::MAX,
            a == v % 256,
            q1 == v / 256,
            b1 == q1 % 256,
            q2 == v / 65536,
            b2 == q2 % 256,
            q3 == v / 16777216,
            b3 == q3 % 256,
    ;
}

/// Row by row, `force` sets the weight of the pool's rows whose id is not `keep`
/// to 1 and leaves every other field of every row, the header and the length as they were.
pub proof fn lemma_forced_row(b: Seq<u8>, pool: int, keep: int, r: int)
    requires
        b.len() >= 4,
        0 <= r,
    ensures
        ({
            let f = forced(b, pool, keep);
            &&& f.len() == b.len()
            &&& row_count(f) == row_count(b)
            &&& is_row(f, r) == is_row(b, r)
            &&& is_row(b, r) ==> {
                &&& row_key(f, r) == row_key(b, r)
                &&& row_id(f, r) == row_id(b, r)
                &&& row_curve(f, r) == row_curve(b, r)
                &&& row_weight(f, r) == if row_key(b, r) == pool && row_id(b, r) != keep {
                    1
                } else {
                    row_weight(b, r)
                }
                &&& forall|k: int| 16 <= k < ROW ==> #[trigger] f[row_off(r) + k] == b[row_off(r) + k]
            }
        }),
{
    let f = forced(b, pool, keep);
    assert(f[0] == b[0] && f[1] == b[1] && f[2] == b[2] && f[3] == b[3]);
    if is_row(b, r) {
        assert forall|k: int| 0 <= k < ROW implies #[trigger] f[row_off(r) + k] == if in_pool(b, r, pool)
            && row_id(b, r) != keep && 12 <= k < 16 {
            le_byte(1, k - 12)
        } else {
            b[row_off(r) + k]
        } by {
            lemma_slot(r, k);
        }
        assert(f[row_off(r) + 0] == b[row_off(r) + 0]);
        assert(f[row_off(r) + 1] == b[row_off(r) + 1]);
        assert(f[row_off(r) + 2] == b[row_off(r) + 2]);
        assert(f[row_off(r) + 3] == b[row_off(r) + 3]);
        assert(f[row_off(r) + 4] == b[row_off(r) + 4]);
        assert(f[row_off(r) + 5] == b[row_off(r) + 5]);
        assert(f[row_off(r) + 6] == b[row_off(r) + 6]);
        assert(f[row_off(r) + 7] == b[row_off(r) + 7]);
        assert(f[row_off(r) + 8] == b[row_off(r) + 8]);
        assert(f[row_off(r) + 9] == b[row_off(r) + 9]);
        assert(f[row_off(r) + 10] == b[row_off(r) + 10]);
        assert(f[row_off(r) + 11] == b[row_off(r) + 11]);
    }
}

/// Row by row, `set_curve` points the pool's rows at `curve` and leaves every other
/// field of every row, the header and the length as they were.
pub proof fn lemma_curved_row(b: Seq<u8>, pool: int, curve: int, r: int)
    requires
        b.len() >= 4,
        0 <= r,
        0 <= curve <= u32::MAX,
    ensures
        ({
            let f = curved(b, pool, curve);
            &&& f.len() == b.len()
            &&& row_count(f) == row_count(b)
            &&& is_row(f, r) == is_row(b, r)
            &&& is_row(b, r) ==> {
                &&& row_key(f, r) == row_key(b, r)
                &&& row_id(f, r) == row_id(b, r)
                &&& row_weight(f, r) == row_weight(b, r)
                &&& row_curve(f, r) == if row_key(b, r) == pool {
                    curve
                } else {
                    row_curve(b, r)
                }
                &&& forall|k: int| 16 <= k < ROW ==> #[trigger] f[row_off(r) + k] == b[row_off(r) + k]
            }
        }),
{
    let f = curved(b, pool, curve);
    assert(f[0] == b[0] && f[1] == b[1] && f[2] == b[2] && f[3] == b[3]);
    if is_row(b, r) {
        assert forall|k: int| 0 <= k < ROW implies #[trigger] f[row_off(r) + k] == if in_pool(b, r, pool)
            && 8 <= k < 12 {
            le_byte(curve, k - 8)
        } else {
            b[row_off(r) + k]
        } by {
            lemma_slot(r, k);
        }
        assert(f[row_off(r) + 0] == b[row_off(r) + 0]);
        assert(f[row_off(r) + 1] == b[row_off(r) + 1]);
        assert(f[row_off(r) + 2] == b[row_off(r) + 2]);
        assert(f[row_off(r) + 3] == b[row_off(r) + 3]);
        assert(f[row_off(r) + 4] == b[row_off(r) + 4]);
        assert(f[row_off(r) + 5] == b[row_off(r) + 5]);
        assert(f[row_off(r) + 6] == b[row_off(r) + 6]);
        assert(f[row_off(r) + 7] == b[row_off(r) + 7]);
        assert(f[row_off(r) + 12] == b[row_off(r) + 12]);
        assert(f[row_off(r) + 13] == b[row_off(r) + 13]);
        assert(f[row_off(r) + 14] == b[row_off(r) + 14]);
        assert(f[row_off(r) + 15] == b[row_off(r) + 15]);
        lemma_le_bytes_roundtrip(curve);
    }
}

/// `b` with the weight at row offset `off` set to 1.
pub open spec fn weight_one_at(b: Seq<u8>, off: int) -> Seq<u8> {
    b.update(off + 12, 1u8).update(off + 13, 0u8).update(off + 14, 0u8).update(off + 15, 0u8)
}

/// The row-by-row loop that patches a pool directly: from row `r` up to the header's
/// count `n`, stopping at the first row that does not fit in the buffer, it sets the
/// weight of each row of `pool` whose id is not `keep` to 1.
pub open spec fn force_pool_from(b: Seq<u8>, pool: int, keep: int, r: int, n: int) -> Seq<u8>
    decreases n - r,
{
    if r >= n || row_off(r) + ROW > b.len() {
        b
    } else {
        let next = if row_key(b, r) == pool && row_id(b, r) != keep {
            weight_one_at(b, row_off(r))
        } else {
            b
        };
        force_pool_from(next, pool, keep, r + 1, n)
    }
}

/// `forced` restricted to the rows before `r`.
pub open spec fn forced_before(b: Seq<u8>, pool: int, keep: int, r: int) -> Seq<u8> {
    Seq::new(
        b.len(),
        |i: int|
            if forces_byte(b, pool, keep, i) && slot_row(i) < r {
                le_byte(1, slot_pos(i) - 12)
            } else {
                b[i]
            },
    )
}

/// The direct loop, resumed at row `r` on a table forced up to `r`, finishes the job.
proof fn lemma_force_pool_from(b: Seq<u8>, pool: int, keep: int, r: int)
    requires
        b.len() >= 4,
        0 <= r,
    ensures
        force_pool_from(forced_before(b, pool, keep, r), pool, keep, r, row_count(b)) == forced(b, pool, keep),
    decreases row_count(b) - r,
{
    let n = row_count(b);
    let fb = forced_before(b, pool, keep, r);
    assert(fb[0] == b[0] && fb[1] == b[1] && fb[2] == b[2] && fb[3] == b[3]);
    if r >= n || row_off(r) + ROW > fb.len() {
        assert forall|i: int| 0 <= i < b.len() && #[trigger] forces_byte(b, pool, keep, i) implies slot_row(i) < r by {
            lemma_byte_slot(i);
            if slot_row(i) >= r {
                assert(row_off(slot_row(i)) >= row_off(r));
            }
        }
        assert(fb =~= forced(b, pool, keep));
    } else {
        let off = row_off(r);
        assert forall|t: int| 0 <= t < 8 implies #[trigger] fb[off + t] == b[off + t] by {
            lemma_slot(r, t);
        }
        assert(row_key(fb, r) == row_key(b, r));
        assert(row_id(fb, r) == row_id(b, r));
        let next = if row_key(fb, r) == pool && row_id(fb, r) != keep {
            weight_one_at(fb, off)
        } else {
            fb
        };
        assert forall|i: int| 0 <= i < b.len() implies #[trigger] next[i] == forced_before(b, pool, keep, r + 1)[i] by {
            if off <= i < off + ROW {
                lemma_slot(r, i - off);
            } else if i >= HEADER {
                lemma_byte_slot(i);
                if slot_row(i) == r {
                    assert(i == off + slot_pos(i));
                }
            }
        }
        assert(next =~= forced_before(b, pool, keep, r + 1));
        lemma_force_pool_from(b, pool, keep, r + 1);
    }
}

/// `force` writes exactly what the direct row-by-row loop writes: the weight of each
/// row of the pool whose id is not `keep`, for the rows the header announces, up to
/// the first that does not fit in the buffer.
pub proof fn lemma_force_is_direct_loop(b: Seq<u8>, pool: int, keep: int)
    requires
        b.len() >= 4,
    ensures
        force_pool_from(b, pool, keep, 0, row_count(b)) == forced(b, pool, keep),
{
    assert forall|i: int| 0 <= i < b.len() implies #[trigger] forced_before(b, pool, keep, 0)[i] == b[i] by {
        if i >= HEADER {
            lemma_byte_slot(i);
        }
    }
    assert(forced_before(b, pool, keep, 0) =~= b);
    lemma_force_pool_from(b, pool, keep, 0);
}

} // verus!
