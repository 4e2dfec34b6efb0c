//! Re-weighting the base `summon_lot.tbl` for a set of picks.
use vstd::prelude::*;

use crate::data::{
    bonus_catalog, bonus_id, bonuses, summon_catalog, summons, BonusView, SummonView,
    ASTRAL_CURVE_HALF, ASTRAL_CURVE_MAX,
};
use crate::data::lemma_catalog_pool_ids;
use crate::hexid::hex_value;
use crate::table::{
    curve_byte, curved, force, forced, forces_byte, in_pool, is_row, lemma_curved_row,
    lemma_forced_row, row_count, row_curve, row_id, row_key, row_off, row_weight, set_curve,
    slot_row, HEADER, ROW,
};

verus! {

/// What the player chose for one summon: an index into its skills, an index into
/// the bonuses, and for an astral summon whether its bonus is capped at normal-tier values.
#[derive(Clone, Copy)]
pub struct Pick {
    pub skill: usize,
    pub bonus: usize,
    pub half_cap: bool,
}

impl Default for Pick {
    fn default() -> (p: Self)
        ensures
            p == (Pick { skill: 0, bonus: 0, half_cap: false }),
    {
        Pick { skill: 0, bonus: 0, half_cap: false }
    }
}

/// The equip curve an astral summon gets for the pick.
pub open spec fn astral_curve(half_cap: bool) -> Seq<char> {
    if half_cap {
        ASTRAL_CURVE_HALF@
    } else {
        ASTRAL_CURVE_MAX@
    }
}

/// The table after one summon's pick: its skill pool forced to the chosen skill, its
/// equip pool forced to the chosen bonus, and for an astral summon its equip pool
/// pointed at the chosen curve.
pub open spec fn patch_one(b: Seq<u8>, s: SummonView, bonus: BonusView, p: Pick) -> Seq<u8> {
    let b1 = forced(b, hex_value(s.skill_pool) as int, hex_value(s.skills[p.skill as int].1) as int);
    let b2 = forced(b1, hex_value(s.equip_pool) as int, hex_value(bonus_id(bonus, s.astral)) as int);
    if s.astral {
        curved(b2, hex_value(s.equip_pool) as int, hex_value(astral_curve(p.half_cap)) as int)
    } else {
        b2
    }
}

/// The table after the picks of the first `n` summons, in catalogue order.
pub open spec fn patched(
    base: Seq<u8>,
    catalog: Seq<SummonView>,
    bonus_list: Seq<BonusView>,
    picks: Seq<Pick>,
    n: nat,
) -> Seq<u8>
    decreases n,
{
    if n == 0 {
        base
    } else {
        patch_one(
            patched(base, catalog, bonus_list, picks, (n - 1) as nat),
            catalog[n - 1],
            bonus_list[picks[n - 1].bonus as int],
            picks[n - 1],
        )
    }
}

/// How many summons a list of picks covers: picks pair up with summons in order,
/// and the shorter of the two lists decides.
pub open spec fn covered(picks: Seq<Pick>) -> nat {
    if picks.len() < summon_catalog().len() {
        picks.len()
    } else {
        summon_catalog().len()
    }
}

/// Every covered pick names a skill of its summon and an existing bonus.
pub open spec fn picks_in_range(picks: Seq<Pick>) -> bool {
    forall|i: int|
        0 <= i < covered(picks) ==> {
            &&& (#[trigger] picks[i]).skill < summon_catalog()[i].skills.len()
            &&& picks[i].bonus < bonus_catalog().len()
        }
}

/// The base table re-weighted so that each summon rolls the skill and bonus picked for it.
pub fn patched_summon_lot(base: &[u8], picks: &[Pick]) -> (lot: Vec<u8>)
    requires
        picks_in_range(picks@),
        picks@.len() > 0 ==> base@.len() >= 4,
    ensures
        lot@ == patched(base@, summon_catalog(), bonus_catalog(), picks@, covered(picks@)),
{
    let catalog = summons();
    let bonus_list = bonuses();
    let mut lot = vstd::slice::slice_to_vec(base);
    let n = if picks.len() < catalog.len() {
        picks.len()
    } else {
        catalog.len()
    };
    proof {
        assert(catalog@.len() == summon_catalog().len());
        assert(bonus_list@.len() == bonus_catalog().len());
    }
    let mut i: usize = 0;
    while i < n
        invariant
            n == covered(picks@),
            i <= n,
            catalog@.map_values(|x: crate::data::Summon| x@) == summon_catalog(),
            bonus_list@.map_values(|b: crate::data::Bonus| b@) == bonus_catalog(),
            picks_in_range(picks@),
            n > 0 ==> base@.len() >= 4,
            lot@.len() == base@.len(),
            lot@ == patched(base@, summon_catalog(), bonus_catalog(), picks@, i as nat),
        decreases n - i,
    {
        let s = &catalog[i];
        let p = picks[i];
        proof {
            assert(s@ == summon_catalog()[i as int]);
            assert(p.skill < s@.skills.len());
            assert(bonus_list@[p.bonus as int]@ == bonus_catalog()[p.bonus as int]);
        }
        let skill = s.skills[p.skill].1;
        force(lot.as_mut_slice(), s.skill_pool, skill);
        let id = bonus_list[p.bonus].id(s.astral);
        force(lot.as_mut_slice(), s.equip_pool, id);
        if s.astral {
            let curve = if p.half_cap {
                ASTRAL_CURVE_HALF
            } else {
                ASTRAL_CURVE_MAX
            };
            set_curve(lot.as_mut_slice(), s.equip_pool, curve);
        }
        i = i + 1;
    }
    lot
}

/// The id of a summon's skill pool.
pub open spec fn skill_pool_id(s: SummonView) -> int {
    hex_value(s.skill_pool) as int
}

/// The id of a summon's equip pool.
pub open spec fn equip_pool_id(s: SummonView) -> int {
    hex_value(s.equip_pool) as int
}

/// No pool is shared: every summon's skill pool and equip pool differ from each other
/// and from every other summon's pools.
pub open spec fn pools_apart(catalog: Seq<SummonView>) -> bool {
    forall|i: int, j: int|
        #![trigger catalog[i], catalog[j]]
        0 <= i < catalog.len() && 0 <= j < catalog.len() ==> {
            &&& skill_pool_id(catalog[i]) != equip_pool_id(catalog[j])
            &&& i != j ==> skill_pool_id(catalog[i]) != skill_pool_id(catalog[j])
            &&& i != j ==> equip_pool_id(catalog[i]) != equip_pool_id(catalog[j])
        }
}

/// The shipped summons share no pool.
pub proof fn lemma_catalog_pools_apart()
    ensures
        pools_apart(summon_catalog()),
{
    lemma_catalog_pool_ids();
}

/// What one row becomes after the picks of the first `n` summons: the rows of a summon's
/// skill pool keep their weight where they hold the picked skill and drop to weight 1
/// otherwise; the rows of its equip pool do the same for the picked bonus, and for an
/// astral summon take the picked curve; every other field, every other row, the header and
/// the length stay as they were.
pub open spec fn row_after_picks(
    base: Seq<u8>,
    out: Seq<u8>,
    catalog: Seq<SummonView>,
    bonus_list: Seq<BonusView>,
    picks: Seq<Pick>,
    n: int,
    r: int,
) -> bool {
    &&& out.len() == base.len()
    &&& row_count(out) == row_count(base)
    &&& is_row(out, r) == is_row(base, r)
    &&& is_row(base, r) ==> {
        &&& row_key(out, r) == row_key(base, r)
        &&& row_id(out, r) == row_id(base, r)
        &&& forall|k: int| 16 <= k < ROW ==> #[trigger] out[row_off(r) + k] == base[row_off(r) + k]
        &&& forall|i: int|
            #![trigger catalog[i]]
            0 <= i < n && row_key(base, r) == skill_pool_id(catalog[i]) ==> {
                &&& row_weight(out, r) == if row_id(base, r) == hex_value(
                    catalog[i].skills[picks[i].skill as int].1,
                ) {
                    row_weight(base, r)
                } else {
                    1
                }
                &&& row_curve(out, r) == row_curve(base, r)
            }
        &&& forall|i: int|
            #![trigger catalog[i]]
            0 <= i < n && row_key(base, r) == equip_pool_id(catalog[i]) ==> {
                &&& row_weight(out, r) == if row_id(base, r) == hex_value(
                    bonus_id(bonus_list[picks[i].bonus as int], catalog[i].astral),
                ) {
                    row_weight(base, r)
                } else {
                    1
                }
                &&& row_curve(out, r) == if catalog[i].astral {
                    hex_value(astral_curve(picks[i].half_cap)) as int
                } else {
                    row_curve(base, r)
                }
            }
        &&& (forall|i: int|
            #![trigger catalog[i]]
            0 <= i < n ==> row_key(base, r) != skill_pool_id(catalog[i]) && row_key(base, r)
                != equip_pool_id(catalog[i])) ==> {
            &&& row_weight(out, r) == row_weight(base, r)
            &&& row_curve(out, r) == row_curve(base, r)
        }
    }
}

/// Patching forces every summon at once: after the picks of the first `n` summons, each
/// row of a summon's pools is weighted and curved as `row_after_picks` says, provided no
/// two pools coincide.
pub proof fn lemma_patched_rows(
    base: Seq<u8>,
    catalog: Seq<SummonView>,
    bonus_list: Seq<BonusView>,
    picks: Seq<Pick>,
    n: nat,
    r: int,
)
    requires
        base.len() >= 4,
        n <= catalog.len(),
        n <= picks.len(),
        pools_apart(catalog),
        0 <= r,
    ensures
        row_after_picks(base, patched(base, catalog, bonus_list, picks, n), catalog, bonus_list, picks, n as int, r),
    decreases n,
{
    if n > 0 {
        let m = (n - 1) as nat;
        lemma_patched_rows(base, catalog, bonus_list, picks, m, r);
        let prev = patched(base, catalog, bonus_list, picks, m);
        let s = catalog[m as int];
        let p = picks[m as int];
        let bonus = bonus_list[p.bonus as int];
        let b1 = forced(prev, skill_pool_id(s), hex_value(s.skills[p.skill as int].1) as int);
        let b2 = forced(b1, equip_pool_id(s), hex_value(bonus_id(bonus, s.astral)) as int);
        lemma_forced_row(prev, skill_pool_id(s), hex_value(s.skills[p.skill as int].1) as int, r);
        lemma_forced_row(b1, equip_pool_id(s), hex_value(bonus_id(bonus, s.astral)) as int, r);
        if s.astral {
            lemma_curved_row(b2, equip_pool_id(s), hex_value(astral_curve(p.half_cap)) as int, r);
        }
        let out = patched(base, catalog, bonus_list, picks, n);
        assert(out == patch_one(prev, s, bonus, p));
        if is_row(base, r) {
            assert forall|i: int|
                #![trigger catalog[i]]
                0 <= i < m ==> row_key(base, r) != skill_pool_id(s) && row_key(base, r) != equip_pool_id(s)
                    || row_key(base, r) != skill_pool_id(catalog[i]) && row_key(base, r) != equip_pool_id(catalog[i]) by {
                if 0 <= i < m {
                    assert(i != m);
                }
            }
        }
    }
}

/// The shipped catalogue forces every summon at once: in the table `patched_summon_lot`
/// returns, each row is as `row_after_picks` describes for the covered picks.
pub proof fn lemma_patched_summon_lot_rows(base: Seq<u8>, picks: Seq<Pick>, r: int)
    requires
        base.len() >= 4,
        0 <= r,
    ensures
        row_after_picks(
            base,
            patched(base, summon_catalog(), bonus_catalog(), picks, covered(picks)),
            summon_catalog(),
            bonus_catalog(),
            picks,
            covered(picks) as int,
            r,
        ),
{
    lemma_catalog_pools_apart();
    lemma_patched_rows(base, summon_catalog(), bonus_catalog(), picks, covered(picks), r);
}

/// Patching never touches a byte outside the table's rows: the header, and anything
/// after the last whole row the header announces, stay as they were.
pub proof fn lemma_patched_outside_rows(
    base: Seq<u8>,
    catalog: Seq<SummonView>,
    bonus_list: Seq<BonusView>,
    picks: Seq<Pick>,
    n: nat,
    i: int,
)
    requires
        base.len() >= 4,
        n <= catalog.len(),
        n <= picks.len(),
        0 <= i < base.len(),
        i < HEADER || !is_row(base, slot_row(i)),
    ensures
        patched(base, catalog, bonus_list, picks, n)[i] == base[i],
        patched(base, catalog, bonus_list, picks, n).len() == base.len(),
        row_count(patched(base, catalog, bonus_list, picks, n)) == row_count(base),
    decreases n,
{
    if n > 0 {
        let m = (n - 1) as nat;
        lemma_patched_outside_rows(base, catalog, bonus_list, picks, m, i);
        let prev = patched(base, catalog, bonus_list, picks, m);
        let s = catalog[m as int];
        let p = picks[m as int];
        let bonus = bonus_list[p.bonus as int];
        let k1 = hex_value(s.skills[p.skill as int].1) as int;
        let k2 = hex_value(bonus_id(bonus, s.astral)) as int;
        let b1 = forced(prev, skill_pool_id(s), k1);
        let b2 = forced(b1, equip_pool_id(s), k2);
        let c = hex_value(astral_curve(p.half_cap)) as int;
        if i >= HEADER {
            crate::table::lemma_byte_slot(i);
            let q = slot_row(i);
            lemma_forced_row(prev, skill_pool_id(s), k1, q);
            lemma_forced_row(b1, equip_pool_id(s), k2, q);
            lemma_curved_row(b2, equip_pool_id(s), c, q);
        } else {
            lemma_forced_row(prev, skill_pool_id(s), k1, 0);
            lemma_forced_row(b1, equip_pool_id(s), k2, 0);
            lemma_curved_row(b2, equip_pool_id(s), c, 0);
        }
        assert(patched(base, catalog, bonus_list, picks, n) == patch_one(prev, s, bonus, p));
    }
}

/// Row `r` is a whole row of `x` exactly when it is one of `y`, and then has the same
/// key and id in both.
pub open spec fn same_row_head(x: Seq<u8>, y: Seq<u8>, r: int) -> bool {
    &&& is_row(x, r) == is_row(y, r)
    &&& is_row(x, r) ==> row_key(x, r) == row_key(y, r) && row_id(x, r) == row_id(y, r)
}

/// Two tables that agree at byte `k` and on the head of its row still agree there after
/// forcing the same pool, where the kept ids may differ only if `k` is outside the pool.
proof fn lemma_forced_agree(x: Seq<u8>, y: Seq<u8>, pool: int, keep_x: int, keep_y: int, k: int)
    requires
        x.len() == y.len(),
        row_count(x) == row_count(y),
        0 <= k < x.len(),
        x[k] == y[k],
        k >= HEADER ==> same_row_head(x, y, slot_row(k)),
        keep_x != keep_y ==> !(k >= HEADER && in_pool(x, slot_row(k), pool)),
    ensures
        forced(x, pool, keep_x)[k] == forced(y, pool, keep_y)[k],
{
    assert(forces_byte(x, pool, keep_x, k) == forces_byte(y, pool, keep_y, k));
}

/// Two tables that agree at byte `k` and on the head of its row still agree there after
/// pointing the same pool at a curve, where the curves may differ only if `k` is outside
/// the pool.
proof fn lemma_curved_agree(x: Seq<u8>, y: Seq<u8>, pool: int, c_x: int, c_y: int, k: int)
    requires
        x.len() == y.len(),
        row_count(x) == row_count(y),
        0 <= k < x.len(),
        x[k] == y[k],
        k >= HEADER ==> same_row_head(x, y, slot_row(k)),
        c_x != c_y ==> !(k >= HEADER && in_pool(x, slot_row(k), pool)),
    ensures
        curved(x, pool, c_x)[k] == curved(y, pool, c_y)[k],
{
    assert(curve_byte(x, pool, k) == curve_byte(y, pool, k));
}

/// Byte `k` lies in a row of one of summon `s`'s two pools.
pub open spec fn in_summon_rows(base: Seq<u8>, s: SummonView, k: int) -> bool {
    &&& k >= HEADER
    &&& is_row(base, slot_row(k))
    &&& (row_key(base, slot_row(k)) == skill_pool_id(s) || row_key(base, slot_row(k)) == equip_pool_id(s))
}

/// One summon's pick touches only that summon's rows: two lists of picks that differ at
/// most for summon `i` give tables that agree on every byte outside the rows of summon
/// `i`'s pools.
pub proof fn lemma_patched_local(
    base: Seq<u8>,
    catalog: Seq<SummonView>,
    bonus_list: Seq<BonusView>,
    p: Seq<Pick>,
    q: Seq<Pick>,
    n: nat,
    i: int,
    k: int,
)
    requires
        base.len() >= 4,
        n <= catalog.len(),
        n <= p.len(),
        n <= q.len(),
        pools_apart(catalog),
        0 <= i < catalog.len(),
        forall|j: int| 0 <= j < n && j != i ==> p[j] == q[j],
        0 <= k < base.len(),
        !in_summon_rows(base, catalog[i], k),
    ensures
        patched(base, catalog, bonus_list, p, n)[k] == patched(base, catalog, bonus_list, q, n)[k],
    decreases n,
{
    if n > 0 {
        let m = (n - 1) as nat;
        lemma_patched_local(base, catalog, bonus_list, p, q, m, i, k);
        let r = if k >= HEADER { slot_row(k) } else { 0 };
        if k >= HEADER {
            crate::table::lemma_byte_slot(k);
        }
        lemma_patched_rows(base, catalog, bonus_list, p, m, r);
        lemma_patched_rows(base, catalog, bonus_list, q, m, r);
        lemma_patched_outside_rows(base, catalog, bonus_list, p, m, 0);
        lemma_patched_outside_rows(base, catalog, bonus_list, q, m, 0);
        let xp = patched(base, catalog, bonus_list, p, m);
        let xq = patched(base, catalog, bonus_list, q, m);
        let s = catalog[m as int];
        let pp = p[m as int];
        let pq = q[m as int];
        let kp1 = hex_value(s.skills[pp.skill as int].1) as int;
        let kq1 = hex_value(s.skills[pq.skill as int].1) as int;
        let kp2 = hex_value(bonus_id(bonus_list[pp.bonus as int], s.astral)) as int;
        let kq2 = hex_value(bonus_id(bonus_list[pq.bonus as int], s.astral)) as int;
        let cp = hex_value(astral_curve(pp.half_cap)) as int;
        let cq = hex_value(astral_curve(pq.half_cap)) as int;
        assert(m != i ==> pp == pq);
        if m == i as nat {
            assert(k >= HEADER && is_row(base, r) ==> row_key(base, r) != skill_pool_id(s) && row_key(base, r)
                != equip_pool_id(s));
        }
        let yp1 = forced(xp, skill_pool_id(s), kp1);
        let yq1 = forced(xq, skill_pool_id(s), kq1);
        lemma_forced_row(xp, skill_pool_id(s), kp1, r);
        lemma_forced_row(xq, skill_pool_id(s), kq1, r);
        lemma_forced_agree(xp, xq, skill_pool_id(s), kp1, kq1, k);
        let yp2 = forced(yp1, equip_pool_id(s), kp2);
        let yq2 = forced(yq1, equip_pool_id(s), kq2);
        lemma_forced_row(yp1, equip_pool_id(s), kp2, r);
        lemma_forced_row(yq1, equip_pool_id(s), kq2, r);
        lemma_forced_agree(yp1, yq1, equip_pool_id(s), kp2, kq2, k);
        lemma_curved_row(yp2, equip_pool_id(s), cp, r);
        lemma_curved_row(yq2, equip_pool_id(s), cq, r);
        lemma_curved_agree(yp2, yq2, equip_pool_id(s), cp, cq, k);
        assert(patched(base, catalog, bonus_list, p, n) == patch_one(xp, s, bonus_list[pp.bonus as int], pp));
        assert(patched(base, catalog, bonus_list, q, n) == patch_one(xq, s, bonus_list[pq.bonus as int], pq));
    }
}

/// The patch reads only the first `n` picks.
pub proof fn lemma_patched_prefix(
    base: Seq<u8>,
    catalog: Seq<SummonView>,
    bonus_list: Seq<BonusView>,
    p: Seq<Pick>,
    q: Seq<Pick>,
    n: nat,
)
    requires
        n <= p.len(),
        n <= q.len(),
        forall|j: int| 0 <= j < n ==> p[j] == q[j],
    ensures
        patched(base, catalog, bonus_list, p, n) == patched(base, catalog, bonus_list, q, n),
    decreases n,
{
    if n > 0 {
        lemma_patched_prefix(base, catalog, bonus_list, p, q, (n - 1) as nat);
        assert(p[n - 1] == q[n - 1]);
    }
}

/// For the shipped catalogue: no picks give the base table back, and picks beyond the
/// eighth are ignored.
pub proof fn lemma_patched_summon_lot_extent(base: Seq<u8>, picks: Seq<Pick>)
    ensures
        patched(base, summon_catalog(), bonus_catalog(), Seq::empty(), covered(Seq::empty())) == base,
        ({
            let first = picks.take(covered(picks) as int);
            &&& covered(first) == covered(picks)
            &&& patched(base, summon_catalog(), bonus_catalog(), first, covered(first)) == patched(
                base,
                summon_catalog(),
                bonus_catalog(),
                picks,
                covered(picks),
            )
        }),
{
    let first = picks.take(covered(picks) as int);
    lemma_patched_prefix(base, summon_catalog(), bonus_catalog(), first, picks, covered(picks));
}

/// For the shipped catalogue: changing the pick of summon `i` alone changes no byte
/// outside the rows of that summon's two pools.
pub proof fn lemma_patched_summon_lot_local(base: Seq<u8>, p: Seq<Pick>, q: Seq<Pick>, i: int, k: int)
    requires
        base.len() >= 4,
        p.len() == q.len(),
        0 <= i < summon_catalog().len(),
        forall|j: int| 0 <= j < p.len() && j != i ==> p[j] == q[j],
        0 <= k < base.len(),
        !in_summon_rows(base, summon_catalog()[i], k),
    ensures
        patched(base, summon_catalog(), bonus_catalog(), p, covered(p))[k] == patched(
            base,
            summon_catalog(),
            bonus_catalog(),
            q,
            covered(q),
        )[k],
{
    lemma_catalog_pools_apart();
    lemma_patched_local(base, summon_catalog(), bonus_catalog(), p, q, covered(p), i, k);
}

} // verus!
