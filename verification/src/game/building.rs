//! Buildings: kinds, instances, worker slots, and the colony's building list.
//!
//! Each production building is a separate instance with its own worker count.
//! How many workers a building *needs* to produce comes from
//! [`BuildingsBalance`] via [`BuildingKind::workers_required`] — it is not
//! stored on the instance.

use crate::game::balance::BuildingsBalance;
use vstd::prelude::*;

verus! {

/// All buildable structure types in the colony.
///
/// - **Hut** / **Barn** — infrastructure (housing, food storage); no workers.
/// - **Farm** / **LumberYard** / **StoneQuarry** — production; require assigned
///   settlers to generate passive income each day.
#[derive(Debug, Clone, Copy, PartialEq, Eq, Structural)]
pub enum BuildingKind {
    /// Increases the colony's population cap.
    Hut,
    /// Increases the colony's food storage cap.
    Barn,
    /// Passive food per day when fully staffed.
    Farm,
    /// Passive wood per day when fully staffed.
    LumberYard,
    /// Passive stone per day when fully staffed.
    StoneQuarry,
}

/// One built structure in the colony.
///
/// Multiple instances of the same [`BuildingKind`] may exist (e.g. two farms).
/// Worker assignment is per instance; the player sets totals by type, which
/// [`BuildingList::set_workers_on_kind`] distributes in list order.
#[derive(Debug, Clone, Copy, PartialEq, Eq, Structural)]
pub struct Building {
    /// What this instance is.
    pub kind: BuildingKind,
    /// Settlers currently working here. `0` for hut/barn.
    pub assigned: usize,
}

/// All building instances owned by a colony, in construction order.
/// Worker distribution walks this order.
#[derive(Debug)]
pub struct BuildingList {
    items: Vec<Building>,
}

impl BuildingKind {
    /// Short CLI / log label.
    pub open spec fn label_text(self) -> Seq<char> {
        match self {
            BuildingKind::Hut => "hut"@,
            BuildingKind::Barn => "barn"@,
            BuildingKind::Farm => "farm"@,
            BuildingKind::LumberYard => "lumber"@,
            BuildingKind::StoneQuarry => "quarry"@,
        }
    }

    /// Whether settlers can work at buildings of this kind.
    pub open spec fn employs(self) -> bool {
        ||| self == BuildingKind::Farm
        ||| self == BuildingKind::LumberYard
        ||| self == BuildingKind::StoneQuarry
    }

    /// Workers one instance needs before it counts as staffed.
    pub open spec fn required(self, b: &BuildingsBalance) -> usize {
        match self {
            BuildingKind::Farm => b.farm_max_workers,
            BuildingKind::LumberYard => b.lumber_yard_max_workers,
            BuildingKind::StoneQuarry => b.stone_quarry_max_workers,
            _ => 0,
        }
    }

    /// Wood paid to construct one instance.
    pub open spec fn wood_cost(self, b: &BuildingsBalance) -> usize {
        match self {
            BuildingKind::Hut => b.build_hut_wood_cost,
            BuildingKind::Barn => b.build_barn_wood_cost,
            BuildingKind::Farm => b.build_farm_wood_cost,
            BuildingKind::LumberYard => b.build_lumber_yard_wood_cost,
            BuildingKind::StoneQuarry => b.build_stone_quarry_wood_cost,
        }
    }

    /// Stone paid to construct one instance.
    pub open spec fn stone_cost(self, b: &BuildingsBalance) -> usize {
        match self {
            BuildingKind::Hut => b.build_hut_stone_cost,
            BuildingKind::Barn => b.build_barn_stone_cost,
            BuildingKind::Farm => b.build_farm_stone_cost,
            BuildingKind::LumberYard => b.build_lumber_yard_stone_cost,
            BuildingKind::StoneQuarry => b.build_stone_quarry_stone_cost,
        }
    }

    /// Daily output of one fully staffed instance.
    pub open spec fn output(self, b: &BuildingsBalance) -> usize {
        match self {
            BuildingKind::Farm => b.farm_food_production,
            BuildingKind::LumberYard => b.lumber_yard_wood_production,
            BuildingKind::StoneQuarry => b.stone_quarry_stone_production,
            _ => 0,
        }
    }

    /// The kinds that employ workers, in the order crews are filled:
    /// farm, lumber yard, stone quarry.
    pub fn production() -> (r: [BuildingKind; 3])
        ensures
            r@ == seq![BuildingKind::Farm, BuildingKind::LumberYard, BuildingKind::StoneQuarry],
            forall|i: int| 0 <= i < 3 ==> (#[trigger] r@[i]).employs(),
    {
        let r = [BuildingKind::Farm, BuildingKind::LumberYard, BuildingKind::StoneQuarry];
        assert(r@ =~= seq![BuildingKind::Farm, BuildingKind::LumberYard, BuildingKind::StoneQuarry]);
        r
    }

    /// Short CLI / log label (`farm`, `lumber`, `quarry`, …).
    pub fn label(self) -> (r: &'static str)
        ensures
            r@ == self.label_text(),
    {
        match self {
            BuildingKind::Hut => "hut",
            BuildingKind::Barn => "barn",
            BuildingKind::Farm => "farm",
            BuildingKind::LumberYard => "lumber",
            BuildingKind::StoneQuarry => "quarry",
        }
    }

    /// Whether settlers can be assigned to buildings of this kind.
    pub fn employs_workers(self) -> (r: bool)
        ensures
            r == self.employs(),
    {
        match self {
            BuildingKind::Farm | BuildingKind::LumberYard | BuildingKind::StoneQuarry => true,
            _ => false,
        }
    }

    /// Workers required on **one** instance before it counts as staffed and produces.
    pub fn workers_required(self, balance: &BuildingsBalance) -> (r: usize)
        ensures
            r == self.required(balance),
    {
        match self {
            BuildingKind::Farm => balance.farm_max_workers,
            BuildingKind::LumberYard => balance.lumber_yard_max_workers,
            BuildingKind::StoneQuarry => balance.stone_quarry_max_workers,
            _ => 0,
        }
    }

    /// Wood cost to construct one instance.
    pub fn build_wood_cost(self, balance: &BuildingsBalance) -> (r: usize)
        ensures
            r == self.wood_cost(balance),
    {
        match self {
            BuildingKind::Hut => balance.build_hut_wood_cost,
            BuildingKind::Barn => balance.build_barn_wood_cost,
            BuildingKind::Farm => balance.build_farm_wood_cost,
            BuildingKind::LumberYard => balance.build_lumber_yard_wood_cost,
            BuildingKind::StoneQuarry => balance.build_stone_quarry_wood_cost,
        }
    }

    /// Stone cost to construct one instance.
    pub fn build_stone_cost(self, balance: &BuildingsBalance) -> (r: usize)
        ensures
            r == self.stone_cost(balance),
    {
        match self {
            BuildingKind::Hut => balance.build_hut_stone_cost,
            BuildingKind::Barn => balance.build_barn_stone_cost,
            BuildingKind::Farm => balance.build_farm_stone_cost,
            BuildingKind::LumberYard => balance.build_lumber_yard_stone_cost,
            BuildingKind::StoneQuarry => balance.build_stone_quarry_stone_cost,
        }
    }

    /// Resources produced per day by **one fully staffed** instance.
    pub fn passive_output(self, balance: &BuildingsBalance) -> (r: usize)
        ensures
            r == self.output(balance),
    {
        match self {
            BuildingKind::Farm => balance.farm_food_production,
            BuildingKind::LumberYard => balance.lumber_yard_wood_production,
            BuildingKind::StoneQuarry => balance.stone_quarry_stone_production,
            _ => 0,
        }
    }
}

impl Building {
    /// At least as many workers as its kind requires.
    pub open spec fn staffed_under(self, b: &BuildingsBalance) -> bool {
        self.assigned >= self.kind.required(b)
    }

    /// `true` when `assigned` meets or exceeds [`BuildingKind::workers_required`].
    /// Only staffed buildings contribute to passive income.
    pub fn is_staffed(self, balance: &BuildingsBalance) -> (r: bool)
        ensures
            r == self.staffed_under(balance),
    {
        self.assigned >= self.kind.workers_required(balance)
    }
}

/// The smaller of two integers.
pub open spec fn min_int(a: int, b: int) -> int {
    if a < b {
        a
    } else {
        b
    }
}

// ---------------------------------------------------------------------------
// The model: a building list is the sequence of its instances.

/// Number of instances of `kind` in `s`.
pub open spec fn count_kind(s: Seq<Building>, kind: BuildingKind) -> nat
    decreases s.len(),
{
    if s.len() == 0 {
        0
    } else {
        count_kind(s.drop_last(), kind) + if s.last().kind == kind {
            1nat
        } else {
            0nat
        }
    }
}

/// Workers assigned to instances of `kind` in `s`.
pub open spec fn workers_kind(s: Seq<Building>, kind: BuildingKind) -> nat
    decreases s.len(),
{
    if s.len() == 0 {
        0
    } else {
        workers_kind(s.drop_last(), kind) + if s.last().kind == kind {
            s.last().assigned as nat
        } else {
            0nat
        }
    }
}

/// Workers assigned anywhere in `s`.
pub open spec fn total_workers(s: Seq<Building>) -> nat
    decreases s.len(),
{
    if s.len() == 0 {
        0
    } else {
        total_workers(s.drop_last()) + s.last().assigned as nat
    }
}

/// Instances of `kind` in `s` that are fully staffed.
pub open spec fn staffed_kind(s: Seq<Building>, kind: BuildingKind, b: &BuildingsBalance) -> nat
    decreases s.len(),
{
    if s.len() == 0 {
        0
    } else {
        staffed_kind(s.drop_last(), kind, b) + if s.last().kind == kind && s.last().staffed_under(
            b,
        ) {
            1nat
        } else {
            0nat
        }
    }
}

/// Setting `count` workers on `kind`: instances of `kind` are filled in
/// list order, each up to `req`, the rest get what is left (possibly 0).
pub open spec fn spread(s: Seq<Building>, kind: BuildingKind, req: nat, count: nat) -> Seq<
    Building,
>
    decreases s.len(),
{
    if s.len() == 0 {
        seq![]
    } else {
        let p = spread(s.drop_last(), kind, req, count);
        let x = s.last();
        if x.kind == kind {
            let left = count - workers_kind(p, kind);
            let give = if left < req {
                left
            } else {
                req as int
            };
            p.push(Building { kind, assigned: give as usize })
        } else {
            p.push(x)
        }
    }
}

/// One instance with its crew cut to what its kind requires.
pub open spec fn capped(x: Building, b: &BuildingsBalance) -> Building {
    if x.kind.employs() && x.assigned > x.kind.required(b) {
        Building { kind: x.kind, assigned: x.kind.required(b) }
    } else {
        x
    }
}

/// Every instance capped at its required crew.
pub open spec fn cap_all(s: Seq<Building>, b: &BuildingsBalance) -> Seq<Building> {
    Seq::new(s.len(), |i: int| capped(s[i], b))
}

/// Last index below `j` holding an instance of `kind` with a worker, or -1.
pub open spec fn last_busy(s: Seq<Building>, kind: BuildingKind, j: int) -> int
    decreases j,
{
    if j <= 0 || j > s.len() {
        -1
    } else if s[j - 1].kind == kind && s[j - 1].assigned > 0 {
        j - 1
    } else {
        last_busy(s, kind, j - 1)
    }
}

/// Where one worker is removed when too many are assigned: the last busy
/// quarry, else the last busy lumber yard, else the last busy farm; -1 if none.
pub open spec fn unassign_index(s: Seq<Building>) -> int {
    let q = last_busy(s, BuildingKind::StoneQuarry, s.len() as int);
    let l = last_busy(s, BuildingKind::LumberYard, s.len() as int);
    if q >= 0 {
        q
    } else if l >= 0 {
        l
    } else {
        last_busy(s, BuildingKind::Farm, s.len() as int)
    }
}

/// `s` with one worker fewer at index `i`.
pub open spec fn minus_one(s: Seq<Building>, i: int) -> Seq<Building> {
    s.update(i, Building { kind: s[i].kind, assigned: (s[i].assigned - 1) as usize })
}

/// Workers removed one at a time (see [`unassign_index`]) while more are
/// assigned than `pop` and any production building still has one.
pub open spec fn drain(s: Seq<Building>, pop: nat) -> Seq<Building>
    decreases total_workers(s),
{
    if total_workers(s) > pop && unassign_index(s) >= 0 {
        proof {
            lemma_unassign_index(s);
            lemma_total_update(s, unassign_index(s), Building {
                kind: s[unassign_index(s)].kind,
                assigned: (s[unassign_index(s)].assigned - 1) as usize,
            });
        }
        drain(minus_one(s, unassign_index(s)), pop)
    } else {
        s
    }
}

/// The crew of every building after `clamp_workers(b, pop)`.
pub open spec fn clamped(s: Seq<Building>, b: &BuildingsBalance, pop: nat) -> Seq<Building> {
    drain(cap_all(s, b), pop)
}

// ---------------------------------------------------------------------------
// Lemmas about the model.

/// No kind is counted more often than the list is long.
pub proof fn lemma_count_le_len(s: Seq<Building>, kind: BuildingKind)
    ensures
        count_kind(s, kind) <= s.len(),
    decreases s.len(),
{
    if s.len() > 0 {
        lemma_count_le_len(s.drop_last(), kind);
    }
}

/// Only built instances can be staffed.
pub proof fn lemma_staffed_le_count(s: Seq<Building>, kind: BuildingKind, b: &BuildingsBalance)
    ensures
        staffed_kind(s, kind, b) <= count_kind(s, kind),
    decreases s.len(),
{
    if s.len() > 0 {
        lemma_staffed_le_count(s.drop_last(), kind, b);
    }
}

/// The crews of one kind are part of all crews.
pub proof fn lemma_workers_le_total(s: Seq<Building>, kind: BuildingKind)
    ensures
        workers_kind(s, kind) <= total_workers(s),
    decreases s.len(),
{
    if s.len() > 0 {
        lemma_workers_le_total(s.drop_last(), kind);
    }
}

/// A prefix of the list employs no more settlers than the whole list.
pub proof fn lemma_total_prefix(s: Seq<Building>, i: int)
    requires
        0 <= i <= s.len(),
    ensures
        total_workers(s.take(i)) <= total_workers(s),
    decreases s.len() - i,
{
    if i < s.len() {
        lemma_total_prefix(s, i + 1);
        assert(s.take(i + 1).drop_last() =~= s.take(i));
    } else {
        assert(s.take(i) =~= s);
    }
}

/// Replacing one instance changes the total crew by the difference.
pub proof fn lemma_total_update(s: Seq<Building>, i: int, x: Building)
    requires
        0 <= i < s.len(),
    ensures
        total_workers(s.update(i, x)) == total_workers(s) - s[i].assigned + x.assigned,
    decreases s.len(),
{
    if i == s.len() - 1 {
        assert(s.update(i, x).drop_last() =~= s.drop_last());
    } else {
        lemma_total_update(s.drop_last(), i, x);
        assert(s.update(i, x).drop_last() =~= s.drop_last().update(i, x));
    }
}

/// Replacing one instance by one of the same kind changes the crew of
/// `kind` by the difference.
pub proof fn lemma_workers_kind_update(s: Seq<Building>, i: int, x: Building, kind: BuildingKind)
    requires
        0 <= i < s.len(),
        x.kind == s[i].kind,
    ensures
        workers_kind(s.update(i, x), kind) == workers_kind(s, kind) - (if s[i].kind == kind {
            s[i].assigned as int
        } else {
            0
        }) + (if x.kind == kind {
            x.assigned as int
        } else {
            0
        }),
    decreases s.len(),
{
    if i == s.len() - 1 {
        assert(s.update(i, x).drop_last() =~= s.drop_last());
    } else {
        lemma_workers_kind_update(s.drop_last(), i, x, kind);
        assert(s.update(i, x).drop_last() =~= s.drop_last().update(i, x));
    }
}

/// The last busy instance of `kind` before `j`, if there is one.
pub proof fn lemma_last_busy(s: Seq<Building>, kind: BuildingKind, j: int)
    requires
        0 <= j <= s.len(),
    ensures
        -1 <= last_busy(s, kind, j) < j,
        last_busy(s, kind, j) >= 0 ==> s[last_busy(s, kind, j)].kind == kind && s[last_busy(
            s,
            kind,
            j,
        )].assigned > 0,
        last_busy(s, kind, j) < 0 ==> forall|k: int|
            0 <= k < j && #[trigger] s[k].kind == kind ==> s[k].assigned == 0,
        forall|k: int|
            last_busy(s, kind, j) < k < j && #[trigger] s[k].kind == kind ==> s[k].assigned == 0,
    decreases j,
{
    if j > 0 && !(s[j - 1].kind == kind && s[j - 1].assigned > 0) {
        lemma_last_busy(s, kind, j - 1);
    }
}

/// The instance that loses a worker next is a busy production building,
/// and there is none only when every production building is idle.
pub proof fn lemma_unassign_index(s: Seq<Building>)
    ensures
        -1 <= unassign_index(s) < s.len(),
        unassign_index(s) >= 0 ==> s[unassign_index(s)].assigned > 0
            && s[unassign_index(s)].kind.employs(),
        unassign_index(s) < 0 ==> forall|k: int|
            0 <= k < s.len() && (#[trigger] s[k]).kind.employs() ==> s[k].assigned == 0,
{
    lemma_last_busy(s, BuildingKind::StoneQuarry, s.len() as int);
    lemma_last_busy(s, BuildingKind::LumberYard, s.len() as int);
    lemma_last_busy(s, BuildingKind::Farm, s.len() as int);
}

/// Capping crews never raises the total.
pub proof fn lemma_cap_all_total(s: Seq<Building>, b: &BuildingsBalance)
    ensures
        total_workers(cap_all(s, b)) <= total_workers(s),
    decreases s.len(),
{
    if s.len() > 0 {
        lemma_cap_all_total(s.drop_last(), b);
        assert(cap_all(s, b).drop_last() =~= cap_all(s.drop_last(), b));
    }
}

/// Draining never raises a crew, keeps kinds and length, and stops with at
/// most `pop` workers unless no production building has any left.
pub proof fn lemma_drain(s: Seq<Building>, pop: nat)
    ensures
        drain(s, pop).len() == s.len(),
        forall|k: int|
            0 <= k < s.len() ==> (#[trigger] drain(s, pop)[k]).kind == s[k].kind
                && drain(s, pop)[k].assigned <= s[k].assigned,
        total_workers(drain(s, pop)) <= pop || unassign_index(drain(s, pop)) < 0,
        total_workers(drain(s, pop)) <= total_workers(s),
        total_workers(s) > pop ==> total_workers(drain(s, pop)) >= pop,
    decreases total_workers(s),
{
    if total_workers(s) > pop && unassign_index(s) >= 0 {
        let i = unassign_index(s);
        lemma_unassign_index(s);
        let x = Building { kind: s[i].kind, assigned: (s[i].assigned - 1) as usize };
        lemma_total_update(s, i, x);
        lemma_drain(minus_one(s, i), pop);
    }
}

/// Two lists whose instances have the same kinds, index by index, count the
/// same instances of each kind.
pub proof fn lemma_count_same_kinds(s: Seq<Building>, t: Seq<Building>, kind: BuildingKind)
    requires
        s.len() == t.len(),
        forall|k: int| 0 <= k < s.len() ==> (#[trigger] t[k]).kind == s[k].kind,
    ensures
        count_kind(t, kind) == count_kind(s, kind),
    decreases s.len(),
{
    if s.len() > 0 {
        lemma_count_same_kinds(s.drop_last(), t.drop_last(), kind);
    }
}

/// What spreading `count` workers over the instances of `kind` gives.
pub proof fn lemma_spread(s: Seq<Building>, kind: BuildingKind, req: nat, count: nat)
    requires
        req <= usize::MAX,
    ensures
        spread(s, kind, req, count).len() == s.len(),
        workers_kind(spread(s, kind, req, count), kind) == min_int(
            count as int,
            (count_kind(s, kind) * req) as int,
        ),
        forall|k: int|
            0 <= k < s.len() ==> (#[trigger] spread(s, kind, req, count)[k]).kind == s[k].kind,
        forall|k: int|
            0 <= k < s.len() && s[k].kind != kind ==> #[trigger] spread(s, kind, req, count)[k]
                == s[k],
        forall|k: int|
            0 <= k < s.len() && s[k].kind == kind ==> (#[trigger] spread(
                s,
                kind,
                req,
                count,
            )[k]).assigned <= req,
        forall|other: BuildingKind|
            other != kind ==> #[trigger] workers_kind(spread(s, kind, req, count), other)
                == workers_kind(s, other),
    decreases s.len(),
{
    if s.len() == 0 {
        assert(count_kind(s, kind) == 0);
        assert(0 * req == 0) by (nonlinear_arith);
    } else {
        let t = s.drop_last();
        lemma_spread(t, kind, req, count);
        let p = spread(t, kind, req, count);
        let c = count_kind(t, kind);
        assert((c + 1) * req == c * req + req) by (nonlinear_arith);
        let r = spread(s, kind, req, count);
        assert(r.drop_last() =~= p);
        let w = workers_kind(p, kind);
        if s.last().kind == kind {
            if count <= c * req {
                assert(w == count);
            } else {
                assert(w == c * req);
            }
            assert(workers_kind(r, kind) == min_int(count as int, (count_kind(s, kind) * req) as int));
        } else {
            assert(count_kind(s, kind) == c);
            assert(workers_kind(r, kind) == w);
        }
        assert forall|other: BuildingKind| other != kind implies #[trigger] workers_kind(
            r,
            other,
        ) == workers_kind(s, other) by {
            assert(workers_kind(p, other) == workers_kind(t, other));
        }
    }
}

// ---------------------------------------------------------------------------
// Laws of worker assignment.

/// Clamping is idempotent: clamping crews that were just clamped (with the
/// same balance and population) changes nothing.
pub proof fn lemma_clamp_idempotent(s: Seq<Building>, b: &BuildingsBalance, pop: nat)
    ensures
        clamped(clamped(s, b, pop), b, pop) == clamped(s, b, pop),
{
    let c = clamped(s, b, pop);
    let capped0 = cap_all(s, b);
    lemma_drain(capped0, pop);
    assert forall|k: int| 0 <= k < c.len() implies #[trigger] capped(c[k], b) == c[k] by {
        assert(c[k].assigned <= capped0[k].assigned);
    }
    assert(cap_all(c, b) =~= c);
}

/// Setting workers on one kind never changes the crews of other kinds, and
/// leaves exactly `min(count, slots)` workers on that kind.
pub proof fn lemma_set_workers_only_touches_kind(
    s: Seq<Building>,
    kind: BuildingKind,
    other: BuildingKind,
    b: &BuildingsBalance,
    count: nat,
)
    requires
        other != kind,
    ensures
        workers_kind(spread(s, kind, kind.required(b) as nat, count), other) == workers_kind(
            s,
            other,
        ),
        workers_kind(spread(s, kind, kind.required(b) as nat, count), kind) == min_int(
            count as int,
            count_kind(s, kind) * kind.required(b) as int,
        ),
{
    lemma_spread(s, kind, kind.required(b) as nat, count);
}

/// Setting workers on `kind` swaps the old crew of `kind` for the new one
/// in the total.
pub proof fn lemma_total_spread(s: Seq<Building>, kind: BuildingKind, req: nat, count: nat)
    ensures
        total_workers(spread(s, kind, req, count)) + workers_kind(s, kind) == total_workers(s)
            + workers_kind(spread(s, kind, req, count), kind),
    decreases s.len(),
{
    if s.len() > 0 {
        lemma_total_spread(s.drop_last(), kind, req, count);
        assert(spread(s, kind, req, count).drop_last() =~= spread(s.drop_last(), kind, req, count));
    }
}

/// Adding an instance counts it once for its kind.
pub proof fn lemma_count_push(s: Seq<Building>, x: Building, kind: BuildingKind)
    ensures
        count_kind(s.push(x), kind) == count_kind(s, kind) + if x.kind == kind {
            1nat
        } else {
            0nat
        },
{
    assert(s.push(x).drop_last() =~= s);
}

/// With no instance of `kind` above `req`, the kind has at most
/// `count × req` workers.
proof fn lemma_workers_bound(s: Seq<Building>, kind: BuildingKind, req: nat)
    requires
        forall|k: int| 0 <= k < s.len() && (#[trigger] s[k]).kind == kind ==> s[k].assigned <= req,
    ensures
        workers_kind(s, kind) <= count_kind(s, kind) * req,
    decreases s.len(),
{
    if s.len() > 0 {
        let t = s.drop_last();
        assert forall|k: int| 0 <= k < t.len() && (#[trigger] t[k]).kind == kind implies t[k].assigned
            <= req by {
            assert(t[k] == s[k]);
        }
        lemma_workers_bound(t, kind, req);
        let c = count_kind(t, kind);
        assert((c + 1) * req == c * req + req) by (nonlinear_arith);
        assert(s.last() == s[s.len() - 1]);
    }
}

/// With no instance of `kind` above `req` and `count × req` workers on the
/// kind, every instance of it holds exactly `req`.
proof fn lemma_workers_full(s: Seq<Building>, kind: BuildingKind, req: nat)
    requires
        forall|k: int| 0 <= k < s.len() && (#[trigger] s[k]).kind == kind ==> s[k].assigned <= req,
        workers_kind(s, kind) >= count_kind(s, kind) * req,
    ensures
        forall|k: int| 0 <= k < s.len() && (#[trigger] s[k]).kind == kind ==> s[k].assigned == req,
    decreases s.len(),
{
    if s.len() > 0 {
        let t = s.drop_last();
        assert forall|k: int| 0 <= k < t.len() && (#[trigger] t[k]).kind == kind implies t[k].assigned
            <= req by {
            assert(t[k] == s[k]);
        }
        lemma_workers_bound(t, kind, req);
        let c = count_kind(t, kind);
        assert((c + 1) * req == c * req + req) by (nonlinear_arith);
        assert(s.last() == s[s.len() - 1]);
        lemma_workers_full(t, kind, req);
        assert forall|k: int| 0 <= k < s.len() && (#[trigger] s[k]).kind == kind implies s[k].assigned
            == req by {
            if k < t.len() {
                assert(t[k] == s[k]);
            }
        }
    }
}

/// Workers set on `kind` fill its instances in list order: an instance of
/// the kind has workers only when every earlier one is full.
pub proof fn lemma_spread_in_order(s: Seq<Building>, kind: BuildingKind, req: nat, count: nat)
    requires
        req <= usize::MAX,
    ensures
        forall|i: int, j: int|
            0 <= i < j < s.len() && s[i].kind == kind && s[j].kind == kind && (#[trigger] spread(
                s,
                kind,
                req,
                count,
            )[j]).assigned > 0 ==> (#[trigger] spread(s, kind, req, count)[i]).assigned == req,
    decreases s.len(),
{
    if s.len() > 0 {
        let t = s.drop_last();
        lemma_spread_in_order(t, kind, req, count);
        lemma_spread(t, kind, req, count);
        lemma_spread(s, kind, req, count);
        let p = spread(t, kind, req, count);
        let r = spread(s, kind, req, count);
        assert(r.drop_last() =~= p);
        let n = s.len() - 1;
        if s[n].kind == kind && r[n].assigned > 0 {
            assert(workers_kind(p, kind) < count);
            lemma_count_same_kinds(t, p, kind);
            assert forall|k: int| 0 <= k < p.len() && (#[trigger] p[k]).kind == kind implies p[k].assigned
                <= req by {
                assert(t[k].kind == kind);
            }
            lemma_workers_full(p, kind, req);
        }
        assert forall|i: int, j: int|
            0 <= i < j < s.len() && s[i].kind == kind && s[j].kind == kind && (#[trigger] r[j]).assigned
                > 0 implies (#[trigger] r[i]).assigned == req by {
            if j < n {
                assert(r[i] == p[i] && r[j] == p[j]);
                assert(t[i] == s[i] && t[j] == s[j]);
            } else {
                assert(r[i] == p[i]);
                assert(p[i].kind == kind);
            }
        }
    }
}

/// Each production kind needs the crew and gives the daily output its
/// balance entries name; huts and barns need no crew and give nothing.
pub proof fn lemma_kind_tables(kind: BuildingKind, b: &BuildingsBalance)
    ensures
        kind == BuildingKind::Farm ==> kind.required(b) == b.farm_max_workers && kind.output(b)
            == b.farm_food_production,
        kind == BuildingKind::LumberYard ==> kind.required(b) == b.lumber_yard_max_workers
            && kind.output(b) == b.lumber_yard_wood_production,
        kind == BuildingKind::StoneQuarry ==> kind.required(b) == b.stone_quarry_max_workers
            && kind.output(b) == b.stone_quarry_stone_production,
        !kind.employs() ==> kind.required(b) == 0 && kind.output(b) == 0,
        kind.employs() <==> (kind == BuildingKind::Farm || kind == BuildingKind::LumberYard
            || kind == BuildingKind::StoneQuarry),
{
}

/// The order in which kinds lose workers when crews are cut: quarries
/// first, then lumber yards, then farms.
pub open spec fn cut_rank(kind: BuildingKind) -> int {
    match kind {
        BuildingKind::StoneQuarry => 0,
        BuildingKind::LumberYard => 1,
        BuildingKind::Farm => 2,
        _ => 3,
    }
}

/// Instance `j` of `s` gives up its workers before instance `k`: a
/// production building of a kind cut earlier, or of the same kind and
/// later in the list.
pub open spec fn cut_before(s: Seq<Building>, j: int, k: int) -> bool {
    &&& s[j].kind.employs()
    &&& (cut_rank(s[j].kind) < cut_rank(s[k].kind) || (s[j].kind == s[k].kind && j > k))
}

/// No instance of `c` has lost workers against `cap` while one that gives
/// up its workers before it still has some.
pub open spec fn cut_in_order(c: Seq<Building>, cap: Seq<Building>) -> bool {
    forall|k: int, j: int|
        0 <= k < c.len() && 0 <= j < c.len() && (#[trigger] c[k]).assigned < cap[k].assigned
            && cut_before(c, j, k) ==> (#[trigger] c[j]).assigned == 0
}

/// The next worker cut comes from an instance that no busy instance
/// precedes in the cutting order.
proof fn lemma_unassign_first(s: Seq<Building>)
    ensures
        unassign_index(s) >= 0 ==> forall|j: int|
            0 <= j < s.len() && cut_before(s, j, unassign_index(s)) ==> #[trigger] s[j].assigned
                == 0,
{
    let n = s.len() as int;
    lemma_last_busy(s, BuildingKind::StoneQuarry, n);
    lemma_last_busy(s, BuildingKind::LumberYard, n);
    lemma_last_busy(s, BuildingKind::Farm, n);
    lemma_unassign_index(s);
}

/// Each cut of one worker keeps the cutting order.
proof fn lemma_drain_in_order(x: Seq<Building>, pop: nat, cap: Seq<Building>)
    requires
        x.len() == cap.len(),
        forall|k: int| 0 <= k < x.len() ==> (#[trigger] x[k]).kind == cap[k].kind && x[k].assigned
            <= cap[k].assigned,
        cut_in_order(x, cap),
    ensures
        cut_in_order(drain(x, pop), cap),
    decreases total_workers(x),
{
    if total_workers(x) > pop && unassign_index(x) >= 0 {
        let i = unassign_index(x);
        lemma_unassign_index(x);
        lemma_unassign_first(x);
        let y = minus_one(x, i);
        lemma_total_update(x, i, Building { kind: x[i].kind, assigned: (x[i].assigned - 1) as usize });
        assert forall|k: int| 0 <= k < y.len() implies (#[trigger] y[k]).kind == cap[k].kind
            && y[k].assigned <= cap[k].assigned by {
            assert(x[k].kind == cap[k].kind);
        }
        assert forall|k: int, j: int|
            0 <= k < y.len() && 0 <= j < y.len() && (#[trigger] y[k]).assigned < cap[k].assigned
                && cut_before(y, j, k) implies (#[trigger] y[j]).assigned == 0 by {
            assert(cut_before(x, j, k));
            if k == i {
                assert(x[j].assigned == 0);
            } else {
                assert(x[k].assigned < cap[k].assigned);
                assert(x[j].assigned == 0);
            }
        }
        lemma_drain_in_order(y, pop, cap);
    }
}

/// Clamping cuts workers in order: quarries before lumber yards before
/// farms, and within a kind the later instances first. No instance loses a
/// worker while one cut before it keeps any.
pub proof fn lemma_clamp_in_order(s: Seq<Building>, b: &BuildingsBalance, pop: nat)
    ensures
        cut_in_order(clamped(s, b, pop), cap_all(s, b)),
{
    let cap = cap_all(s, b);
    lemma_drain_in_order(cap, pop, cap);
}

/// Only production buildings have workers.
pub open spec fn crews_valid(s: Seq<Building>) -> bool {
    forall|k: int| 0 <= k < s.len() && !(#[trigger] s[k]).kind.employs() ==> s[k].assigned == 0
}

/// A new, idle instance keeps huts and barns empty.
pub proof fn lemma_push_idle(s: Seq<Building>, kind: BuildingKind)
    requires
        crews_valid(s),
    ensures
        crews_valid(s.push(Building { kind, assigned: 0 })),
{
    let added = s.push(Building { kind, assigned: 0 });
    assert forall|k: int| 0 <= k < added.len() && !(#[trigger] added[k]).kind.employs() implies added[k].assigned
        == 0 by {
        if k < s.len() {
            assert(added[k] == s[k]);
        }
    }
}

/// The total crew is the sum of the crews of the production kinds when huts
/// and barns have nobody.
pub proof fn lemma_total_is_production(s: Seq<Building>)
    requires
        crews_valid(s),
    ensures
        total_workers(s) == workers_kind(s, BuildingKind::Farm) + workers_kind(
            s,
            BuildingKind::LumberYard,
        ) + workers_kind(s, BuildingKind::StoneQuarry),
    decreases s.len(),
{
    if s.len() > 0 {
        let t = s.drop_last();
        assert forall|k: int| 0 <= k < t.len() && !(#[trigger] t[k]).kind.employs() implies t[k].assigned
            == 0 by {
            assert(t[k] == s[k]);
        }
        lemma_total_is_production(t);
        assert(!s.last().kind.employs() ==> s[s.len() - 1].assigned == 0);
    }
}

/// Huts and barns never get workers: a new building starts idle, and
/// setting workers on a production kind or clamping keeps them empty. Once
/// the crews are clamped to a population, no more settlers work than live.
pub proof fn lemma_crews_stay_valid(
    s: Seq<Building>,
    kind: BuildingKind,
    b: &BuildingsBalance,
    count: nat,
    pop: nat,
)
    requires
        crews_valid(s),
    ensures
        crews_valid(s.push(Building { kind, assigned: 0 })),
        kind.employs() ==> crews_valid(spread(s, kind, kind.required(b) as nat, count)),
        crews_valid(clamped(s, b, pop)),
        total_workers(clamped(s, b, pop)) <= pop,
{
    let added = s.push(Building { kind, assigned: 0 });
    assert forall|k: int| 0 <= k < added.len() && !(#[trigger] added[k]).kind.employs() implies added[k].assigned
        == 0 by {
        if k < s.len() {
            assert(added[k] == s[k]);
        }
    }
    lemma_spread(s, kind, kind.required(b) as nat, count);
    let c = clamped(s, b, pop);
    lemma_clamp_bounds(s, b, pop);
    assert forall|k: int| 0 <= k < c.len() && !(#[trigger] c[k]).kind.employs() implies c[k].assigned
        == 0 by {
        assert(c[k].kind == s[k].kind);
    }
    if total_workers(c) > pop {
        lemma_unassign_index(c);
        lemma_total_is_production(c);
        lemma_idle_kind(c, BuildingKind::Farm);
        lemma_idle_kind(c, BuildingKind::LumberYard);
        lemma_idle_kind(c, BuildingKind::StoneQuarry);
    }
}

/// A kind whose instances all have nobody has no crew.
proof fn lemma_idle_kind(s: Seq<Building>, kind: BuildingKind)
    requires
        forall|k: int| 0 <= k < s.len() && (#[trigger] s[k]).kind == kind ==> s[k].assigned == 0,
    ensures
        workers_kind(s, kind) == 0,
    decreases s.len(),
{
    if s.len() > 0 {
        let t = s.drop_last();
        assert forall|k: int| 0 <= k < t.len() && (#[trigger] t[k]).kind == kind implies t[k].assigned
            == 0 by {
            assert(t[k] == s[k]);
        }
        lemma_idle_kind(t, kind);
        assert(s.last() == s[s.len() - 1]);
    }
}

/// Clamping never raises a crew, and afterwards no production building has
/// more workers than it needs and the total is within the population unless
/// no production building has any worker left.
pub proof fn lemma_clamp_bounds(s: Seq<Building>, b: &BuildingsBalance, pop: nat)
    ensures
        clamped(s, b, pop).len() == s.len(),
        forall|k: int|
            0 <= k < s.len() ==> (#[trigger] clamped(s, b, pop)[k]).kind == s[k].kind
                && clamped(s, b, pop)[k].assigned <= s[k].assigned,
        forall|k: int|
            0 <= k < s.len() && (#[trigger] clamped(s, b, pop)[k]).kind.employs()
                ==> clamped(s, b, pop)[k].assigned <= clamped(s, b, pop)[k].kind.required(b),
        total_workers(clamped(s, b, pop)) <= pop || unassign_index(clamped(s, b, pop)) < 0,
{
    let c0 = cap_all(s, b);
    lemma_drain(c0, pop);
    assert forall|k: int|
        0 <= k < s.len() && (#[trigger] clamped(s, b, pop)[k]).kind.employs() implies clamped(
        s,
        b,
        pop,
    )[k].assigned <= clamped(s, b, pop)[k].kind.required(b) by {
        assert(clamped(s, b, pop)[k].assigned <= c0[k].assigned);
    }
}

// ---------------------------------------------------------------------------

impl View for BuildingList {
    type V = Seq<Building>;

    closed spec fn view(&self) -> Seq<Building> {
        self.items@
    }
}

impl BuildingList {
    /// Only production buildings ever have workers.
    #[verifier::type_invariant]
    pub open spec fn only_production_staffed(self) -> bool {
        crews_valid(self@)
    }
}

impl Clone for BuildingList {
    fn clone(&self) -> (r: Self)
        ensures
            r@ == self@,
    {
        proof {
            use_type_invariant(self);
        }
        let mut items: Vec<Building> = Vec::new();
        let mut i: usize = 0;
        while i < self.items.len()
            invariant
                i <= self.items@.len(),
                items@ == self.items@.take(i as int),
            decreases self.items.len() - i,
        {
            items.push(self.items[i]);
            i = i + 1;
            assert(items@ =~= self.items@.take(i as int));
        }
        assert(self.items@.take(i as int) =~= self.items@);
        BuildingList { items }
    }
}

impl Default for BuildingList {
    fn default() -> (l: Self)
        ensures
            l@ == Seq::<Building>::empty(),
    {
        BuildingList { items: Vec::new() }
    }
}

impl BuildingList {
    /// Number of built instances of `kind`.
    pub fn count(&self, kind: BuildingKind) -> (r: usize)
        ensures
            r == count_kind(self@, kind),
    {
        let mut n: usize = 0;
        let mut i: usize = 0;
        while i < self.items.len()
            invariant
                i <= self.items@.len(),
                n == count_kind(self.items@.take(i as int), kind),
                n <= i,
            decreases self.items.len() - i,
        {
            assert(self.items@.take(i + 1).drop_last() =~= self.items@.take(i as int));
            if self.items[i].kind == kind {
                n = n + 1;
            }
            i = i + 1;
        }
        assert(self.items@.take(i as int) =~= self.items@);
        n
    }

    /// Add a new instance with zero assigned workers.
    pub fn add(&mut self, kind: BuildingKind)
        ensures
            final(self)@ == old(self)@.push(Building { kind, assigned: 0 }),
    {
        proof {
            use_type_invariant(&*self);
            lemma_push_idle(self.items@, kind);
        }
        let mut items: Vec<Building> = Vec::new();
        std::mem::swap(&mut items, &mut self.items);
        items.push(Building { kind, assigned: 0 });
        self.items = items;
    }

    /// Whether the colony has at least one farm, lumber yard, or quarry.
    pub fn has_production(&self) -> (r: bool)
        ensures
            r == (count_kind(self@, BuildingKind::Farm) > 0 || count_kind(
                self@,
                BuildingKind::LumberYard,
            ) > 0 || count_kind(self@, BuildingKind::StoneQuarry) > 0),
    {
        self.count(BuildingKind::Farm) > 0 || self.count(BuildingKind::LumberYard) > 0
            || self.count(BuildingKind::StoneQuarry) > 0
    }

    /// Sum of the crews of all instances of `kind`.
    pub fn workers_on(&self, kind: BuildingKind) -> (r: usize)
        requires
            total_workers(self@) <= usize::MAX,
        ensures
            r == workers_kind(self@, kind),
    {
        let mut n: usize = 0;
        let mut i: usize = 0;
        while i < self.items.len()
            invariant
                i <= self.items@.len(),
                total_workers(self.items@) <= usize::MAX,
                n == workers_kind(self.items@.take(i as int), kind),
            decreases self.items.len() - i,
        {
            let ghost next = self.items@.take(i + 1);
            assert(next.drop_last() =~= self.items@.take(i as int));
            proof {
                lemma_workers_le_total(next, kind);
                lemma_total_prefix(self.items@, i + 1);
            }
            let b = self.items[i];
            if b.kind == kind {
                n = n + b.assigned;
            }
            i = i + 1;
        }
        assert(self.items@.take(i as int) =~= self.items@);
        n
    }

    /// Total settlers assigned to any building (all kinds).
    pub fn total_assigned(&self) -> (r: usize)
        requires
            total_workers(self@) <= usize::MAX,
        ensures
            r == total_workers(self@),
    {
        Self::total_in(&self.items)
    }

    /// Total settlers assigned across `items`.
    fn total_in(items: &Vec<Building>) -> (r: usize)
        requires
            total_workers(items@) <= usize::MAX,
        ensures
            r == total_workers(items@),
    {
        let mut n: usize = 0;
        let mut i: usize = 0;
        while i < items.len()
            invariant
                i <= items@.len(),
                total_workers(items@) <= usize::MAX,
                n == total_workers(items@.take(i as int)),
            decreases items.len() - i,
        {
            let ghost next = items@.take(i + 1);
            assert(next.drop_last() =~= items@.take(i as int));
            proof {
                lemma_total_prefix(items@, i + 1);
            }
            n = n + items[i].assigned;
            i = i + 1;
        }
        assert(items@.take(i as int) =~= items@);
        n
    }

    /// Total settlers assigned to any building, or `None` when the sum does
    /// not fit in `usize`.
    pub fn checked_total(&self) -> (r: Option<usize>)
        ensures
            r matches Some(t) ==> t == total_workers(self@),
            r is None ==> total_workers(self@) > usize::MAX,
    {
        let mut n: usize = 0;
        let mut i: usize = 0;
        while i < self.items.len()
            invariant
                i <= self.items@.len(),
                n == total_workers(self.items@.take(i as int)),
            decreases self.items.len() - i,
        {
            let ghost next = self.items@.take(i + 1);
            assert(next.drop_last() =~= self.items@.take(i as int));
            match n.checked_add(self.items[i].assigned) {
                Some(m) => n = m,
                None => {
                    proof {
                        lemma_total_prefix(self.items@, i + 1);
                    }
                    return None;
                },
            }
            i = i + 1;
        }
        assert(self.items@.take(i as int) =~= self.items@);
        Some(n)
    }

    /// Maximum assignable workers for `kind`: `count × workers_required`.
    pub fn workers_needed(&self, kind: BuildingKind, balance: &BuildingsBalance) -> (r: usize)
        requires
            count_kind(self@, kind) * kind.required(balance) <= usize::MAX,
        ensures
            r == count_kind(self@, kind) * kind.required(balance),
    {
        self.count(kind) * kind.workers_required(balance)
    }

    /// Count of instances of `kind` that are fully staffed.
    pub fn staffed(&self, kind: BuildingKind, balance: &BuildingsBalance) -> (r: usize)
        ensures
            r == staffed_kind(self@, kind, balance),
    {
        let mut n: usize = 0;
        let mut i: usize = 0;
        while i < self.items.len()
            invariant
                i <= self.items@.len(),
                n == staffed_kind(self.items@.take(i as int), kind, balance),
                n <= i,
            decreases self.items.len() - i,
        {
            assert(self.items@.take(i + 1).drop_last() =~= self.items@.take(i as int));
            let b = self.items[i];
            if b.kind == kind && b.is_staffed(balance) {
                n = n + 1;
            }
            i = i + 1;
        }
        assert(self.items@.take(i as int) =~= self.items@);
        n
    }

    /// Set the **total** workers on all instances of `kind`.
    ///
    /// Fills instances in list order: each gets up to `workers_required`,
    /// then overflow goes to the next. Example: 2 farms (need 2 each),
    /// `count = 3` → first farm 2, second farm 1.
    pub fn set_workers_on_kind(
        &mut self,
        kind: BuildingKind,
        count: usize,
        balance: &BuildingsBalance,
    )
        ensures
            final(self)@ == spread(old(self)@, kind, kind.required(balance) as nat, count as nat),
            workers_kind(final(self)@, kind) == min_int(
                count as int,
                count_kind(old(self)@, kind) * kind.required(balance) as int,
            ),
    {
        proof {
            use_type_invariant(&*self);
        }
        let mut items: Vec<Building> = Vec::new();
        std::mem::swap(&mut items, &mut self.items);
        let required = kind.workers_required(balance);
        let ghost req = required as nat;
        let ghost s0 = items@;
        let mut remaining = count;
        let mut i: usize = 0;
        while i < items.len()
            invariant
                i <= items@.len(),
                items@.len() == s0.len(),
                req == required as nat,
                items@.take(i as int) == spread(s0.take(i as int), kind, req, count as nat),
                forall|k: int| i <= k < s0.len() ==> items@[k] == s0[k],
                workers_kind(spread(s0.take(i as int), kind, req, count as nat), kind) <= count,
                remaining == count - workers_kind(
                    spread(s0.take(i as int), kind, req, count as nat),
                    kind,
                ),
            decreases items.len() - i,
        {
            let ghost p = spread(s0.take(i as int), kind, req, count as nat);
            assert(s0.take(i + 1).drop_last() =~= s0.take(i as int));
            let b = items[i];
            if b.kind == kind {
                let assign = if remaining < required {
                    remaining
                } else {
                    required
                };
                items.set(i, Building { kind: b.kind, assigned: assign });
                remaining = remaining - assign;
                let ghost q = spread(s0.take(i + 1), kind, req, count as nat);
                assert(q.drop_last() =~= p);
                assert(s0.take(i + 1).last() == s0[i as int]);
                assert(s0.take(i + 1).drop_last() == s0.take(i as int));
                assert(s0[i as int].kind == kind);
                assert(q.len() == p.len() + 1);
                assert(q.last() == Building { kind, assigned: assign });
                assert(q == p.push(Building { kind, assigned: assign }));
                assert(items@.take(i + 1) =~= q);
            } else {
                let ghost q = spread(s0.take(i + 1), kind, req, count as nat);
                assert(q.drop_last() =~= p);
                assert(s0.take(i + 1).last() == s0[i as int]);
                assert(q =~= p.push(b));
                assert(items@.take(i + 1) =~= q);
            }
            i = i + 1;
            assert(items@.take(i as int) =~= spread(s0.take(i as int), kind, req, count as nat));
        }
        assert(s0.take(i as int) =~= s0);
        assert(items@.take(i as int) =~= items@);
        proof {
            lemma_spread(s0, kind, req, count as nat);
            assert forall|k: int| 0 <= k < items@.len() && !(#[trigger] items@[k]).kind.employs() implies items@[k].assigned
                == 0 by {
                if items@[k].kind == kind {
                    assert(items@[k].assigned <= req);
                    assert(req == 0);
                }
            }
        }
        self.items = items;
    }

    /// Cap each building at its required crew, then drop assignments if the
    /// total exceeds `population`.
    ///
    /// Unassign order: quarry → lumber → farm, last instance in list first
    /// within each kind.
    pub fn clamp_workers(&mut self, balance: &BuildingsBalance, population: usize)
        requires
            total_workers(old(self)@) <= usize::MAX,
        ensures
            final(self)@ == clamped(old(self)@, balance, population as nat),
            final(self)@.len() == old(self)@.len(),
            forall|k: int|
                0 <= k < old(self)@.len() ==> (#[trigger] final(self)@[k]).kind == old(self)@[k].kind && final(self)@[k].assigned <= old(self)@[k].assigned,
            forall|k: int|
                0 <= k < old(self)@.len() && (#[trigger] final(self)@[k]).kind.employs()
                    ==> final(self)@[k].assigned <= final(self)@[k].kind.required(balance),
            total_workers(final(self)@) <= population || unassign_index(final(self)@) < 0,
    {
        proof {
            use_type_invariant(&*self);
        }
        let mut items: Vec<Building> = Vec::new();
        std::mem::swap(&mut items, &mut self.items);
        let ghost s0 = items@;
        let mut i: usize = 0;
        while i < items.len()
            invariant
                i <= items@.len(),
                items@.len() == s0.len(),
                forall|k: int| 0 <= k < i ==> items@[k] == capped(s0[k], balance),
                forall|k: int| i <= k < s0.len() ==> items@[k] == s0[k],
            decreases items.len() - i,
        {
            let b = items[i];
            if b.kind.employs_workers() {
                let cap = b.kind.workers_required(balance);
                if b.assigned > cap {
                    items.set(i, Building { kind: b.kind, assigned: cap });
                }
            }
            i = i + 1;
        }
        let ghost c = cap_all(s0, balance);
        assert(items@ =~= c);
        proof {
            lemma_cap_all_total(s0, balance);
        }
        let mut done = false;
        while !done && Self::total_in(&items) > population
            invariant
                total_workers(items@) <= usize::MAX,
                drain(items@, population as nat) == drain(c, population as nat),
                done ==> unassign_index(items@) < 0,
            decreases total_workers(items@), if done { 0int } else { 1int },
        {
            match Self::index_to_unassign(items.as_slice()) {
                None => {
                    done = true;
                },
                Some(idx) => {
                    let ghost before = items@;
                    proof {
                        lemma_unassign_index(before);
                        lemma_total_update(before, idx as int, Building {
                            kind: before[idx as int].kind,
                            assigned: (before[idx as int].assigned - 1) as usize,
                        });
                    }
                    let b = items[idx];
                    items.set(idx, Building { kind: b.kind, assigned: b.assigned - 1 });
                    assert(items@ =~= minus_one(before, idx as int));
                },
            }
        }
        proof {
            lemma_drain(c, population as nat);
            assert forall|k: int|
                0 <= k < s0.len() && (#[trigger] items@[k]).kind.employs() implies items@[k].assigned
                <= items@[k].kind.required(balance) by {
                assert(items@[k].assigned <= c[k].assigned);
            }
        }
        proof {
            lemma_clamp_bounds(s0, balance, population as nat);
            assert forall|k: int| 0 <= k < items@.len() && !(#[trigger] items@[k]).kind.employs() implies items@[k].assigned
                == 0 by {
                assert(items@[k].kind == s0[k].kind);
            }
        }
        self.items = items;
    }

    /// Last index below `end` of a busy instance of `kind`.
    fn last_busy_index(items: &[Building], kind: BuildingKind) -> (r: Option<usize>)
        ensures
            match r {
                Some(i) => i as int == last_busy(items@, kind, items@.len() as int),
                None => last_busy(items@, kind, items@.len() as int) < 0,
            },
    {
        let mut j = items.len();
        while j > 0
            invariant
                j <= items@.len(),
                last_busy(items@, kind, items@.len() as int) == last_busy(items@, kind, j as int),
            decreases j,
        {
            let b = items[j - 1];
            if b.kind == kind && b.assigned > 0 {
                return Some(j - 1);
            }
            j = j - 1;
        }
        None
    }

    /// Index of one worker to remove when total assigned exceeds population.
    fn index_to_unassign(items: &[Building]) -> (r: Option<usize>)
        ensures
            match r {
                Some(i) => i as int == unassign_index(items@),
                None => unassign_index(items@) < 0,
            },
    {
        proof {
            lemma_last_busy(items@, BuildingKind::StoneQuarry, items@.len() as int);
            lemma_last_busy(items@, BuildingKind::LumberYard, items@.len() as int);
        }
        match Self::last_busy_index(items, BuildingKind::StoneQuarry) {
            Some(i) => Some(i),
            None => match Self::last_busy_index(items, BuildingKind::LumberYard) {
                Some(i) => Some(i),
                None => Self::last_busy_index(items, BuildingKind::Farm),
            },
        }
    }
}

} // verus!
