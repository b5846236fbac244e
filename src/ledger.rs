use vstd::prelude::*;
use crate::fixed_point::{mul_div_floor, mul_div_floor_wide, mul_div_sat, PRICE_SCALE};
use crate::config::BPS_DENOMINATOR;
use crate::types::{Position, PositionStatus};

verus! {

/// `v` kept within the range of `i128`.
pub open spec fn clamp_i128(v: int) -> int {
    if v > i128::MAX {
        i128::MAX as int
    } else if v < i128::MIN {
        i128::MIN as int
    } else {
        v
    }
}

/// `(current - entry) * amount`, in lamports, rounded toward zero and kept in `i128`.
pub open spec fn pnl_of(entry: int, current: int, amount: int) -> int {
    clamp_i128(
        if current >= entry {
            (current - entry) * amount / PRICE_SCALE as int
        } else {
            -((entry - current) * amount / PRICE_SCALE as int)
        },
    )
}

/// `(current - entry) / entry`, in basis points, rounded toward zero and kept
/// in `i128`; 0 for a zero entry price.
pub open spec fn pnl_bps_of(entry: int, current: int) -> int {
    if entry == 0 {
        0
    } else {
        clamp_i128(
            if current >= entry {
                (current - entry) * BPS_DENOMINATOR as int / entry
            } else {
                -((entry - current) * BPS_DENOMINATOR as int / entry)
            },
        )
    }
}

/// `mag` or `-mag`, kept in `i128`.
fn signed_clamped(mag: u128, negative: bool) -> (r: i128)
    ensures
        r == clamp_i128(if negative { -(mag as int) } else { mag as int }),
{
    if negative {
        if mag > i128::MAX as u128 {
            i128::MIN
        } else {
            -(mag as i128)
        }
    } else {
        if mag > i128::MAX as u128 {
            i128::MAX
        } else {
            mag as i128
        }
    }
}

/// Profit of `amount` bought at `entry` and valued at `current`, in lamports.
pub fn compute_pnl(entry: u128, current: u128, amount: u64) -> (r: i128)
    ensures
        r == pnl_of(entry as int, current as int, amount as int),
{
    let negative = current < entry;
    let diff = if negative { entry - current } else { current - entry };
    let mag = mul_div_floor(diff, amount, PRICE_SCALE as u64);
    proof {
        assert(mag == mul_div_sat(diff as int, amount as int, PRICE_SCALE as int));
    }
    signed_clamped(mag, negative)
}

/// Relative profit at `current` against `entry`, in basis points.
pub fn compute_pnl_bps(entry: u128, current: u128) -> (r: i128)
    ensures
        r == pnl_bps_of(entry as int, current as int),
{
    if entry == 0 {
        return 0;
    }
    let negative = current < entry;
    let diff = if negative { entry - current } else { current - entry };
    let mag = mul_div_floor_wide(diff, BPS_DENOMINATOR, entry);
    signed_clamped(mag, negative)
}

impl Position {
    /// Profit figures agree with the prices and the amount, and a position
    /// is Closed exactly when nothing is held.
    pub open spec fn wf(&self) -> bool {
        &&& (self.status == PositionStatus::Closed) == (self.amount == 0)
        &&& self.pnl == pnl_of(self.entry_price as int, self.current_price as int, self.amount as int)
        &&& self.pnl_bps == pnl_bps_of(self.entry_price as int, self.current_price as int)
    }

    /// A freshly opened position, priced at entry; Closed at once when it
    /// holds nothing.
    pub fn new(
        token_address: String,
        token_symbol: String,
        amount: u64,
        entry_price: u128,
        opened_at_ms: u64,
        take_profit_price: Option<u128>,
        stop_loss_price: Option<u128>,
    ) -> (r: Position)
        ensures
            r.wf(),
            r.token_address == token_address,
            r.token_symbol == token_symbol,
            r.amount == amount,
            r.entry_price == entry_price,
            r.current_price == entry_price,
            r.pnl == 0,
            r.pnl_bps == 0,
            r.opened_at_ms == opened_at_ms,
            r.last_updated_ms == opened_at_ms,
            r.take_profit_price == take_profit_price,
            r.stop_loss_price == stop_loss_price,
            r.trailing_stop_price is None,
            r.status == if amount == 0 { PositionStatus::Closed } else { PositionStatus::Open },
    {
        let pnl = compute_pnl(entry_price, entry_price, amount);
        let pnl_bps = compute_pnl_bps(entry_price, entry_price);
        Position {
            token_address,
            token_symbol,
            amount,
            entry_price,
            current_price: entry_price,
            pnl,
            pnl_bps,
            opened_at_ms,
            last_updated_ms: opened_at_ms,
            take_profit_price,
            stop_loss_price,
            trailing_stop_price: None,
            status: if amount == 0 { PositionStatus::Closed } else { PositionStatus::Open },
        }
    }
}

/// `p` after a sale of `sold` settled at `now_ms`: Closed when nothing is
/// left, Partial when some was sold, otherwise as it was.
pub open spec fn settled(p: Position, sold: int, now_ms: int) -> Position {
    let amount = (p.amount - sold) as u64;
    Position {
        amount,
        pnl: pnl_of(p.entry_price as int, p.current_price as int, amount as int) as i128,
        status: if amount == 0 {
            PositionStatus::Closed
        } else if sold == 0 {
            p.status
        } else {
            PositionStatus::Partial
        },
        last_updated_ms: if now_ms > p.last_updated_ms { now_ms as u64 } else { p.last_updated_ms },
        ..p
    }
}

/// `p` revalued at `price` at `now_ms`.
pub open spec fn repriced(p: Position, price: int, now_ms: int) -> Position {
    Position {
        current_price: price as u128,
        pnl: pnl_of(p.entry_price as int, price, p.amount as int) as i128,
        pnl_bps: pnl_bps_of(p.entry_price as int, price) as i128,
        last_updated_ms: if now_ms > p.last_updated_ms { now_ms as u64 } else { p.last_updated_ms },
        ..p
    }
}

/// A position that is still held in some amount of its life.
pub open spec fn is_live(p: Position) -> bool {
    p.status != PositionStatus::Closed
}

/// Assets whose position is live.
pub open spec fn live_keys(m: Map<Seq<char>, Position>) -> Set<Seq<char>> {
    m.dom().filter(|k: Seq<char>| is_live(m[k]))
}

/// Why a ledger operation was refused.
#[derive(Debug, Clone, Copy, PartialEq, Eq, Structural)]
pub enum LedgerError {
    /// No position is recorded for the asset.
    NotFound,
    /// The sale is larger than the amount held.
    Overdraw,
    /// A live position in the asset already exists.
    AlreadyOpen,
}

/// Positions keyed by asset address: at most one entry per asset.
pub struct PositionLedger {
    positions: Vec<Position>,
}

/// No two entries share an asset address.
pub open spec fn unique_keys(s: Seq<Position>) -> bool {
    forall|i: int, j: int|
        0 <= i < s.len() && 0 <= j < s.len() && i != j ==> s[i].token_address@ != s[j].token_address@
}

/// True when some entry of `s` has address `k`.
pub open spec fn has_key(s: Seq<Position>, k: Seq<char>) -> bool {
    exists|i: int| 0 <= i < s.len() && s[i].token_address@ == k
}

/// The entries of `s` as a map from address to position.
pub open spec fn map_of(s: Seq<Position>) -> Map<Seq<char>, Position> {
    Map::new(
        |k: Seq<char>| has_key(s, k),
        |k: Seq<char>| s[choose|i: int| 0 <= i < s.len() && s[i].token_address@ == k],
    )
}

proof fn lemma_map_at(s: Seq<Position>, i: int)
    requires
        unique_keys(s),
        0 <= i < s.len(),
    ensures
        map_of(s).contains_key(s[i].token_address@),
        map_of(s)[s[i].token_address@] == s[i],
{
    let k = s[i].token_address@;
    assert(has_key(s, k));
    let j = choose|j: int| 0 <= j < s.len() && s[j].token_address@ == k;
    assert(j == i);
}

proof fn lemma_map_update(s: Seq<Position>, i: int, p: Position)
    requires
        unique_keys(s),
        0 <= i < s.len(),
        p.token_address@ == s[i].token_address@,
    ensures
        unique_keys(s.update(i, p)),
        map_of(s.update(i, p)) == map_of(s).insert(p.token_address@, p),
{
    let t = s.update(i, p);
    assert(unique_keys(t));
    assert forall|k: Seq<char>| has_key(t, k) <==> has_key(s, k) || k == p.token_address@ by {
        if has_key(s, k) {
            let j = choose|j: int| 0 <= j < s.len() && s[j].token_address@ == k;
            assert(t[j].token_address@ == k);
        }
        if has_key(t, k) {
            let j = choose|j: int| 0 <= j < t.len() && t[j].token_address@ == k;
            assert(s[j].token_address@ == k);
        }
    }
    assert forall|k: Seq<char>| has_key(t, k) implies map_of(t)[k] == map_of(s).insert(p.token_address@, p)[k] by {
        let j = choose|j: int| 0 <= j < t.len() && t[j].token_address@ == k;
        lemma_map_at(t, j);
        if k != p.token_address@ {
            assert(j != i);
            lemma_map_at(s, j);
        }
    }
    assert(map_of(t) =~= map_of(s).insert(p.token_address@, p));
}

proof fn lemma_map_push(s: Seq<Position>, p: Position)
    requires
        unique_keys(s),
        !has_key(s, p.token_address@),
    ensures
        unique_keys(s.push(p)),
        map_of(s.push(p)) == map_of(s).insert(p.token_address@, p),
{
    let t = s.push(p);
    assert forall|i: int, j: int| 0 <= i < t.len() && 0 <= j < t.len() && i != j implies t[i].token_address@
        != t[j].token_address@ by {
        if i == s.len() {
            assert(s[j].token_address@ == t[j].token_address@);
        } else if j == s.len() {
            assert(s[i].token_address@ == t[i].token_address@);
        }
    }
    assert forall|k: Seq<char>| has_key(t, k) <==> has_key(s, k) || k == p.token_address@ by {
        if has_key(s, k) {
            let j = choose|j: int| 0 <= j < s.len() && s[j].token_address@ == k;
            assert(t[j].token_address@ == k);
        }
        if k == p.token_address@ {
            assert(t[s.len() as int].token_address@ == k);
        }
        if has_key(t, k) {
            let j = choose|j: int| 0 <= j < t.len() && t[j].token_address@ == k;
            if j < s.len() {
                assert(s[j].token_address@ == k);
            }
        }
    }
    assert forall|k: Seq<char>| has_key(t, k) implies map_of(t)[k] == map_of(s).insert(p.token_address@, p)[k] by {
        let j = choose|j: int| 0 <= j < t.len() && t[j].token_address@ == k;
        lemma_map_at(t, j);
        if j < s.len() {
            lemma_map_at(s, j);
        }
    }
    assert(map_of(t) =~= map_of(s).insert(p.token_address@, p));
}

impl View for PositionLedger {
    type V = Map<Seq<char>, Position>;

    closed spec fn view(&self) -> Map<Seq<char>, Position> {
        map_of(self.positions@)
    }
}

impl PositionLedger {
    /// Keys are unique and every position's profit figures are current.
    pub closed spec fn wf(&self) -> bool {
        &&& unique_keys(self.positions@)
        &&& forall|i: int| 0 <= i < self.positions@.len() ==> (#[trigger] self.positions@[i]).wf()
    }

    /// An empty ledger.
    pub fn new() -> (r: PositionLedger)
        ensures
            r.wf(),
            r@ == Map::<Seq<char>, Position>::empty(),
    {
        let r = PositionLedger { positions: Vec::new() };
        assert(r@ =~= Map::<Seq<char>, Position>::empty());
        r
    }

    fn find(&self, asset: &String) -> (r: Option<usize>)
        requires
            self.wf(),
        ensures
            r matches Some(i) ==> i < self.positions@.len() && self.positions@[i as int].token_address@ == asset@
                && self@.contains_key(asset@) && self@[asset@] == self.positions@[i as int],
            r is None ==> !self@.contains_key(asset@),
    {
        let mut i: usize = 0;
        while i < self.positions.len()
            invariant
                self.wf(),
                i <= self.positions@.len(),
                forall|j: int| 0 <= j < i ==> self.positions@[j].token_address@ != asset@,
            decreases self.positions@.len() - i,
        {
            if self.positions[i].token_address == *asset {
                proof {
                    lemma_map_at(self.positions@, i as int);
                }
                return Some(i);
            }
            i = i + 1;
        }
        None
    }

    /// The position held in `asset`, if any.
    pub fn get(&self, asset: &String) -> (r: Option<&Position>)
        requires
            self.wf(),
        ensures
            r is Some <==> self@.contains_key(asset@),
            r matches Some(p) ==> *p == self@[asset@],
    {
        match self.find(asset) {
            Some(i) => Some(&self.positions[i]),
            None => None,
        }
    }

    /// Records a new position. A live position in the same asset is kept and
    /// the call refused; a closed one is replaced.
    pub fn open(&mut self, position: Position) -> (r: Result<(), LedgerError>)
        requires
            old(self).wf(),
            position.wf(),
        ensures
            final(self).wf(),
            r is Ok <==> !(old(self)@.contains_key(position.token_address@)
                && is_live(old(self)@[position.token_address@])),
            r is Ok ==> final(self)@ == old(self)@.insert(position.token_address@, position),
            r matches Err(e) ==> e == LedgerError::AlreadyOpen && final(self)@ == old(self)@,
    {
        match self.find(&position.token_address) {
            Some(i) => {
                if self.positions[i].status != PositionStatus::Closed {
                    return Err(LedgerError::AlreadyOpen);
                }
                proof {
                    lemma_map_update(self.positions@, i as int, position);
                }
                self.positions.set(i, position);
                Ok(())
            },
            None => {
                proof {
                    lemma_map_push(self.positions@, position);
                }
                self.positions.push(position);
                Ok(())
            },
        }
    }

    /// Takes `amount_sold` off the position in `asset`: Closed when nothing is
    /// left, Partial when some was sold. Selling more than is held is refused.
    pub fn apply_sell_settlement(&mut self, asset: &String, amount_sold: u64, now_ms: u64) -> (r: Result<(), LedgerError>)
        requires
            old(self).wf(),
        ensures
            final(self).wf(),
            !old(self)@.contains_key(asset@) ==> r == Err::<(), LedgerError>(LedgerError::NotFound),
            old(self)@.contains_key(asset@) && amount_sold > old(self)@[asset@].amount ==> r == Err::<(), LedgerError>(LedgerError::Overdraw),
            r is Ok <==> old(self)@.contains_key(asset@) && amount_sold <= old(self)@[asset@].amount,
            r is Ok ==> final(self)@ == old(self)@.insert(asset@, settled(old(self)@[asset@], amount_sold as int, now_ms as int)),
            r is Err ==> final(self)@ == old(self)@,
    {
        match self.find(asset) {
            None => Err(LedgerError::NotFound),
            Some(i) => {
                if amount_sold > self.positions[i].amount {
                    return Err(LedgerError::Overdraw);
                }
                let mut p = self.positions[i].clone();
                p.amount = p.amount - amount_sold;
                p.pnl = compute_pnl(p.entry_price, p.current_price, p.amount);
                if p.amount == 0 {
                    p.status = PositionStatus::Closed;
                } else if amount_sold > 0 {
                    p.status = PositionStatus::Partial;
                }
                if now_ms > p.last_updated_ms {
                    p.last_updated_ms = now_ms;
                }
                proof {
                    assert(p == settled(self.positions@[i as int], amount_sold as int, now_ms as int));
                    lemma_map_update(self.positions@, i as int, p);
                }
                self.positions.set(i, p);
                Ok(())
            },
        }
    }

    /// Revalues the position in `asset` at `new_price`.
    pub fn refresh_price(&mut self, asset: &String, new_price: u128, now_ms: u64) -> (r: Result<(), LedgerError>)
        requires
            old(self).wf(),
        ensures
            final(self).wf(),
            r is Ok <==> old(self)@.contains_key(asset@),
            r matches Err(e) ==> e == LedgerError::NotFound && final(self)@ == old(self)@,
            r is Ok ==> final(self)@ == old(self)@.insert(asset@, repriced(old(self)@[asset@], new_price as int, now_ms as int)),
    {
        match self.find(asset) {
            None => Err(LedgerError::NotFound),
            Some(i) => {
                let mut p = self.positions[i].clone();
                p.current_price = new_price;
                p.pnl = compute_pnl(p.entry_price, new_price, p.amount);
                p.pnl_bps = compute_pnl_bps(p.entry_price, new_price);
                if now_ms > p.last_updated_ms {
                    p.last_updated_ms = now_ms;
                }
                proof {
                    assert(p == repriced(self.positions@[i as int], new_price as int, now_ms as int));
                    lemma_map_update(self.positions@, i as int, p);
                }
                self.positions.set(i, p);
                Ok(())
            },
        }
    }
    /// Copies of the live (Open or Partial) positions, one per asset.
    pub fn list_open(&self) -> (r: Vec<Position>)
        requires
            self.wf(),
        ensures
            unique_keys(r@),
            forall|i: int| 0 <= i < r@.len() ==> self@.contains_key(#[trigger] r@[i].token_address@)
                && self@[r@[i].token_address@] == r@[i] && is_live(r@[i]),
            forall|k: Seq<char>| self@.contains_key(k) && is_live(self@[k]) ==> has_key(r@, k),
    {
        let mut r: Vec<Position> = Vec::new();
        let ghost mut idx: Seq<int> = Seq::empty();
        let mut i: usize = 0;
        while i < self.positions.len()
            invariant
                self.wf(),
                i <= self.positions@.len(),
                idx.len() == r@.len(),
                forall|j: int| 0 <= j < idx.len() ==> 0 <= #[trigger] idx[j] < i,
                forall|j: int, m: int| 0 <= j < m < idx.len() ==> idx[j] < idx[m],
                forall|j: int| 0 <= j < idx.len() ==> r@[j] == self.positions@[#[trigger] idx[j]]
                    && is_live(r@[j]),
                forall|m: int| 0 <= m < i && is_live(#[trigger] self.positions@[m]) ==> has_key(r@, self.positions@[m].token_address@),
            decreases self.positions@.len() - i,
        {
            if self.positions[i].status != PositionStatus::Closed {
                let p = self.positions[i].clone();
                let ghost prev = r@;
                proof {
                    idx = idx.push(i as int);
                }
                r.push(p);
                proof {
                    assert(r@[r@.len() - 1].token_address@ == self.positions@[i as int].token_address@);
                    assert forall|m: int| 0 <= m < i + 1 && is_live(#[trigger] self.positions@[m]) implies has_key(
                        r@,
                        self.positions@[m].token_address@,
                    ) by {
                        if m < i {
                            let j = choose|j: int| 0 <= j < prev.len() && prev[j].token_address@ == self.positions@[m].token_address@;
                            assert(r@[j] == prev[j]);
                        } else {
                            assert(r@[r@.len() - 1].token_address@ == self.positions@[m].token_address@);
                        }
                    }
                }
            }
            i = i + 1;
        }
        proof {
            assert forall|a: int, b: int| 0 <= a < r@.len() && 0 <= b < r@.len() && a != b implies r@[a].token_address@
                != r@[b].token_address@ by {
                assert(r@[a] == self.positions@[idx[a]]);
                assert(r@[b] == self.positions@[idx[b]]);
                assert(idx[a] != idx[b]);
            }
            assert forall|j: int| 0 <= j < r@.len() implies self@.contains_key(#[trigger] r@[j].token_address@)
                && self@[r@[j].token_address@] == r@[j] && is_live(r@[j]) by {
                assert(r@[j] == self.positions@[idx[j]]);
                lemma_map_at(self.positions@, idx[j]);
            }
            assert forall|k: Seq<char>| self@.contains_key(k) && is_live(self@[k]) implies has_key(r@, k) by {
                let m = choose|m: int| 0 <= m < self.positions@.len() && self.positions@[m].token_address@ == k;
                lemma_map_at(self.positions@, m);
            }
        }
        r
    }
    /// Number of live positions.
    pub fn open_count(&self) -> (r: usize)
        requires
            self.wf(),
        ensures
            r == live_keys(self@).len(),
    {
        let open = self.list_open();
        proof {
            let keys = open@.map_values(|p: Position| p.token_address@);
            assert(keys.no_duplicates()) by {
                assert forall|a: int, b: int| 0 <= a < keys.len() && 0 <= b < keys.len() && a != b implies keys[a]
                    != keys[b] by {}
            }
            keys.unique_seq_to_set();
            assert forall|k: Seq<char>| keys.to_set().contains(k) <==> live_keys(self@).contains(k) by {
                if keys.to_set().contains(k) {
                    let i = choose|i: int| 0 <= i < keys.len() && keys[i] == k;
                    assert(open@[i].token_address@ == k);
                }
                if live_keys(self@).contains(k) {
                    assert(has_key(open@, k));
                    let i = choose|i: int| 0 <= i < open@.len() && open@[i].token_address@ == k;
                    assert(keys[i] == k);
                }
            }
            assert(keys.to_set() =~= live_keys(self@));
        }
        open.len()
    }
}

} // verus!
