//! The mint: a ledger keyed by opaque purse identifiers, offering purse
//! creation and an atomic transfer built from capability views.
//!
//! Deposit-only access is enforced by the types, not by runtime checks: a
//! holder of a [`DepOnlyId`] can reach an [`AddView`] and nothing else, and
//! an `AddView` offers no operation that observes or lowers a balance.

use vstd::prelude::*;
use vstd::pervasive::unreached;
use vstd::pervasive::VecAdditionalExecFns;

use crate::balance::{Balance, balance_limit, lemma_balance_bounded};

verus! {

/// Soft transfer failures, returned as values so callers can branch on them.
#[derive(Clone, Copy, Debug, PartialEq, Eq, Structural)]
pub enum Error {
    /// The source identifier resolves to no purse.
    SourceNotFound,
    /// The destination identifier resolves to no purse.
    DestNotFound,
    /// The requested amount exceeds the source balance.
    InsufficientFunds,
}

/// A full-access opaque handle to one purse: read, write and add.
#[derive(Clone, Copy, Debug, PartialEq, Eq, Structural)]
pub struct PurseId {
    idx: usize,
}

/// A deposit-only opaque handle to one purse: add and nothing else.
#[derive(Clone, Copy, Debug, PartialEq, Eq, Structural)]
pub struct DepOnlyId {
    idx: usize,
}

impl PurseId {
    /// The purse this identifier names.
    pub closed spec fn purse_index(&self) -> int {
        self.idx as int
    }

    /// Narrow this full handle to a deposit-only handle for the same purse.
    pub fn to_dep(self) -> (r: DepOnlyId)
        ensures
            r.purse_index() == self.purse_index(),
    {
        DepOnlyId { idx: self.idx }
    }

    pub(crate) fn raw(&self) -> (r: usize)
        ensures
            r as int == self.purse_index(),
    {
        self.idx
    }

    pub(crate) fn from_raw(addr: usize) -> (r: PurseId)
        ensures
            r.purse_index() == addr,
    {
        PurseId { idx: addr }
    }
}

impl DepOnlyId {
    /// The purse this identifier names.
    pub closed spec fn purse_index(&self) -> int {
        self.idx as int
    }

    pub(crate) fn from_raw(addr: usize) -> (r: DepOnlyId)
        ensures
            r.purse_index() == addr,
    {
        DepOnlyId { idx: addr }
    }
}

/// A read+write+add capability over one purse of a given mint.
#[derive(Clone, Copy)]
pub struct ReadWriteView {
    idx: usize,
}

/// An add-only capability over one purse of a given mint. It exposes no
/// operation that returns or overwrites the balance.
#[derive(Clone, Copy)]
pub struct AddView {
    idx: usize,
}

/// The ledger: one balance per purse, addressed by the index packed inside
/// the opaque identifiers. Purses are never deleted, so an index, once
/// handed out, never names a different purse.
pub struct Mint {
    purses: Vec<Balance>,
}

impl View for Mint {
    type V = Seq<nat>;

    /// The mint abstracts to the sequence of its purse balances.
    closed spec fn view(&self) -> Seq<nat> {
        self.purses@.map(|i: int, b: Balance| b.value())
    }
}

/// The checks of a transfer: source exists, funds suffice, destination exists.
pub open spec fn transfer_ok(s: Seq<nat>, src: int, dst: int, amount: nat) -> bool {
    &&& 0 <= src < s.len()
    &&& amount <= s[src]
    &&& 0 <= dst < s.len()
}

/// The exact outcome of a transfer attempt, with the checks made in order:
/// unknown source, then insufficient funds, then unknown destination.
pub open spec fn transfer_result(s: Seq<nat>, src: int, dst: int, amount: nat) -> Result<(), Error> {
    if !(0 <= src < s.len()) {
        Err(Error::SourceNotFound)
    } else if amount > s[src] {
        Err(Error::InsufficientFunds)
    } else if !(0 <= dst < s.len()) {
        Err(Error::DestNotFound)
    } else {
        Ok(())
    }
}

/// The balances after a deposit of `amount` into purse `i`.
pub open spec fn deposit_effect(s: Seq<nat>, i: int, amount: nat) -> Seq<nat> {
    s.update(i, (s[i] + amount) as nat)
}

/// The balances after a committed transfer: the source is debited, then the
/// destination is credited. When source and destination coincide the two
/// steps cancel.
pub open spec fn transfer_effect(s: Seq<nat>, src: int, dst: int, amount: nat) -> Seq<nat> {
    let debited = s.update(src, (s[src] - amount) as nat);
    deposit_effect(debited, dst, amount)
}

impl ReadWriteView {
    /// The purse this view grants access to.
    pub closed spec fn purse_index(&self) -> int {
        self.idx as int
    }

    /// Read the current balance; no side effect.
    pub fn read(&self, mint: &Mint) -> (r: Balance)
        requires
            self.purse_index() < mint@.len(),
        ensures
            r.value() == mint@[self.purse_index()],
    {
        mint.purses[self.idx].clone()
    }

    /// Unconditionally replace the stored balance; the change is visible to
    /// every other view over the same purse.
    pub fn write(&self, mint: &mut Mint, value: Balance)
        requires
            self.purse_index() < old(mint)@.len(),
        ensures
            final(mint)@ =~= old(mint)@.update(self.purse_index(), value.value()),
    {
        mint.purses.set(self.idx, value);
    }
}

impl AddView {
    /// The purse this view grants access to.
    pub closed spec fn purse_index(&self) -> int {
        self.idx as int
    }

    /// Increment the stored balance by `delta`. Increments commute, so
    /// unrelated deposits compose in any order. The sum must fit in 512
    /// bits; the ledger's total supply is the host's responsibility.
    pub fn add(&self, mint: &mut Mint, delta: &Balance)
        requires
            self.purse_index() < old(mint)@.len(),
            old(mint)@[self.purse_index()] + delta.value() < balance_limit(),
        ensures
            final(mint)@ =~= deposit_effect(old(mint)@, self.purse_index(), delta.value()),
    {
        let current = mint.purses[self.idx].clone();
        let updated = match current.checked_add(delta) {
            Some(v) => v,
            None => unreached(),
        };
        mint.purses.set(self.idx, updated);
    }
}

impl Mint {
    /// An empty ledger with no purses.
    pub fn new() -> (r: Mint)
        ensures
            r@ =~= Seq::<nat>::empty(),
    {
        Mint { purses: Vec::new() }
    }

    /// Allocate a new purse holding `initial_balance` and return a fresh
    /// full identifier. Allocation never fails here, whatever the magnitude
    /// of `initial_balance`; the `Result` is the minting interface shape.
    pub fn mint(&mut self, initial_balance: Balance) -> (r: Result<PurseId, Error>)
        ensures
            r is Ok,
            r matches Ok(p) && p.purse_index() == old(self)@.len(),
            final(self)@ =~= old(self)@.push(initial_balance.value()),
    {
        let id = PurseId { idx: self.purses.len() };
        self.purses.push(initial_balance);
        Ok(id)
    }

    /// Create an empty purse. Creating a zero-balance purse always succeeds
    /// and each call yields a fresh identifier mapping to balance zero.
    pub fn create(&mut self) -> (r: PurseId)
        ensures
            r.purse_index() == old(self)@.len(),
            final(self)@ =~= old(self)@.push(0),
    {
        match self.mint(Balance::zero()) {
            Ok(p) => p,
            Err(_) => unreached(),
        }
    }

    /// Resolve a full identifier to a combined read+write view; `None` when
    /// the identifier names no purse.
    pub fn lookup(&self, p: PurseId) -> (r: Option<ReadWriteView>)
        ensures
            r is Some <==> p.purse_index() < self@.len(),
            r matches Some(v) ==> v.purse_index() == p.purse_index(),
    {
        if p.idx < self.purses.len() {
            Some(ReadWriteView { idx: p.idx })
        } else {
            None
        }
    }

    /// Resolve a deposit-only identifier to an add-only view; `None` when
    /// the identifier names no purse. The return type statically excludes
    /// read and write: nothing reachable from it observes a balance.
    pub fn dep_lookup(&self, p: DepOnlyId) -> (r: Option<AddView>)
        ensures
            r is Some <==> p.purse_index() < self@.len(),
            r matches Some(v) ==> v.purse_index() == p.purse_index(),
    {
        if p.idx < self.purses.len() {
            Some(AddView { idx: p.idx })
        } else {
            None
        }
    }

    /// The balance of a purse, for a holder of its full identifier.
    pub fn balance(&self, p: PurseId) -> (r: Option<Balance>)
        ensures
            r is Some <==> p.purse_index() < self@.len(),
            r matches Some(b) ==> b.value() == self@[p.purse_index()],
    {
        match self.lookup(p) {
            Some(v) => Some(v.read(self)),
            None => None,
        }
    }

    /// Move `amount` from the purse behind `source` to the purse behind
    /// `dest`. All checks precede any mutation, so a failed transfer leaves
    /// every balance untouched; a successful one debits and credits as one
    /// step. The destination needs room for the credit: the original ledger
    /// aborts on 512-bit overflow, so that input is excluded here.
    pub fn transfer(&mut self, source: PurseId, dest: DepOnlyId, amount: Balance) -> (r: Result<
        (),
        Error,
    >)
        requires
            (transfer_ok(old(self)@, source.purse_index(), dest.purse_index(), amount.value())
                && source.purse_index() != dest.purse_index()) ==> old(self)@[dest.purse_index()]
                + amount.value() < balance_limit(),
        ensures
            r == transfer_result(old(self)@, source.purse_index(), dest.purse_index(), amount.value()),
            r is Ok ==> final(self)@ =~= transfer_effect(
                old(self)@,
                source.purse_index(),
                dest.purse_index(),
                amount.value(),
            ),
            r is Err ==> final(self)@ =~= old(self)@,
    {
        let source_bal = match self.lookup(source) {
            Some(v) => v,
            None => {
                return Err(Error::SourceNotFound);
            },
        };
        let source_value = source_bal.read(self);
        let new_source = match source_value.checked_sub(&amount) {
            Some(v) => v,
            None => {
                return Err(Error::InsufficientFunds);
            },
        };
        let dest_bal = match self.dep_lookup(dest) {
            Some(v) => v,
            None => {
                return Err(Error::DestNotFound);
            },
        };
        proof {
            use_type_invariant(&source_value);
            lemma_balance_bounded(source_value);
        }
        source_bal.write(self, new_source);
        dest_bal.add(self, &amount);
        Ok(())
    }
}

/// Total value held across all purses.
pub open spec fn sum_of(s: Seq<nat>) -> nat
    decreases s.len(),
{
    if s.len() == 0 {
        0
    } else {
        sum_of(s.drop_last()) + s.last()
    }
}

/// Updating one entry shifts the total by exactly the difference.
proof fn lemma_sum_update(s: Seq<nat>, i: int, v: nat)
    requires
        0 <= i < s.len(),
    ensures
        sum_of(s.update(i, v)) + s[i] == sum_of(s) + v,
    decreases s.len(),
{
    let t = s.update(i, v);
    if i == s.len() - 1 {
        assert(t.drop_last() =~= s.drop_last());
    } else {
        assert(t.drop_last() =~= s.drop_last().update(i, v));
        lemma_sum_update(s.drop_last(), i, v);
    }
}

/// Conservation: a committed transfer keeps the sum of the source and
/// destination balances, keeps the total over all purses, and leaves every
/// other purse untouched.
pub proof fn lemma_transfer_conserves(s: Seq<nat>, src: int, dst: int, amount: nat)
    requires
        transfer_ok(s, src, dst, amount),
    ensures
        transfer_effect(s, src, dst, amount)[src] + transfer_effect(s, src, dst, amount)[dst]
            == s[src] + s[dst],
        sum_of(transfer_effect(s, src, dst, amount)) == sum_of(s),
        forall|j: int|
            0 <= j < s.len() && j != src && j != dst ==> transfer_effect(s, src, dst, amount)[j]
                == s[j],
{
    let debited = s.update(src, (s[src] - amount) as nat);
    lemma_sum_update(s, src, (s[src] - amount) as nat);
    lemma_sum_update(debited, dst, (debited[dst] + amount) as nat);
}

/// No negative balance: balances are naturals, and a transfer only commits
/// when the amount is covered, so the debit loses nothing to truncation and
/// every purse stays at or above zero.
pub proof fn lemma_no_negative_balance(s: Seq<nat>, src: int, dst: int, amount: nat)
    requires
        transfer_ok(s, src, dst, amount),
    ensures
        (s[src] - amount) as nat + amount == s[src],
        forall|j: int|
            0 <= j < s.len() ==> transfer_effect(s, src, dst, amount)[j] >= 0,
{
}

/// Minting is the only way the total grows: a new purse adds exactly its
/// initial balance to the total held across all purses.
pub proof fn lemma_mint_adds_value(s: Seq<nat>, initial: nat)
    ensures
        sum_of(s.push(initial)) == sum_of(s) + initial,
{
    assert(s.push(initial).drop_last() =~= s);
}

/// Deposits commute: two increments through add-only views land in either
/// order with the same outcome, so unrelated deposits compose without lost
/// updates.
pub proof fn lemma_deposits_commute(s: Seq<nat>, i: int, j: int, a: nat, b: nat)
    requires
        0 <= i < s.len(),
        0 <= j < s.len(),
    ensures
        deposit_effect(deposit_effect(s, i, a), j, b) =~= deposit_effect(
            deposit_effect(s, j, b),
            i,
            a,
        ),
{
}

/// Idempotent zero-create: two successive purse creations always succeed,
/// yield distinct identifiers, and each new purse holds zero.
pub proof fn lemma_zero_create_distinct(s: Seq<nat>)
    ensures
        ({
            let first_id = s.len() as int;
            let after_first = s.push(0);
            let second_id = after_first.len() as int;
            let after_second = after_first.push(0);
            &&& first_id != second_id
            &&& after_second[first_id] == 0
            &&& after_second[second_id] == 0
        }),
{
}

} // verus!
