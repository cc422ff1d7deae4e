//! The host-boundary gate over the mint: every identifier crossing to
//! contract code is tagged with access rights, and every contract-facing
//! operation checks the required bit before delegating. A reference lacking
//! a required right is rejected exactly as an unknown purse would be, so the
//! error never reveals whether the purse exists or what it holds.

use vstd::prelude::*;

use crate::balance::{Balance, balance_limit};
use crate::mint::{DepOnlyId, Error, Mint, PurseId, transfer_effect, transfer_ok, transfer_result};
use crate::rights::{AccessRights, PurseRef};

verus! {

/// The outcome of a gated transfer: rights checks first (surfaced as the
/// matching not-found error), then the mint's own checks in their order.
pub open spec fn gate_transfer_result(
    s: Seq<nat>,
    source_rights: AccessRights,
    dest_rights: AccessRights,
    src: int,
    dst: int,
    amount: nat,
) -> Result<(), Error> {
    if !(source_rights.read && source_rights.write) {
        Err(Error::SourceNotFound)
    } else if !dest_rights.add {
        Err(Error::DestNotFound)
    } else {
        transfer_result(s, src, dst, amount)
    }
}

/// The access-rights layer wrapped around one mint, together with the host
/// state contracts rely on: the purse currently named for refunds.
pub struct Host {
    mint: Mint,
    refund: Option<usize>,
}

impl Host {
    /// The purse balances behind this rights layer.
    pub closed spec fn balances(&self) -> Seq<nat> {
        self.mint@
    }

    /// The address of the purse currently set for refunds, if any.
    pub closed spec fn refund_spec(&self) -> Option<int> {
        match self.refund {
            Some(a) => Some(a as int),
            None => None,
        }
    }

    /// Bootstrap: a ledger holding one distinguished genesis purse with a
    /// host-specified starting balance, and no refund purse named yet.
    pub fn new(genesis_balance: Balance) -> (h: Host)
        ensures
            h.balances() =~= seq![genesis_balance.value()],
            h.refund_spec() is None,
    {
        let mut mint = Mint::new();
        let _ = mint.mint(genesis_balance);
        Host { mint, refund: None }
    }

    /// A full-rights reference to the genesis purse.
    pub fn genesis_purse(&self) -> (r: PurseRef)
        requires
            self.balances().len() > 0,
        ensures
            r.addr_spec() == 0,
            r.rights_spec().is_full(),
    {
        PurseRef::make(0, AccessRights::full())
    }

    /// Create an empty purse and hand back a full-rights reference to it.
    pub fn create_purse(&mut self) -> (r: PurseRef)
        ensures
            final(self).balances() =~= old(self).balances().push(0),
            final(self).refund_spec() == old(self).refund_spec(),
            r.addr_spec() == old(self).balances().len(),
            r.rights_spec().is_full(),
    {
        let id = self.mint.create();
        PurseRef::make(id.raw(), AccessRights::full())
    }

    /// The balance behind `p`, for a reference carrying the READ right;
    /// `None` both for a missing right and for an unknown purse, so the
    /// answer never leaks which of the two it was.
    pub fn balance(&self, p: &PurseRef) -> (r: Option<Balance>)
        ensures
            r is Some <==> (p.rights_spec().read && p.addr_spec() < self.balances().len()),
            r matches Some(b) ==> b.value() == self.balances()[p.addr_spec()],
    {
        if !p.is_readable() {
            return None;
        }
        self.mint.balance(PurseId::from_raw(p.addr()))
    }

    /// Gated transfer: the source reference must carry READ and WRITE, the
    /// destination reference only ADD. A missing right is surfaced as the
    /// matching not-found error before the mint is consulted; afterwards the
    /// mint's checks and atomicity apply unchanged.
    pub fn transfer(&mut self, source: &PurseRef, dest: &PurseRef, amount: Balance) -> (r: Result<
        (),
        Error,
    >)
        requires
            (source.rights_spec().read && source.rights_spec().write && dest.rights_spec().add
                && transfer_ok(
                old(self).balances(),
                source.addr_spec(),
                dest.addr_spec(),
                amount.value(),
            ) && source.addr_spec() != dest.addr_spec()) ==> old(self).balances()[dest.addr_spec()]
                + amount.value() < balance_limit(),
        ensures
            r == gate_transfer_result(
                old(self).balances(),
                source.rights_spec(),
                dest.rights_spec(),
                source.addr_spec(),
                dest.addr_spec(),
                amount.value(),
            ),
            r is Ok ==> final(self).balances() =~= transfer_effect(
                old(self).balances(),
                source.addr_spec(),
                dest.addr_spec(),
                amount.value(),
            ),
            r is Err ==> final(self).balances() =~= old(self).balances(),
            final(self).refund_spec() == old(self).refund_spec(),
    {
        if !(source.is_readable() && source.is_writeable()) {
            return Err(Error::SourceNotFound);
        }
        if !dest.is_addable() {
            return Err(Error::DestNotFound);
        }
        let src_id = PurseId::from_raw(source.addr());
        let dst_id = DepOnlyId::from_raw(dest.addr());
        self.mint.transfer(src_id, dst_id, amount)
    }

    /// Record the identity of `p` as the refund purse. Naming a refund
    /// destination is pure identity storage, so it demands no right at all.
    pub fn set_refund_purse(&mut self, p: &PurseRef)
        ensures
            final(self).refund_spec() == Some(p.addr_spec()),
            final(self).balances() =~= old(self).balances(),
    {
        self.refund = Some(p.addr());
    }

    /// The refund purse set earlier, if any, echoed with the empty rights
    /// set whatever rights the caller originally held on it: the returned
    /// reference is an identity and permits no operation.
    pub fn get_refund_purse(&self) -> (r: Option<PurseRef>)
        ensures
            r is Some <==> self.refund_spec() is Some,
            r matches Some(p) ==> {
                &&& Some(p.addr_spec()) == self.refund_spec()
                &&& p.rights_spec().is_empty()
            },
    {
        match self.refund {
            None => None,
            Some(a) => Some(PurseRef::make(a, AccessRights::none())),
        }
    }
}

} // verus!
