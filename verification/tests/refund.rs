//! The host-boundary gate: refund purse identity with empty rights, and
//! rights checks on gated operations.

use mint_token::balance::Balance;
use mint_token::host::Host;
use mint_token::mint::Error;
use mint_token::rights::AccessRights;

#[test]
fn refund_purse_rights() {
    let mut host = Host::new(Balance::from_u64(150));
    let p1 = host.create_purse();
    let p2 = host.create_purse();

    // get_refund_purse should return None before setting it
    assert!(host.get_refund_purse().is_none());

    // it should return Some(x) after calling set_refund_purse(x)
    host.set_refund_purse(&p1);
    let refund_purse = host.get_refund_purse().expect("refund purse not found.");
    assert_eq!(refund_purse.addr(), p1.addr());

    // the returned purse should not have any access rights
    assert!(!refund_purse.is_addable());
    assert!(!refund_purse.is_writeable());
    assert!(!refund_purse.is_readable());

    // get_refund_purse should return the second purse after setting again
    host.set_refund_purse(&p2);
    let refund_purse = host.get_refund_purse().expect("refund purse not found.");
    assert_eq!(refund_purse.addr(), p2.addr());
}

#[test]
fn narrowing_never_widens() {
    let mut host = Host::new(Balance::from_u64(150));
    let p = host.create_purse();
    let add_only = p.narrow(AccessRights { read: false, write: false, add: true });
    assert!(add_only.is_addable());
    assert!(!add_only.is_readable());
    assert!(!add_only.is_writeable());
    assert_eq!(add_only.addr(), p.addr());

    // a right dropped once cannot be recovered by a later derivation
    let widened = add_only.narrow(AccessRights { read: true, write: true, add: true });
    assert!(widened.is_addable());
    assert!(!widened.is_readable());
    assert!(!widened.is_writeable());

    let none = p.narrow(AccessRights { read: false, write: false, add: false });
    assert!(!none.is_addable() && !none.is_readable() && !none.is_writeable());
}

#[test]
fn gate_transfer_checks_rights() {
    let mut host = Host::new(Balance::from_u64(150));
    let genesis = host.genesis_purse();
    let p2 = host.create_purse();
    let dep = p2.narrow(AccessRights { read: false, write: false, add: true });

    // a source without write rights looks exactly like a missing purse
    let weak_src = genesis.narrow(AccessRights { read: true, write: false, add: false });
    assert_eq!(
        Err(Error::SourceNotFound),
        host.transfer(&weak_src, &dep, Balance::from_u64(10))
    );

    // a destination without add rights looks exactly like a missing purse
    let no_add = p2.narrow(AccessRights { read: true, write: false, add: false });
    assert_eq!(
        Err(Error::DestNotFound),
        host.transfer(&genesis, &no_add, Balance::from_u64(10))
    );

    // nothing moved so far
    assert_eq!(Balance::from_u64(150), host.balance(&genesis).unwrap());
    assert_eq!(Balance::from_u64(0), host.balance(&p2).unwrap());

    // with the required rights the transfer commits
    assert_eq!(Ok(()), host.transfer(&genesis, &dep, Balance::from_u64(75)));
    assert_eq!(Balance::from_u64(75), host.balance(&genesis).unwrap());
    assert_eq!(Balance::from_u64(75), host.balance(&p2).unwrap());
}

#[test]
fn balance_needs_read_right() {
    let mut host = Host::new(Balance::from_u64(150));
    let p = host.create_purse();
    let add_only = p.narrow(AccessRights { read: false, write: false, add: true });
    assert!(host.balance(&add_only).is_none());
    assert!(host.balance(&p).is_some());
}

#[test]
fn gate_transfer_insufficient_funds_precedes_missing_dest() {
    // the mint checks funds before resolving the destination
    let mut host = Host::new(Balance::from_u64(150));
    let genesis = host.genesis_purse();
    let p2 = host.create_purse();
    assert_eq!(
        Err(Error::InsufficientFunds),
        host.transfer(&genesis, &p2, Balance::from_u64(1000))
    );
    assert_eq!(Balance::from_u64(150), host.balance(&genesis).unwrap());
}
