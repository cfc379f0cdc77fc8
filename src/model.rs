//! A model of what the host does with the calls that a vault operation
//! returns: the native bank and the receipt-token issuers. An operation
//! commits only if every one of its calls succeeds; otherwise the host
//! rolls the whole operation back. The laws of bonding are stated here.
use vstd::prelude::*;
use crate::contract::{bond_msgs, probe_msgs, unbond_msgs};
use crate::msg::MsgView;

verus! {

/// Balances on the host, for every account.
pub struct Ledger {
    /// Native balance of an account in a denomination.
    pub native: spec_fn(Seq<char>, Seq<char>) -> int,
    /// Receipt balance of an owner at an issuer.
    pub receipt: spec_fn(Seq<char>, Seq<char>) -> int,
    /// Allowance that an owner gave a spender at an issuer.
    pub allowance: spec_fn(Seq<char>, Seq<char>, Seq<char>) -> int,
    /// The account allowed to mint at an issuer. Issuers are modelled
    /// without a supply cap: an issuer set up with a cap also refuses a
    /// mint that would pass it, which this model does not show.
    pub minter: spec_fn(Seq<char>) -> Seq<char>,
}

impl Ledger {
    /// No balance or allowance is negative.
    pub open spec fn valid(&self) -> bool {
        &&& forall|a: Seq<char>, b: Seq<char>| #[trigger] (self.native)(a, b) >= 0
        &&& forall|a: Seq<char>, b: Seq<char>| #[trigger] (self.receipt)(a, b) >= 0
        &&& forall|a: Seq<char>, b: Seq<char>, c: Seq<char>| #[trigger] (self.allowance)(a, b, c) >= 0
    }
}

/// `f` with the value at `(a, b)` moved by `delta`.
pub open spec fn bump2(f: spec_fn(Seq<char>, Seq<char>) -> int, a: Seq<char>, b: Seq<char>, delta: int) -> spec_fn(Seq<char>, Seq<char>) -> int {
    |x: Seq<char>, y: Seq<char>| if x == a && y == b { f(x, y) + delta } else { f(x, y) }
}

/// `f` with the value at `(a, b, c)` moved by `delta`.
pub open spec fn bump3(
    f: spec_fn(Seq<char>, Seq<char>, Seq<char>) -> int,
    a: Seq<char>,
    b: Seq<char>,
    c: Seq<char>,
    delta: int,
) -> spec_fn(Seq<char>, Seq<char>, Seq<char>) -> int {
    |x: Seq<char>, y: Seq<char>, z: Seq<char>| if x == a && y == b && z == c { f(x, y, z) + delta } else { f(x, y, z) }
}

/// What one call made by `sender` does, or `None` where it fails. A mint
/// fails only where `sender` is not the minter (issuers without a cap).
pub open spec fn apply_msg(l: Ledger, sender: Seq<char>, m: MsgView) -> Option<Ledger> {
    match m {
        MsgView::Mint { contract, recipient, amount } => if (l.minter)(contract) == sender {
            Some(Ledger { receipt: bump2(l.receipt, contract, recipient, amount as int), ..l })
        } else {
            None
        },
        MsgView::Burn { contract, amount } => if (l.receipt)(contract, sender) >= amount {
            Some(Ledger { receipt: bump2(l.receipt, contract, sender, -(amount as int)), ..l })
        } else {
            None
        },
        MsgView::BurnFrom { contract, owner, amount } => if (l.allowance)(contract, owner, sender) >= amount
            && (l.receipt)(contract, owner) >= amount {
            Some(
                Ledger {
                    receipt: bump2(l.receipt, contract, owner, -(amount as int)),
                    allowance: bump3(l.allowance, contract, owner, sender, -(amount as int)),
                    ..l
                },
            )
        } else {
            None
        },
        MsgView::BankSend { to, denom, amount } => if (l.native)(sender, denom) >= amount {
            Some(
                Ledger {
                    native: bump2(bump2(l.native, sender, denom, -(amount as int)), to, denom, amount as int),
                    ..l
                },
            )
        } else {
            None
        },
    }
}

/// What the calls do in order, or `None` where one fails.
pub open spec fn apply_msgs(l: Ledger, sender: Seq<char>, ms: Seq<MsgView>) -> Option<Ledger>
    decreases ms.len(),
{
    if ms.len() == 0 {
        Some(l)
    } else {
        match apply_msg(l, sender, ms[0]) {
            None => None,
            Some(l2) => apply_msgs(l2, sender, ms.drop_first()),
        }
    }
}

/// The ledger after an operation: the calls' effect where all succeed, the
/// ledger as it was where one fails.
pub open spec fn commit(l: Ledger, sender: Seq<char>, ms: Seq<MsgView>) -> Ledger {
    match apply_msgs(l, sender, ms) {
        Some(l2) => l2,
        None => l,
    }
}

/// The host moving `amount` of `denom` attached to a request from `from` to
/// the vault `to`, before the vault runs.
pub open spec fn attach(l: Ledger, from: Seq<char>, to: Seq<char>, denom: Seq<char>, amount: int) -> Ledger {
    Ledger { native: bump2(bump2(l.native, from, denom, -amount), to, denom, amount), ..l }
}

/// A registration commits only where the vault is the issuer's minter: the
/// probe calls fail against any other issuer, so nothing of the registration
/// remains; against the minter they leave every balance as it was.
pub proof fn law_probe_needs_minter(l: Ledger, issuer: Seq<char>, vault: Seq<char>)
    requires
        l.valid(),
    ensures
        apply_msgs(l, vault, probe_msgs(issuer, vault)) is Some <==> (l.minter)(issuer) == vault,
        apply_msgs(l, vault, probe_msgs(issuer, vault)) is Some ==> {
            let l2 = apply_msgs(l, vault, probe_msgs(issuer, vault))->Some_0;
            &&& forall|a: Seq<char>, b: Seq<char>| #[trigger] (l2.receipt)(a, b) == (l.receipt)(a, b)
            &&& l2.native == l.native
            &&& l2.allowance == l.allowance
            &&& l2.minter == l.minter
        },
{
    reveal_with_fuel(apply_msgs, 3);
    let ms = probe_msgs(issuer, vault);
    assert(ms.drop_first().drop_first() =~= Seq::<MsgView>::empty());
    assert(ms.drop_first()[0] == ms[1]);
    if (l.minter)(issuer) == vault {
        let l1 = apply_msg(l, vault, ms[0])->Some_0;
        assert((l1.receipt)(issuer, vault) == (l.receipt)(issuer, vault) + 1);
        let l2 = apply_msg(l1, vault, ms[1]);
        assert(l2 is Some);
        assert forall|a: Seq<char>, b: Seq<char>| #[trigger] (l2->Some_0.receipt)(a, b) == (l.receipt)(a, b) by {}
    }
}

/// A bond mints exactly the bonded amount to the sender at the issuer of
/// the denomination, where the vault is its minter, and changes no other
/// receipt balance.
pub proof fn law_bond_mints(l: Ledger, vault: Seq<char>, issuer: Seq<char>, sender: Seq<char>, amount: u128)
    requires
        (l.minter)(issuer) == vault,
    ensures
        apply_msgs(l, vault, bond_msgs(issuer, sender, amount)) is Some,
        (commit(l, vault, bond_msgs(issuer, sender, amount)).receipt)(issuer, sender) == (l.receipt)(issuer, sender) + amount,
        forall|a: Seq<char>, b: Seq<char>| !(a == issuer && b == sender) ==>
            (#[trigger] (commit(l, vault, bond_msgs(issuer, sender, amount)).receipt)(a, b)) == (l.receipt)(a, b),
        commit(l, vault, bond_msgs(issuer, sender, amount)).native == l.native,
        commit(l, vault, bond_msgs(issuer, sender, amount)).allowance == l.allowance,
{
    reveal_with_fuel(apply_msgs, 2);
    let ms = bond_msgs(issuer, sender, amount);
    assert(ms.drop_first() =~= Seq::<MsgView>::empty());
}

/// An unbond without enough allowance from the sender to the vault fails,
/// and the host then changes no balance.
pub proof fn law_unbond_needs_allowance(l: Ledger, vault: Seq<char>, issuer: Seq<char>, sender: Seq<char>, denom: Seq<char>, amount: u128)
    requires
        (l.allowance)(issuer, sender, vault) < amount,
    ensures
        apply_msgs(l, vault, unbond_msgs(issuer, sender, denom, amount)) is None,
        commit(l, vault, unbond_msgs(issuer, sender, denom, amount)) == l,
{
}

/// With enough allowance, receipt tokens and native funds held by the
/// vault, an unbond burns `amount` of the sender's receipt tokens and pays
/// the sender `amount` of the native denomination. Where the sender is the
/// vault itself, the payment goes from the vault to itself and its native
/// balance stays as it was.
pub proof fn law_unbond_redeems(l: Ledger, vault: Seq<char>, issuer: Seq<char>, sender: Seq<char>, denom: Seq<char>, amount: u128)
    requires
        (l.allowance)(issuer, sender, vault) >= amount,
        (l.receipt)(issuer, sender) >= amount,
        (l.native)(vault, denom) >= amount,
    ensures
        apply_msgs(l, vault, unbond_msgs(issuer, sender, denom, amount)) is Some,
        (commit(l, vault, unbond_msgs(issuer, sender, denom, amount)).receipt)(issuer, sender) == (l.receipt)(issuer, sender) - amount,
        sender != vault ==> (commit(l, vault, unbond_msgs(issuer, sender, denom, amount)).native)(sender, denom) == (l.native)(sender, denom) + amount,
        sender != vault ==> (commit(l, vault, unbond_msgs(issuer, sender, denom, amount)).native)(vault, denom) == (l.native)(vault, denom) - amount,
        sender == vault ==> (commit(l, vault, unbond_msgs(issuer, sender, denom, amount)).native)(sender, denom) == (l.native)(sender, denom),
{
    reveal_with_fuel(apply_msgs, 3);
    let ms = unbond_msgs(issuer, sender, denom, amount);
    assert(ms.drop_first().drop_first() =~= Seq::<MsgView>::empty());
    assert(ms.drop_first()[0] == ms[1]);
    let l1 = apply_msg(l, vault, ms[0])->Some_0;
    assert((l1.native)(vault, denom) == (l.native)(vault, denom));
    assert(apply_msg(l1, vault, ms[1]) is Some);
}

/// Bonding `amount` of `denom` and then unbonding it, with the allowance
/// granted, gives the sender back its native balance and leaves its
/// receipt balance as it was.
pub proof fn law_bond_unbond_round_trip(l: Ledger, vault: Seq<char>, issuer: Seq<char>, sender: Seq<char>, denom: Seq<char>, amount: u128)
    requires
        (l.minter)(issuer) == vault,
        (l.native)(sender, denom) >= amount,
        l.valid(),
        (l.allowance)(issuer, sender, vault) >= amount,
    ensures
        ({
            let bonded = commit(attach(l, sender, vault, denom, amount as int), vault, bond_msgs(issuer, sender, amount));
            let unbonded = commit(bonded, vault, unbond_msgs(issuer, sender, denom, amount));
            &&& apply_msgs(bonded, vault, unbond_msgs(issuer, sender, denom, amount)) is Some
            &&& (unbonded.native)(sender, denom) == (l.native)(sender, denom)
            &&& (unbonded.receipt)(issuer, sender) == (l.receipt)(issuer, sender)
        }),
{
    let a = attach(l, sender, vault, denom, amount as int);
    law_bond_mints(a, vault, issuer, sender, amount);
    let bonded = commit(a, vault, bond_msgs(issuer, sender, amount));
    assert((bonded.native)(vault, denom) >= amount) by {
        assert((a.native)(vault, denom) >= amount);
    }
    law_unbond_redeems(bonded, vault, issuer, sender, denom, amount);
}

} // verus!
