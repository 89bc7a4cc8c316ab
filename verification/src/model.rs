//! The mathematical model of the pallet's storage and what each call does to it.

use vstd::prelude::*;

use crate::dna::mixed_dna;
use crate::primitives::pallet_account_of;
use crate::types::{AccountId, Balance, DispatchError, Error, Event, Kitty, KittyId, Origin};

verus! {

/// The pallet's storage, as mathematical values.
#[verifier::ext_equal]
pub struct PalletState {
    /// The identifier the next kitty gets.
    pub next_kitty_id: KittyId,
    /// The kitties by identifier.
    pub kitties: Map<KittyId, Kitty>,
    /// The owner of each kitty.
    pub owners: Map<KittyId, AccountId>,
    /// The two parents of each bred kitty.
    pub parents: Map<KittyId, (KittyId, KittyId)>,
    /// The kitties that are for sale.
    pub on_sale: Set<KittyId>,
    /// The events deposited so far, oldest first.
    pub events: Seq<Event>,
    /// What creating, breeding or buying a kitty costs.
    pub kitty_price: Balance,
    /// The identifier from which the pallet's account is derived.
    pub pallet_id: [u8; 8],
}

/// A currency transfer that a call asks for.
#[derive(Clone, Copy, Debug, PartialEq, Eq, Structural)]
pub struct Payment {
    pub source: AccountId,
    pub dest: AccountId,
    pub value: Balance,
}

/// The storage after a call, and what the call returns.
pub type Outcome = (PalletState, Result<(), DispatchError>);

/// A call that failed: storage is left as it was.
pub open spec fn refused(pre: PalletState, e: DispatchError) -> Outcome {
    (pre, Err(e))
}

/// A call refused with an error of this pallet.
pub open spec fn refused_with(pre: PalletState, e: Error) -> Outcome {
    (pre, Err(DispatchError::Module(e)))
}

impl PalletState {
    /// Storage is consistent: exactly the stored kitties have owners, every stored kitty has
    /// an identifier below the next one, only stored kitties are for sale, and every recorded
    /// pair of parents names two distinct stored kitties older than their child.
    pub open spec fn wf(self) -> bool {
        &&& forall|id: KittyId| #[trigger]
            self.owners.contains_key(id) <==> self.kitties.contains_key(id)
        &&& forall|id: KittyId| #[trigger] self.kitties.contains_key(id) ==> id < self.next_kitty_id
        &&& forall|id: KittyId| #[trigger] self.on_sale.contains(id) ==> self.kitties.contains_key(id)
        &&& forall|id: KittyId| #[trigger]
            self.parents.contains_key(id) ==> {
                let (p1, p2) = self.parents[id];
                &&& self.kitties.contains_key(id)
                &&& p1 != p2
                &&& self.kitties.contains_key(p1)
                &&& self.kitties.contains_key(p2)
                &&& p1 < id
                &&& p2 < id
            }
    }

    /// The account into which creation and breeding fees are paid.
    pub open spec fn account_id(self) -> AccountId {
        pallet_account_of(self.pallet_id)
    }

    /// Storage with a new kitty `kitty` under the next identifier, owned by `who`, and the
    /// counter advanced.
    pub open spec fn with_new_kitty(self, who: AccountId, kitty: Kitty) -> PalletState {
        PalletState {
            next_kitty_id: (self.next_kitty_id + 1) as KittyId,
            kitties: self.kitties.insert(self.next_kitty_id, kitty),
            owners: self.owners.insert(self.next_kitty_id, who),
            ..self
        }
    }

    /// Storage with `event` deposited.
    pub open spec fn deposit(self, event: Event) -> PalletState {
        PalletState { events: self.events.push(event), ..self }
    }
}

/// What `create` does, given the genes drawn for the new kitty and the outcome of the
/// payment of the price into the pallet's account.
pub open spec fn create_outcome(
    pre: PalletState,
    origin: Origin,
    name: [u8; 8],
    dna: [u8; 16],
    payment: Result<(), DispatchError>,
) -> Outcome {
    match origin {
        Origin::Signed(who) => {
            if pre.next_kitty_id == u32::MAX {
                refused_with(pre, Error::InvalidKittyId)
            } else {
                match payment {
                    Err(e) => refused(pre, e),
                    Ok(_) => {
                        let kitty = Kitty { dna, name };
                        let post = pre.with_new_kitty(who, kitty).deposit(
                            Event::KittyCreated { who, kitty_id: pre.next_kitty_id, kitty },
                        );
                        (post, Ok(()))
                    },
                }
            }
        },
        _ => refused(pre, DispatchError::BadOrigin),
    }
}

/// The payment that `create` asks for: the price, from the signer into the pallet's
/// account, once the call has passed its checks.
pub open spec fn create_payment_of(pre: PalletState, origin: Origin) -> Option<Payment> {
    match origin {
        Origin::Signed(who) => {
            if pre.next_kitty_id == u32::MAX {
                None
            } else {
                Some(Payment { source: who, dest: pre.account_id(), value: pre.kitty_price })
            }
        },
        _ => None,
    }
}

/// The checks of `breed` before any payment, in the order in which they are made.
pub open spec fn breed_check(pre: PalletState, origin: Origin, kitty_id_1: KittyId, kitty_id_2: KittyId) -> Result<
    AccountId,
    DispatchError,
> {
    match origin {
        Origin::Signed(who) => {
            if kitty_id_1 == kitty_id_2 {
                Err(DispatchError::Module(Error::SameKittyId))
            } else if !pre.kitties.contains_key(kitty_id_1) || !pre.kitties.contains_key(kitty_id_2) {
                Err(DispatchError::Module(Error::InvalidKittyId))
            } else if pre.next_kitty_id == u32::MAX {
                Err(DispatchError::Module(Error::InvalidKittyId))
            } else {
                Ok(who)
            }
        },
        _ => Err(DispatchError::BadOrigin),
    }
}

/// What `breed` does, given the random selector of the parents' genes and the outcome of
/// the payment of the price into the pallet's account.
pub open spec fn breed_outcome(
    pre: PalletState,
    origin: Origin,
    kitty_id_1: KittyId,
    kitty_id_2: KittyId,
    name: [u8; 8],
    selector: [u8; 16],
    payment: Result<(), DispatchError>,
) -> Outcome {
    match breed_check(pre, origin, kitty_id_1, kitty_id_2) {
        Err(e) => refused(pre, e),
        Ok(who) => match payment {
            Err(e) => refused(pre, e),
            Ok(_) => {
                let kitty = Kitty {
                    dna: mixed_dna(pre.kitties[kitty_id_1].dna, pre.kitties[kitty_id_2].dna, selector),
                    name,
                };
                let id = pre.next_kitty_id;
                let grown = pre.with_new_kitty(who, kitty);
                let post = PalletState {
                    parents: pre.parents.insert(id, (kitty_id_1, kitty_id_2)),
                    ..grown
                }.deposit(Event::KittyBreed { who, kitty_id: id, kitty });
                (post, Ok(()))
            },
        },
    }
}

/// The payment that `breed` asks for: the price, from the signer into the pallet's
/// account, once the call has passed its checks.
pub open spec fn breed_payment_of(
    pre: PalletState,
    origin: Origin,
    kitty_id_1: KittyId,
    kitty_id_2: KittyId,
) -> Option<Payment> {
    match breed_check(pre, origin, kitty_id_1, kitty_id_2) {
        Ok(who) => Some(Payment { source: who, dest: pre.account_id(), value: pre.kitty_price }),
        Err(_) => None,
    }
}

/// What `transfer` does: the owner hands a kitty to `recipient`.
pub open spec fn transfer_outcome(
    pre: PalletState,
    origin: Origin,
    recipient: AccountId,
    kitty_id: KittyId,
) -> Outcome {
    match origin {
        Origin::Signed(who) => {
            if !pre.owners.contains_key(kitty_id) || pre.owners[kitty_id] != who {
                refused_with(pre, Error::NotOwner)
            } else {
                let post = PalletState {
                    owners: pre.owners.insert(kitty_id, recipient),
                    ..pre
                }.deposit(Event::KittyTransferred { who, recipient, kitty_id });
                (post, Ok(()))
            }
        },
        _ => refused(pre, DispatchError::BadOrigin),
    }
}

/// What `sale` does: the owner puts a kitty up for sale.
pub open spec fn sale_outcome(pre: PalletState, origin: Origin, kitty_id: KittyId) -> Outcome {
    match origin {
        Origin::Signed(who) => {
            if !pre.kitties.contains_key(kitty_id) {
                refused_with(pre, Error::InvalidKittyId)
            } else if pre.owners.get(kitty_id) != Some(who) {
                refused_with(pre, Error::NotOwner)
            } else if pre.on_sale.contains(kitty_id) {
                refused_with(pre, Error::AlreadyOnSale)
            } else {
                let post = PalletState {
                    on_sale: pre.on_sale.insert(kitty_id),
                    ..pre
                }.deposit(Event::KittyOnSale { who, kitty_id });
                (post, Ok(()))
            }
        },
        _ => refused(pre, DispatchError::BadOrigin),
    }
}

/// The checks of `buy` before any payment, in the order in which they are made; on success
/// the buyer and the current owner.
pub open spec fn buy_check(pre: PalletState, origin: Origin, kitty_id: KittyId) -> Result<
    (AccountId, AccountId),
    DispatchError,
> {
    match origin {
        Origin::Signed(who) => {
            if !pre.kitties.contains_key(kitty_id) {
                Err(DispatchError::Module(Error::InvalidKittyId))
            } else if !pre.owners.contains_key(kitty_id) {
                Err(DispatchError::Module(Error::NoOwner))
            } else if pre.owners[kitty_id] == who {
                Err(DispatchError::Module(Error::AlreadyOwned))
            } else if !pre.on_sale.contains(kitty_id) {
                Err(DispatchError::Module(Error::NotOnSale))
            } else {
                Ok((who, pre.owners[kitty_id]))
            }
        },
        _ => Err(DispatchError::BadOrigin),
    }
}

/// What `buy` does, given the outcome of the payment of the price to the seller.
pub open spec fn buy_outcome(
    pre: PalletState,
    origin: Origin,
    kitty_id: KittyId,
    payment: Result<(), DispatchError>,
) -> Outcome {
    match buy_check(pre, origin, kitty_id) {
        Err(e) => refused(pre, e),
        Ok((who, _seller)) => match payment {
            Err(e) => refused(pre, e),
            Ok(_) => {
                let post = PalletState {
                    owners: pre.owners.insert(kitty_id, who),
                    on_sale: pre.on_sale.remove(kitty_id),
                    ..pre
                }.deposit(Event::KittyBought { who, kitty_id });
                (post, Ok(()))
            },
        },
    }
}

/// The payment that `buy` asks for: the price, from the buyer to the seller, once the call
/// has passed its checks.
pub open spec fn buy_payment_of(pre: PalletState, origin: Origin, kitty_id: KittyId) -> Option<Payment> {
    match buy_check(pre, origin, kitty_id) {
        Ok((who, seller)) => Some(Payment { source: who, dest: seller, value: pre.kitty_price }),
        Err(_) => None,
    }
}

} // verus!
