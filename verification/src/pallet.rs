//! The pallet: its storage and its calls.

use std::collections::HashMap;
use vstd::prelude::*;

use crate::dna::mix_dna;
use crate::model::{
    breed_check, breed_outcome, breed_payment_of, buy_check, buy_outcome, buy_payment_of,
    create_outcome, create_payment_of, sale_outcome, transfer_outcome, PalletState, Payment,
};
use crate::primitives::{blake2_128, blake2_128_of, encode_payload, pallet_account, payload_encoding};
use crate::types::{
    ensure_signed, AccountId, Balance, BlockNumber, DispatchError, Error, Event, Kitty, KittyId,
    Origin,
};

verus! {

/// What the runtime supplies to the pallet: its currency, its source of randomness and the
/// index of the extrinsic being executed.
pub trait Config {
    /// Whether this runtime keeps `transfers`, the log of the transfers that its currency was
    /// asked to make. A runtime that says nothing keeps no such log.
    open spec fn keeps_transfer_log() -> bool {
        false
    }

    /// The transfers that the currency has been asked to make, oldest first, each with the
    /// outcome it had; meaningful only where `keeps_transfer_log` holds.
    open spec fn transfers(&self) -> Seq<(Payment, Result<(), DispatchError>)> {
        Seq::empty()
    }

    /// Moves `value` from `source` to `dest`, keeping `source` alive. In a runtime that keeps
    /// the log, the request and its outcome are appended to `transfers`. A refusal is never
    /// reported as an error of this pallet.
    fn currency_transfer(&mut self, source: AccountId, dest: AccountId, value: Balance) -> (res:
        Result<(), DispatchError>)
        ensures
            Self::keeps_transfer_log() ==> final(self).transfers() == old(self).transfers().push(
                (Payment { source, dest, value }, res),
            ),
            res matches Err(e) ==> !(e is Module),
    ;

    /// A random seed and the block it was drawn for.
    fn random_seed(&self) -> ([u8; 32], BlockNumber);

    /// The index of the extrinsic being executed, if any.
    fn extrinsic_index(&self) -> Option<u32>;
}

/// What random genes are drawn from: the runtime's random seed, the block it belongs to and
/// the index of the current extrinsic.
#[derive(Clone, Copy, Debug, PartialEq, Eq)]
pub struct Entropy {
    pub seed: [u8; 32],
    pub block: BlockNumber,
    pub extrinsic_index: Option<u32>,
}

/// The random value drawn for `sender` from `entropy`: the 128-bit BLAKE2 hash of the
/// encoding of the seed, its block, the sender and the extrinsic index.
pub open spec fn random_value_of(entropy: Entropy, sender: AccountId) -> Seq<u8> {
    blake2_128_of(
        payload_encoding(entropy.seed@, entropy.block, sender, entropy.extrinsic_index),
    )
}

/// The kitties pallet: its storage and its configuration.
#[derive(Clone, Debug, PartialEq, Eq)]
pub struct Pallet {
    next_kitty_id: KittyId,
    kitties: HashMap<KittyId, Kitty>,
    kitty_owner: HashMap<KittyId, AccountId>,
    kitty_parents: HashMap<KittyId, (KittyId, KittyId)>,
    kitty_on_sale: HashMap<KittyId, ()>,
    events: Vec<Event>,
    kitty_price: Balance,
    pallet_id: [u8; 8],
}

impl View for Pallet {
    type V = PalletState;

    closed spec fn view(&self) -> PalletState {
        PalletState {
            next_kitty_id: self.next_kitty_id,
            kitties: self.kitties@,
            owners: self.kitty_owner@,
            parents: self.kitty_parents@,
            on_sale: self.kitty_on_sale@.dom(),
            events: self.events@,
            kitty_price: self.kitty_price,
            pallet_id: self.pallet_id,
        }
    }
}

impl Pallet {
    /// A pallet with empty storage, charging `kitty_price` per kitty and holding its fees in
    /// the account of `pallet_id`.
    pub fn new(kitty_price: Balance, pallet_id: [u8; 8]) -> (pallet: Pallet)
        ensures
            pallet@ == (PalletState {
                next_kitty_id: 0,
                kitties: Map::empty(),
                owners: Map::empty(),
                parents: Map::empty(),
                on_sale: Set::empty(),
                events: Seq::empty(),
                kitty_price,
                pallet_id,
            }),
            pallet@.wf(),
    {
        Pallet {
            next_kitty_id: 0,
            kitties: HashMap::new(),
            kitty_owner: HashMap::new(),
            kitty_parents: HashMap::new(),
            kitty_on_sale: HashMap::new(),
            events: Vec::new(),
            kitty_price,
            pallet_id,
        }
    }

    /// The identifier the next kitty gets.
    pub fn next_kitty_id(&self) -> (id: KittyId)
        ensures
            id == self@.next_kitty_id,
    {
        self.next_kitty_id
    }

    /// Overwrites the identifier the next kitty gets.
    pub fn set_next_kitty_id(&mut self, id: KittyId)
        ensures
            final(self)@ == (PalletState { next_kitty_id: id, ..old(self)@ }),
            old(self)@.wf() && old(self)@.next_kitty_id <= id ==> final(self)@.wf(),
    {
        self.next_kitty_id = id;
    }

    /// The kitty stored under `kitty_id`.
    pub fn kitties(&self, kitty_id: KittyId) -> (kitty: Option<Kitty>)
        ensures
            kitty == self@.kitties.get(kitty_id),
    {
        match self.kitties.get(&kitty_id) {
            Some(k) => Some(*k),
            None => None,
        }
    }

    /// The owner of the kitty `kitty_id`.
    pub fn kitty_owner(&self, kitty_id: KittyId) -> (owner: Option<AccountId>)
        ensures
            owner == self@.owners.get(kitty_id),
    {
        match self.kitty_owner.get(&kitty_id) {
            Some(o) => Some(*o),
            None => None,
        }
    }

    /// The parents of the kitty `kitty_id`, if it was bred.
    pub fn kitty_parents(&self, kitty_id: KittyId) -> (parents: Option<(KittyId, KittyId)>)
        ensures
            parents == self@.parents.get(kitty_id),
    {
        match self.kitty_parents.get(&kitty_id) {
            Some(p) => Some(*p),
            None => None,
        }
    }

    /// `Some(())` when the kitty `kitty_id` is for sale.
    pub fn kitty_on_sale(&self, kitty_id: KittyId) -> (on_sale: Option<()>)
        ensures
            on_sale == (if self@.on_sale.contains(kitty_id) {
                Some(())
            } else {
                None::<()>
            }),
    {
        if self.kitty_on_sale.contains_key(&kitty_id) {
            Some(())
        } else {
            None
        }
    }

    /// The events deposited so far, oldest first.
    pub fn events(&self) -> (events: &Vec<Event>)
        ensures
            events@ == self@.events,
    {
        &self.events
    }

    /// What creating, breeding or buying a kitty costs.
    pub fn kitty_price(&self) -> (price: Balance)
        ensures
            price == self@.kitty_price,
    {
        self.kitty_price
    }

    /// The account that collects the fees of creation and breeding.
    pub fn get_account_id(&self) -> (account: AccountId)
        ensures
            account == self@.account_id(),
    {
        pallet_account(self.pallet_id)
    }

    /// Hands out the next kitty identifier and advances the counter; fails with
    /// `InvalidKittyId` when the identifiers are exhausted.
    pub fn get_next_id(&mut self) -> (res: Result<KittyId, DispatchError>)
        ensures
            old(self)@.next_kitty_id < u32::MAX ==> res == Ok::<KittyId, DispatchError>(
                old(self)@.next_kitty_id,
            ) && final(self)@ == (PalletState {
                next_kitty_id: (old(self)@.next_kitty_id + 1) as KittyId,
                ..old(self)@
            }),
            old(self)@.next_kitty_id == u32::MAX ==> res == Err::<KittyId, DispatchError>(
                DispatchError::Module(Error::InvalidKittyId),
            ) && final(self)@ == old(self)@,
    {
        match self.next_kitty_id.checked_add(1) {
            Some(next) => {
                let current = self.next_kitty_id;
                self.next_kitty_id = next;
                Ok(current)
            },
            None => Err(DispatchError::Module(Error::InvalidKittyId)),
        }
    }

    /// The random value for `sender`: the 128-bit BLAKE2 hash of the SCALE encoding of
    /// `((seed, block), sender, extrinsic_index)`.
    pub fn random_value(entropy: &Entropy, sender: AccountId) -> (value: [u8; 16])
        ensures
            value@ == random_value_of(*entropy, sender),
    {
        let payload = encode_payload(entropy.seed, entropy.block, sender, entropy.extrinsic_index);
        blake2_128(payload.as_slice())
    }

    /// The payment that `create` asks for, if the call passes its checks.
    pub fn create_payment(&self, origin: Origin) -> (payment: Option<Payment>)
        ensures
            payment == create_payment_of(self@, origin),
    {
        match origin {
            Origin::Signed(who) => {
                if self.next_kitty_id == u32::MAX {
                    None
                } else {
                    Some(Payment { source: who, dest: self.get_account_id(), value: self.kitty_price })
                }
            },
            _ => None,
        }
    }

    /// Creates a kitty named `name` with genes `dna` for the signer, once the payment of the
    /// price into the pallet's account has had the outcome `payment`.
    pub fn do_create(
        &mut self,
        origin: Origin,
        name: [u8; 8],
        dna: [u8; 16],
        payment: Result<(), DispatchError>,
    ) -> (res: Result<(), DispatchError>)
        ensures
            (final(self)@, res) == create_outcome(old(self)@, origin, name, dna, payment),
    {
        let who = match ensure_signed(origin) {
            Ok(who) => who,
            Err(e) => return Err(e),
        };
        if self.next_kitty_id == u32::MAX {
            return Err(DispatchError::Module(Error::InvalidKittyId));
        }
        if let Err(e) = payment {
            return Err(e);
        }
        let kitty_id = match self.get_next_id() {
            Ok(id) => id,
            Err(e) => return Err(e),
        };
        let kitty = Kitty { dna, name };
        self.kitties.insert(kitty_id, kitty);
        self.kitty_owner.insert(kitty_id, who);
        self.deposit_event(Event::KittyCreated { who, kitty_id, kitty });
        Ok(())
    }

    /// Creates a kitty named `name` for the signer: its genes are drawn from the runtime's
    /// randomness, and the signer pays the price into the pallet's account.
    pub fn create<C: Config>(&mut self, config: &mut C, origin: Origin, name: [u8; 8]) -> (res:
        Result<(), DispatchError>)
        ensures
            exists|dna: [u8; 16], payment: Result<(), DispatchError>|
                (final(self)@, res) == #[trigger] create_outcome(
                    old(self)@,
                    origin,
                    name,
                    dna,
                    payment,
                ),
            create_payment_of(old(self)@, origin) is None ==> forall|
                dna: [u8; 16],
                payment: Result<(), DispatchError>,
            |
                #[trigger] create_outcome(old(self)@, origin, name, dna, payment) == (
                    final(self)@,
                    res,
                ),
            create_payment_of(old(self)@, origin) matches Some(p) ==> exists|
                entropy: Entropy,
                dna: [u8; 16],
                paid: Result<(), DispatchError>,
            |
                #![trigger random_value_of(entropy, p.source), create_outcome(old(self)@, origin, name, dna, paid)]
                dna@ == random_value_of(entropy, p.source) && (final(self)@, res) == create_outcome(
                    old(self)@,
                    origin,
                    name,
                    dna,
                    paid,
                ) && (C::keeps_transfer_log() ==> final(config).transfers()
                    == old(config).transfers().push((p, paid))),
            C::keeps_transfer_log() && create_payment_of(old(self)@, origin) is None
                ==> final(config).transfers() == old(config).transfers(),
    {
        match self.create_payment(origin) {
            None => self.do_create(origin, name, [0u8; 16], Ok(())),
            Some(p) => {
                let entropy = draw_entropy(config);
                let dna = Self::random_value(&entropy, p.source);
                let paid = config.currency_transfer(p.source, p.dest, p.value);
                self.do_create(origin, name, dna, paid)
            },
        }
    }

    /// The signer, if `breed` passes its checks before the payment.
    pub fn check_breed(&self, origin: Origin, kitty_id_1: KittyId, kitty_id_2: KittyId) -> (res:
        Result<AccountId, DispatchError>)
        ensures
            res == breed_check(self@, origin, kitty_id_1, kitty_id_2),
    {
        let who = match ensure_signed(origin) {
            Ok(who) => who,
            Err(e) => return Err(e),
        };
        if kitty_id_1 == kitty_id_2 {
            return Err(DispatchError::Module(Error::SameKittyId));
        }
        if !self.kitties.contains_key(&kitty_id_1) {
            return Err(DispatchError::Module(Error::InvalidKittyId));
        }
        if !self.kitties.contains_key(&kitty_id_2) {
            return Err(DispatchError::Module(Error::InvalidKittyId));
        }
        if self.next_kitty_id == u32::MAX {
            return Err(DispatchError::Module(Error::InvalidKittyId));
        }
        Ok(who)
    }

    /// The payment that `breed` asks for, if the call passes its checks.
    pub fn breed_payment(&self, origin: Origin, kitty_id_1: KittyId, kitty_id_2: KittyId) -> (payment:
        Option<Payment>)
        ensures
            payment == breed_payment_of(self@, origin, kitty_id_1, kitty_id_2),
    {
        match self.check_breed(origin, kitty_id_1, kitty_id_2) {
            Ok(who) => Some(Payment { source: who, dest: self.get_account_id(), value: self.kitty_price }),
            Err(_) => None,
        }
    }

    /// Breeds a kitty named `name` for the signer from the kitties `kitty_id_1` and
    /// `kitty_id_2`, taking each gene bit from the first parent where `selector` has it set
    /// and from the second elsewhere, once the payment of the price into the pallet's
    /// account has had the outcome `payment`.
    pub fn do_breed(
        &mut self,
        origin: Origin,
        kitty_id_1: KittyId,
        kitty_id_2: KittyId,
        name: [u8; 8],
        selector: [u8; 16],
        payment: Result<(), DispatchError>,
    ) -> (res: Result<(), DispatchError>)
        ensures
            (final(self)@, res) == breed_outcome(
                old(self)@,
                origin,
                kitty_id_1,
                kitty_id_2,
                name,
                selector,
                payment,
            ),
    {
        let who = match self.check_breed(origin, kitty_id_1, kitty_id_2) {
            Ok(who) => who,
            Err(e) => return Err(e),
        };
        let kitty_1 = match self.kitties(kitty_id_1) {
            Some(k) => k,
            None => return Err(DispatchError::Module(Error::InvalidKittyId)),
        };
        let kitty_2 = match self.kitties(kitty_id_2) {
            Some(k) => k,
            None => return Err(DispatchError::Module(Error::InvalidKittyId)),
        };
        if let Err(e) = payment {
            return Err(e);
        }
        let kitty_id = match self.get_next_id() {
            Ok(id) => id,
            Err(e) => return Err(e),
        };
        let dna = mix_dna(&kitty_1.dna, &kitty_2.dna, &selector);
        let kitty = Kitty { dna, name };
        self.kitties.insert(kitty_id, kitty);
        self.kitty_owner.insert(kitty_id, who);
        self.kitty_parents.insert(kitty_id, (kitty_id_1, kitty_id_2));
        self.deposit_event(Event::KittyBreed { who, kitty_id, kitty });
        Ok(())
    }

    /// Breeds a kitty named `name` for the signer from the kitties `kitty_id_1` and
    /// `kitty_id_2`: the selector of the parents' genes is drawn from the runtime's
    /// randomness, and the signer pays the price into the pallet's account.
    pub fn breed<C: Config>(
        &mut self,
        config: &mut C,
        origin: Origin,
        kitty_id_1: KittyId,
        kitty_id_2: KittyId,
        name: [u8; 8],
    ) -> (res: Result<(), DispatchError>)
        ensures
            exists|selector: [u8; 16], payment: Result<(), DispatchError>|
                (final(self)@, res) == #[trigger] breed_outcome(
                    old(self)@,
                    origin,
                    kitty_id_1,
                    kitty_id_2,
                    name,
                    selector,
                    payment,
                ),
            breed_payment_of(old(self)@, origin, kitty_id_1, kitty_id_2) is None ==> forall|
                selector: [u8; 16],
                payment: Result<(), DispatchError>,
            |
                #[trigger] breed_outcome(
                    old(self)@,
                    origin,
                    kitty_id_1,
                    kitty_id_2,
                    name,
                    selector,
                    payment,
                ) == (final(self)@, res),
            breed_payment_of(old(self)@, origin, kitty_id_1, kitty_id_2) matches Some(p) ==> exists|
                entropy: Entropy,
                selector: [u8; 16],
                paid: Result<(), DispatchError>,
            |
                #![trigger random_value_of(entropy, p.source), breed_outcome(old(self)@, origin, kitty_id_1, kitty_id_2, name, selector, paid)]
                selector@ == random_value_of(entropy, p.source) && (final(self)@, res)
                    == breed_outcome(
                    old(self)@,
                    origin,
                    kitty_id_1,
                    kitty_id_2,
                    name,
                    selector,
                    paid,
                ) && (C::keeps_transfer_log() ==> final(config).transfers()
                    == old(config).transfers().push((p, paid))),
            C::keeps_transfer_log() && breed_payment_of(old(self)@, origin, kitty_id_1, kitty_id_2)
                is None ==> final(config).transfers() == old(config).transfers(),
    {
        match self.breed_payment(origin, kitty_id_1, kitty_id_2) {
            None => self.do_breed(origin, kitty_id_1, kitty_id_2, name, [0u8; 16], Ok(())),
            Some(p) => {
                let entropy = draw_entropy(config);
                let selector = Self::random_value(&entropy, p.source);
                let paid = config.currency_transfer(p.source, p.dest, p.value);
                self.do_breed(origin, kitty_id_1, kitty_id_2, name, selector, paid)
            },
        }
    }

    /// The owner of the kitty `kitty_id` hands it to `recipient`.
    pub fn transfer(&mut self, origin: Origin, recipient: AccountId, kitty_id: KittyId) -> (res:
        Result<(), DispatchError>)
        ensures
            (final(self)@, res) == transfer_outcome(old(self)@, origin, recipient, kitty_id),
    {
        let who = match ensure_signed(origin) {
            Ok(who) => who,
            Err(e) => return Err(e),
        };
        if !self.kitty_owner.contains_key(&kitty_id) {
            return Err(DispatchError::Module(Error::NotOwner));
        }
        let owner = match self.kitty_owner(kitty_id) {
            Some(owner) => owner,
            None => return Err(DispatchError::Module(Error::InvalidKittyId)),
        };
        if owner != who {
            return Err(DispatchError::Module(Error::NotOwner));
        }
        self.kitty_owner.insert(kitty_id, recipient);
        self.deposit_event(Event::KittyTransferred { who, recipient, kitty_id });
        Ok(())
    }

    /// The owner of the kitty `kitty_id` puts it up for sale.
    pub fn sale(&mut self, origin: Origin, kitty_id: KittyId) -> (res: Result<(), DispatchError>)
        ensures
            (final(self)@, res) == sale_outcome(old(self)@, origin, kitty_id),
    {
        let who = match ensure_signed(origin) {
            Ok(who) => who,
            Err(e) => return Err(e),
        };
        if self.kitties(kitty_id).is_none() {
            return Err(DispatchError::Module(Error::InvalidKittyId));
        }
        let owned_by_signer = match self.kitty_owner(kitty_id) {
            Some(owner) => owner == who,
            None => false,
        };
        if !owned_by_signer {
            return Err(DispatchError::Module(Error::NotOwner));
        }
        if self.kitty_on_sale(kitty_id).is_some() {
            return Err(DispatchError::Module(Error::AlreadyOnSale));
        }
        self.kitty_on_sale.insert(kitty_id, ());
        self.deposit_event(Event::KittyOnSale { who, kitty_id });
        Ok(())
    }

    /// The buyer and the seller, if `buy` passes its checks before the payment.
    pub fn check_buy(&self, origin: Origin, kitty_id: KittyId) -> (res: Result<
        (AccountId, AccountId),
        DispatchError,
    >)
        ensures
            res == buy_check(self@, origin, kitty_id),
    {
        let who = match ensure_signed(origin) {
            Ok(who) => who,
            Err(e) => return Err(e),
        };
        if self.kitties(kitty_id).is_none() {
            return Err(DispatchError::Module(Error::InvalidKittyId));
        }
        let owner = match self.kitty_owner(kitty_id) {
            Some(owner) => owner,
            None => return Err(DispatchError::Module(Error::NoOwner)),
        };
        if owner == who {
            return Err(DispatchError::Module(Error::AlreadyOwned));
        }
        if self.kitty_on_sale(kitty_id).is_none() {
            return Err(DispatchError::Module(Error::NotOnSale));
        }
        Ok((who, owner))
    }

    /// The payment that `buy` asks for, if the call passes its checks.
    pub fn buy_payment(&self, origin: Origin, kitty_id: KittyId) -> (payment: Option<Payment>)
        ensures
            payment == buy_payment_of(self@, origin, kitty_id),
    {
        match self.check_buy(origin, kitty_id) {
            Ok((who, seller)) => Some(Payment { source: who, dest: seller, value: self.kitty_price }),
            Err(_) => None,
        }
    }

    /// The signer buys the kitty `kitty_id`, which is for sale, from its owner, once the
    /// payment of the price to the owner has had the outcome `payment`.
    pub fn do_buy(&mut self, origin: Origin, kitty_id: KittyId, payment: Result<(), DispatchError>) -> (res:
        Result<(), DispatchError>)
        ensures
            (final(self)@, res) == buy_outcome(old(self)@, origin, kitty_id, payment),
    {
        let (who, _seller) = match self.check_buy(origin, kitty_id) {
            Ok(parties) => parties,
            Err(e) => return Err(e),
        };
        if let Err(e) = payment {
            return Err(e);
        }
        self.kitty_owner.insert(kitty_id, who);
        self.kitty_on_sale.remove(&kitty_id);
        self.deposit_event(Event::KittyBought { who, kitty_id });
        Ok(())
    }

    /// The signer buys the kitty `kitty_id`, which is for sale, from its owner, paying the
    /// price to the owner.
    pub fn buy<C: Config>(&mut self, config: &mut C, origin: Origin, kitty_id: KittyId) -> (res:
        Result<(), DispatchError>)
        ensures
            exists|payment: Result<(), DispatchError>|
                (final(self)@, res) == #[trigger] buy_outcome(old(self)@, origin, kitty_id, payment),
            buy_payment_of(old(self)@, origin, kitty_id) is None ==> forall|
                payment: Result<(), DispatchError>,
            | #[trigger] buy_outcome(old(self)@, origin, kitty_id, payment) == (final(self)@, res),
            buy_payment_of(old(self)@, origin, kitty_id) matches Some(p) ==> exists|
                paid: Result<(), DispatchError>,
            |
                (final(self)@, res) == #[trigger] buy_outcome(old(self)@, origin, kitty_id, paid)
                    && (C::keeps_transfer_log() ==> final(config).transfers()
                    == old(config).transfers().push((p, paid))),
            C::keeps_transfer_log() && buy_payment_of(old(self)@, origin, kitty_id) is None
                ==> final(config).transfers() == old(config).transfers(),
    {
        match self.buy_payment(origin, kitty_id) {
            None => self.do_buy(origin, kitty_id, Ok(())),
            Some(p) => {
                let paid = config.currency_transfer(p.source, p.dest, p.value);
                self.do_buy(origin, kitty_id, paid)
            },
        }
    }

    /// Deposits `event`.
    fn deposit_event(&mut self, event: Event)
        ensures
            final(self)@ == old(self)@.deposit(event),
    {
        self.events.push(event);
    }
}

/// Reads from the runtime what random values are drawn from.
fn draw_entropy<C: Config>(config: &C) -> Entropy {
    let (seed, block) = config.random_seed();
    Entropy { seed, block, extrinsic_index: config.extrinsic_index() }
}

} // verus!
