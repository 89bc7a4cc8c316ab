use std::collections::HashMap;

use pallet_kitties::{
    ensure_signed, AccountId, Balance, BlockNumber, Config, DispatchError, Entropy, Error, Event,
    KittyId, Origin, Pallet, Payment, TokenError,
};

const KITTY_PRICE: Balance = 500;
const EXISTENTIAL_DEPOSIT: Balance = 1;
const PALLET_ID: [u8; 8] = *b"py/kitty";
const PALLET_ACCOUNT: AccountId = 7723525409725509485;

/// A small runtime: balances with an existential deposit, a fixed random seed.
#[derive(Clone, Debug, PartialEq)]
struct TestRuntime {
    balances: HashMap<AccountId, Balance>,
    seed: [u8; 32],
    block: BlockNumber,
    extrinsic_index: Option<u32>,
    transfers: Vec<(AccountId, AccountId, Balance)>,
}

impl TestRuntime {
    fn force_set_balance(&mut self, who: AccountId, amount: Balance) {
        self.balances.insert(who, amount);
    }

    fn free_balance(&self, who: AccountId) -> Balance {
        *self.balances.get(&who).unwrap_or(&0)
    }

    fn entropy(&self) -> Entropy {
        Entropy { seed: self.seed, block: self.block, extrinsic_index: self.extrinsic_index }
    }
}

impl Config for TestRuntime {
    fn currency_transfer(
        &mut self,
        source: AccountId,
        dest: AccountId,
        value: Balance,
    ) -> Result<(), DispatchError> {
        let from = self.free_balance(source);
        if from < value {
            return Err(DispatchError::Token(TokenError::FundsUnavailable));
        }
        if from - value < EXISTENTIAL_DEPOSIT {
            return Err(DispatchError::Token(TokenError::NotExpendable));
        }
        let to = self.free_balance(dest);
        if to + value < EXISTENTIAL_DEPOSIT {
            return Err(DispatchError::Token(TokenError::BelowMinimum));
        }
        self.balances.insert(source, from - value);
        self.balances.insert(dest, to + value);
        self.transfers.push((source, dest, value));
        Ok(())
    }

    fn random_seed(&self) -> ([u8; 32], BlockNumber) {
        (self.seed, self.block)
    }

    fn extrinsic_index(&self) -> Option<u32> {
        self.extrinsic_index
    }
}

fn new_test_ext() -> (Pallet, TestRuntime) {
    let runtime = TestRuntime {
        balances: HashMap::new(),
        seed: [7; 32],
        block: 5,
        extrinsic_index: Some(2),
        transfers: Vec::new(),
    };
    (Pallet::new(KITTY_PRICE, PALLET_ID), runtime)
}

/// A call that fails must leave the pallet and the balances as they were.
fn assert_noop(
    pallet: &mut Pallet,
    runtime: &mut TestRuntime,
    call: impl FnOnce(&mut Pallet, &mut TestRuntime) -> Result<(), DispatchError>,
    expected: DispatchError,
) {
    let pallet_before = pallet.clone();
    let runtime_before = runtime.clone();
    assert_eq!(call(pallet, runtime), Err(expected));
    assert_eq!(*pallet, pallet_before);
    assert_eq!(*runtime, runtime_before);
}

fn assert_has_event(pallet: &Pallet, event: Event) {
    assert!(pallet.events().contains(&event));
}

fn assert_last_event(pallet: &Pallet, event: Event) {
    assert_eq!(pallet.events().last(), Some(&event));
}

#[test]
fn it_works_for_create() {
    let (mut pallet, mut runtime) = new_test_ext();
    let kitty_id = 0;
    let account_id = 1;
    let name = *b"12345678";
    assert_eq!(pallet.next_kitty_id(), kitty_id);

    runtime.force_set_balance(account_id, 10_000_000);

    assert_eq!(pallet.create(&mut runtime, Origin::Signed(account_id), name), Ok(()));

    assert_eq!(pallet.next_kitty_id(), kitty_id + 1);
    assert_eq!(pallet.kitties(kitty_id).is_some(), true);
    assert_eq!(pallet.kitty_owner(kitty_id), Some(account_id));
    assert_eq!(pallet.kitty_parents(kitty_id), None);

    pallet.set_next_kitty_id(KittyId::max_value());
    assert_noop(
        &mut pallet,
        &mut runtime,
        |p, r| p.create(r, Origin::Signed(account_id), name),
        DispatchError::Module(Error::InvalidKittyId),
    );

    let created = Event::KittyCreated { who: account_id, kitty_id, kitty: pallet.kitties(kitty_id).unwrap() };
    assert_has_event(&pallet, created);
    assert_last_event(&pallet, created);
}

#[test]
fn it_works_for_sale() {
    let (mut pallet, mut runtime) = new_test_ext();
    let kitty_id = 0;
    let account_id = 1;
    let name = *b"12345678";
    runtime.force_set_balance(account_id, 10_000_000);
    assert_eq!(pallet.create(&mut runtime, Origin::Signed(account_id), name), Ok(()));
    assert_eq!(pallet.kitty_owner(kitty_id), Some(account_id));
    assert_eq!(pallet.kitty_on_sale(kitty_id).is_some(), false);
    assert_eq!(pallet.sale(Origin::Signed(account_id), kitty_id), Ok(()));
    assert_eq!(pallet.kitty_on_sale(kitty_id).is_some(), true);
    assert_has_event(&pallet, Event::KittyOnSale { who: account_id, kitty_id });
    assert_last_event(&pallet, Event::KittyOnSale { who: account_id, kitty_id });
}

#[test]
fn it_works_for_buy() {
    let (mut pallet, mut runtime) = new_test_ext();
    let kitty_id = 0;
    let saler_id = 0;
    let buyer_id = 1;
    let name = *b"12345678";
    runtime.force_set_balance(saler_id, 10_000_000);
    runtime.force_set_balance(buyer_id, 10_000_000);
    assert_eq!(pallet.create(&mut runtime, Origin::Signed(saler_id), name), Ok(()));
    assert_eq!(pallet.kitty_owner(kitty_id), Some(saler_id));
    assert_eq!(pallet.sale(Origin::Signed(saler_id), kitty_id), Ok(()));
    assert_eq!(pallet.kitty_on_sale(kitty_id).is_some(), true);
    assert_eq!(pallet.buy(&mut runtime, Origin::Signed(buyer_id), kitty_id), Ok(()));
    assert_eq!(pallet.kitty_on_sale(kitty_id).is_some(), false);
    assert_has_event(&pallet, Event::KittyBought { who: buyer_id, kitty_id });
    assert_last_event(&pallet, Event::KittyBought { who: buyer_id, kitty_id });
}

#[test]
fn ensure_signed_accepts_only_signed_origins() {
    assert_eq!(ensure_signed(Origin::Signed(9)), Ok(9));
    assert_eq!(ensure_signed(Origin::Root), Err(DispatchError::BadOrigin));
    assert_eq!(ensure_signed(Origin::Unsigned), Err(DispatchError::BadOrigin));
}

#[test]
fn pallet_account_is_derived_from_the_pallet_id() {
    let (pallet, _) = new_test_ext();
    assert_eq!(pallet.get_account_id(), PALLET_ACCOUNT);
    let other = Pallet::new(KITTY_PRICE, *b"abcdefgh");
    assert_eq!(other.get_account_id(), u64::from_le_bytes(*b"modlabcd"));
}

#[test]
fn random_value_hashes_the_encoded_payload() {
    let entropy = Entropy { seed: [7; 32], block: 5, extrinsic_index: Some(2) };
    assert_eq!(
        Pallet::random_value(&entropy, 1),
        [118, 253, 109, 51, 71, 185, 48, 97, 88, 87, 221, 62, 76, 191, 120, 86]
    );
    assert_eq!(
        Pallet::random_value(&entropy, 2),
        [69, 166, 101, 66, 209, 150, 250, 208, 162, 77, 107, 98, 154, 180, 9, 130]
    );
    let zero = Entropy { seed: [0; 32], block: 0, extrinsic_index: None };
    assert_eq!(
        Pallet::random_value(&zero, 0),
        [106, 29, 110, 203, 176, 80, 51, 241, 175, 97, 22, 52, 134, 234, 215, 180]
    );
}

#[test]
fn create_draws_genes_and_pays_the_pallet() {
    let (mut pallet, mut runtime) = new_test_ext();
    runtime.force_set_balance(1, 10_000);
    assert_eq!(pallet.create(&mut runtime, Origin::Signed(1), *b"kitty-00"), Ok(()));
    let kitty = pallet.kitties(0).unwrap();
    assert_eq!(kitty.dna, Pallet::random_value(&runtime.entropy(), 1));
    assert_eq!(kitty.name, *b"kitty-00");
    assert_eq!(runtime.free_balance(1), 10_000 - KITTY_PRICE);
    assert_eq!(runtime.free_balance(PALLET_ACCOUNT), KITTY_PRICE);
    assert_eq!(runtime.transfers, vec![(1, PALLET_ACCOUNT, KITTY_PRICE)]);
    assert_eq!(pallet.events().len(), 1);
}

#[test]
fn create_is_refused_for_unsigned_origins() {
    let (mut pallet, mut runtime) = new_test_ext();
    runtime.force_set_balance(1, 10_000);
    assert_noop(&mut pallet, &mut runtime, |p, r| p.create(r, Origin::Root, *b"aaaaaaaa"), DispatchError::BadOrigin);
    assert_noop(&mut pallet, &mut runtime, |p, r| p.create(r, Origin::Unsigned, *b"aaaaaaaa"), DispatchError::BadOrigin);
}

#[test]
fn create_fails_when_the_price_cannot_be_paid() {
    let (mut pallet, mut runtime) = new_test_ext();
    runtime.force_set_balance(1, 100);
    assert_noop(
        &mut pallet,
        &mut runtime,
        |p, r| p.create(r, Origin::Signed(1), *b"aaaaaaaa"),
        DispatchError::Token(TokenError::FundsUnavailable),
    );
    runtime.force_set_balance(1, KITTY_PRICE);
    assert_noop(
        &mut pallet,
        &mut runtime,
        |p, r| p.create(r, Origin::Signed(1), *b"aaaaaaaa"),
        DispatchError::Token(TokenError::NotExpendable),
    );
}

#[test]
fn create_at_the_last_identifier_asks_for_no_payment() {
    let (mut pallet, mut runtime) = new_test_ext();
    runtime.force_set_balance(1, 10_000);
    pallet.set_next_kitty_id(u32::MAX);
    assert_eq!(pallet.create_payment(Origin::Signed(1)), None);
    assert_noop(
        &mut pallet,
        &mut runtime,
        |p, r| p.create(r, Origin::Signed(1), *b"aaaaaaaa"),
        DispatchError::Module(Error::InvalidKittyId),
    );
    assert!(runtime.transfers.is_empty());
    pallet.set_next_kitty_id(u32::MAX - 1);
    assert_eq!(pallet.create(&mut runtime, Origin::Signed(1), *b"aaaaaaaa"), Ok(()));
    assert_eq!(pallet.kitty_owner(u32::MAX - 1), Some(1));
    assert_eq!(pallet.next_kitty_id(), u32::MAX);
}

#[test]
fn do_create_follows_the_payment_outcome() {
    let (mut pallet, _) = new_test_ext();
    let dna = [3u8; 16];
    assert_eq!(
        pallet.create_payment(Origin::Signed(4)),
        Some(Payment { source: 4, dest: PALLET_ACCOUNT, value: KITTY_PRICE })
    );
    let before = pallet.clone();
    assert_eq!(
        pallet.do_create(Origin::Signed(4), *b"bbbbbbbb", dna, Err(DispatchError::Other)),
        Err(DispatchError::Other)
    );
    assert_eq!(pallet, before);
    assert_eq!(pallet.do_create(Origin::Signed(4), *b"bbbbbbbb", dna, Ok(())), Ok(()));
    let kitty = pallet.kitties(0).unwrap();
    assert_eq!(kitty.dna, dna);
    assert_eq!(kitty.name, *b"bbbbbbbb");
    assert_last_event(&pallet, Event::KittyCreated { who: 4, kitty_id: 0, kitty });
    assert_eq!(pallet.create_payment(Origin::Root), None);
}

fn pallet_with_two_kitties() -> (Pallet, TestRuntime) {
    let (mut pallet, mut runtime) = new_test_ext();
    runtime.force_set_balance(1, 10_000_000);
    runtime.force_set_balance(2, 10_000_000);
    assert_eq!(pallet.do_create(Origin::Signed(1), *b"mother00", [0xF0; 16], Ok(())), Ok(()));
    assert_eq!(pallet.do_create(Origin::Signed(2), *b"father00", [0x0F; 16], Ok(())), Ok(()));
    (pallet, runtime)
}

#[test]
fn breed_mixes_the_parents_genes() {
    let (mut pallet, mut runtime) = pallet_with_two_kitties();
    assert_eq!(pallet.breed(&mut runtime, Origin::Signed(1), 0, 1, *b"child000"), Ok(()));
    let selector = Pallet::random_value(&runtime.entropy(), 1);
    let child = pallet.kitties(2).unwrap();
    for i in 0..16 {
        assert_eq!(child.dna[i], (0xF0 & selector[i]) | (0x0F & !selector[i]));
    }
    assert_eq!(child.name, *b"child000");
    assert_eq!(pallet.kitty_owner(2), Some(1));
    assert_eq!(pallet.kitty_parents(2), Some((0, 1)));
    assert_eq!(pallet.next_kitty_id(), 3);
    assert_eq!(runtime.transfers, vec![(1, PALLET_ACCOUNT, KITTY_PRICE)]);
    assert_last_event(&pallet, Event::KittyBreed { who: 1, kitty_id: 2, kitty: child });
}

#[test]
fn do_breed_with_a_given_selector() {
    let (mut pallet, _) = pallet_with_two_kitties();
    assert_eq!(pallet.do_breed(Origin::Signed(3), 1, 0, *b"child001", [0xAA; 16], Ok(())), Ok(()));
    let child = pallet.kitties(2).unwrap();
    assert_eq!(child.dna, [0x5A; 16]);
    assert_eq!(pallet.kitty_parents(2), Some((1, 0)));
    assert_eq!(pallet.kitty_owner(2), Some(3));
}

#[test]
fn breed_errors() {
    let (mut pallet, mut runtime) = pallet_with_two_kitties();
    assert_noop(&mut pallet, &mut runtime, |p, r| p.breed(r, Origin::Root, 0, 1, *b"xxxxxxxx"), DispatchError::BadOrigin);
    assert_noop(
        &mut pallet,
        &mut runtime,
        |p, r| p.breed(r, Origin::Signed(1), 0, 0, *b"xxxxxxxx"),
        DispatchError::Module(Error::SameKittyId),
    );
    assert_noop(
        &mut pallet,
        &mut runtime,
        |p, r| p.breed(r, Origin::Signed(1), 0, 7, *b"xxxxxxxx"),
        DispatchError::Module(Error::InvalidKittyId),
    );
    assert_noop(
        &mut pallet,
        &mut runtime,
        |p, r| p.breed(r, Origin::Signed(1), 7, 1, *b"xxxxxxxx"),
        DispatchError::Module(Error::InvalidKittyId),
    );
    assert_noop(
        &mut pallet,
        &mut runtime,
        |p, r| p.breed(r, Origin::Signed(9), 0, 1, *b"xxxxxxxx"),
        DispatchError::Token(TokenError::FundsUnavailable),
    );
    assert_eq!(pallet.breed_payment(Origin::Signed(1), 0, 0), None);
    assert_eq!(
        pallet.breed_payment(Origin::Signed(1), 0, 1),
        Some(Payment { source: 1, dest: PALLET_ACCOUNT, value: KITTY_PRICE })
    );
    pallet.set_next_kitty_id(u32::MAX);
    assert_eq!(pallet.breed_payment(Origin::Signed(1), 0, 1), None);
    assert_noop(
        &mut pallet,
        &mut runtime,
        |p, r| p.breed(r, Origin::Signed(1), 0, 1, *b"xxxxxxxx"),
        DispatchError::Module(Error::InvalidKittyId),
    );
}

#[test]
fn transfer_hands_the_kitty_over() {
    let (mut pallet, mut runtime) = pallet_with_two_kitties();
    assert_eq!(pallet.transfer(Origin::Signed(1), 5, 0), Ok(()));
    assert_eq!(pallet.kitty_owner(0), Some(5));
    assert_eq!(pallet.kitty_owner(1), Some(2));
    assert_last_event(&pallet, Event::KittyTransferred { who: 1, recipient: 5, kitty_id: 0 });
    assert_noop(&mut pallet, &mut runtime, |p, _| p.transfer(Origin::Signed(1), 6, 0), DispatchError::Module(Error::NotOwner));
    assert_noop(&mut pallet, &mut runtime, |p, _| p.transfer(Origin::Signed(1), 6, 9), DispatchError::Module(Error::NotOwner));
    assert_noop(&mut pallet, &mut runtime, |p, _| p.transfer(Origin::Unsigned, 6, 0), DispatchError::BadOrigin);
}

#[test]
fn sale_errors() {
    let (mut pallet, mut runtime) = pallet_with_two_kitties();
    assert_noop(&mut pallet, &mut runtime, |p, _| p.sale(Origin::Signed(1), 9), DispatchError::Module(Error::InvalidKittyId));
    assert_noop(&mut pallet, &mut runtime, |p, _| p.sale(Origin::Signed(1), 1), DispatchError::Module(Error::NotOwner));
    assert_noop(&mut pallet, &mut runtime, |p, _| p.sale(Origin::Root, 0), DispatchError::BadOrigin);
    assert_eq!(pallet.sale(Origin::Signed(1), 0), Ok(()));
    assert_noop(&mut pallet, &mut runtime, |p, _| p.sale(Origin::Signed(1), 0), DispatchError::Module(Error::AlreadyOnSale));
}

#[test]
fn buy_pays_the_seller() {
    let (mut pallet, mut runtime) = pallet_with_two_kitties();
    assert_eq!(pallet.sale(Origin::Signed(2), 1), Ok(()));
    assert_eq!(pallet.buy_payment(Origin::Signed(1), 1), Some(Payment { source: 1, dest: 2, value: KITTY_PRICE }));
    assert_eq!(pallet.buy(&mut runtime, Origin::Signed(1), 1), Ok(()));
    assert_eq!(pallet.kitty_owner(1), Some(1));
    assert_eq!(runtime.free_balance(1), 10_000_000 - KITTY_PRICE);
    assert_eq!(runtime.free_balance(2), 10_000_000 + KITTY_PRICE);
    assert_eq!(pallet.kitty_on_sale(1), None);
    assert_eq!(pallet.buy_payment(Origin::Signed(2), 1), None);
}

#[test]
fn buy_errors() {
    let (mut pallet, mut runtime) = pallet_with_two_kitties();
    assert_noop(&mut pallet, &mut runtime, |p, r| p.buy(r, Origin::Signed(1), 9), DispatchError::Module(Error::InvalidKittyId));
    assert_noop(&mut pallet, &mut runtime, |p, r| p.buy(r, Origin::Signed(1), 0), DispatchError::Module(Error::AlreadyOwned));
    assert_noop(&mut pallet, &mut runtime, |p, r| p.buy(r, Origin::Signed(1), 1), DispatchError::Module(Error::NotOnSale));
    assert_noop(&mut pallet, &mut runtime, |p, r| p.buy(r, Origin::Root, 1), DispatchError::BadOrigin);
    assert_eq!(pallet.sale(Origin::Signed(2), 1), Ok(()));
    assert_noop(
        &mut pallet,
        &mut runtime,
        |p, r| p.buy(r, Origin::Signed(8), 1),
        DispatchError::Token(TokenError::FundsUnavailable),
    );
    let before = pallet.clone();
    assert_eq!(pallet.do_buy(Origin::Signed(8), 1, Err(DispatchError::Other)), Err(DispatchError::Other));
    assert_eq!(pallet, before);
    assert_eq!(pallet.do_buy(Origin::Signed(8), 1, Ok(())), Ok(()));
    assert_eq!(pallet.kitty_owner(1), Some(8));
}

#[test]
fn transfer_keeps_a_kitty_on_sale() {
    let (mut pallet, _) = pallet_with_two_kitties();
    assert_eq!(pallet.sale(Origin::Signed(1), 0), Ok(()));
    assert_eq!(pallet.transfer(Origin::Signed(1), 3, 0), Ok(()));
    assert_eq!(pallet.kitty_on_sale(0), Some(()));
    assert_eq!(pallet.kitty_owner(0), Some(3));
}

#[test]
fn successful_calls_deposit_one_event_and_keep_kitties() {
    let (mut pallet, mut runtime) = pallet_with_two_kitties();
    let mother = pallet.kitties(0).unwrap();
    let father = pallet.kitties(1).unwrap();
    assert_eq!(pallet.events().len(), 2);
    assert_eq!(pallet.sale(Origin::Signed(1), 0), Ok(()));
    assert_eq!(pallet.events().len(), 3);
    assert_eq!(pallet.buy(&mut runtime, Origin::Signed(2), 0), Ok(()));
    assert_eq!(pallet.events().len(), 4);
    assert_eq!(pallet.transfer(Origin::Signed(2), 1, 1), Ok(()));
    assert_eq!(pallet.events().len(), 5);
    assert_eq!(pallet.breed(&mut runtime, Origin::Signed(2), 0, 1, *b"child002"), Ok(()));
    assert_eq!(pallet.events().len(), 6);
    assert_eq!(pallet.kitties(0), Some(mother));
    assert_eq!(pallet.kitties(1), Some(father));
    assert_eq!(pallet.kitty_price(), KITTY_PRICE);
}
