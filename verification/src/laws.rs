//! Properties that hold of every call of the pallet, over the model of its storage.

use vstd::prelude::*;

use crate::model::{
    breed_outcome, breed_payment_of, buy_outcome, buy_payment_of, create_outcome,
    create_payment_of, sale_outcome, transfer_outcome, PalletState, Payment,
};
use crate::dna::lemma_mixed_dna_is_mix;
use crate::primitives::pallet_account_of;
use crate::types::{signer_of, AccountId, DispatchError, Error, Event, Kitty, KittyId, Origin};

verus! {

/// A call that fails leaves storage exactly as it was, and deposits no event.
pub proof fn law_failed_calls_change_nothing(
    pre: PalletState,
    origin: Origin,
    name: [u8; 8],
    genes: [u8; 16],
    kitty_id_1: KittyId,
    kitty_id_2: KittyId,
    recipient: AccountId,
    kitty_id: KittyId,
    payment: Result<(), DispatchError>,
)
    ensures
        create_outcome(pre, origin, name, genes, payment).1 is Err ==> create_outcome(
            pre,
            origin,
            name,
            genes,
            payment,
        ).0 == pre,
        breed_outcome(pre, origin, kitty_id_1, kitty_id_2, name, genes, payment).1 is Err
            ==> breed_outcome(pre, origin, kitty_id_1, kitty_id_2, name, genes, payment).0 == pre,
        transfer_outcome(pre, origin, recipient, kitty_id).1 is Err ==> transfer_outcome(
            pre,
            origin,
            recipient,
            kitty_id,
        ).0 == pre,
        sale_outcome(pre, origin, kitty_id).1 is Err ==> sale_outcome(pre, origin, kitty_id).0
            == pre,
        buy_outcome(pre, origin, kitty_id, payment).1 is Err ==> buy_outcome(
            pre,
            origin,
            kitty_id,
            payment,
        ).0 == pre,
{
}

/// Only signed calls can succeed; any other origin is refused with `BadOrigin`.
pub proof fn law_unsigned_calls_are_refused(
    pre: PalletState,
    origin: Origin,
    name: [u8; 8],
    genes: [u8; 16],
    kitty_id_1: KittyId,
    kitty_id_2: KittyId,
    recipient: AccountId,
    kitty_id: KittyId,
    payment: Result<(), DispatchError>,
)
    requires
        signer_of(origin) is None,
    ensures
        create_outcome(pre, origin, name, genes, payment).1 == Err::<(), DispatchError>(
            DispatchError::BadOrigin,
        ),
        breed_outcome(pre, origin, kitty_id_1, kitty_id_2, name, genes, payment).1 == Err::<
            (),
            DispatchError,
        >(DispatchError::BadOrigin),
        transfer_outcome(pre, origin, recipient, kitty_id).1 == Err::<(), DispatchError>(
            DispatchError::BadOrigin,
        ),
        sale_outcome(pre, origin, kitty_id).1 == Err::<(), DispatchError>(DispatchError::BadOrigin),
        buy_outcome(pre, origin, kitty_id, payment).1 == Err::<(), DispatchError>(
            DispatchError::BadOrigin,
        ),
{
}

/// A call that succeeds deposits exactly one event, after the ones before.
pub proof fn law_successful_calls_deposit_one_event(
    pre: PalletState,
    origin: Origin,
    name: [u8; 8],
    genes: [u8; 16],
    kitty_id_1: KittyId,
    kitty_id_2: KittyId,
    recipient: AccountId,
    kitty_id: KittyId,
    payment: Result<(), DispatchError>,
)
    ensures
        create_outcome(pre, origin, name, genes, payment).1 is Ok ==> exists|e: Event|
            create_outcome(pre, origin, name, genes, payment).0.events == #[trigger] pre.events.push(e),
        breed_outcome(pre, origin, kitty_id_1, kitty_id_2, name, genes, payment).1 is Ok
            ==> exists|e: Event|
            breed_outcome(pre, origin, kitty_id_1, kitty_id_2, name, genes, payment).0.events
                == #[trigger] pre.events.push(e),
        transfer_outcome(pre, origin, recipient, kitty_id).1 is Ok ==> exists|e: Event|
            transfer_outcome(pre, origin, recipient, kitty_id).0.events == #[trigger] pre.events.push(e),
        sale_outcome(pre, origin, kitty_id).1 is Ok ==> exists|e: Event|
            sale_outcome(pre, origin, kitty_id).0.events == #[trigger] pre.events.push(e),
        buy_outcome(pre, origin, kitty_id, payment).1 is Ok ==> exists|e: Event|
            buy_outcome(pre, origin, kitty_id, payment).0.events == #[trigger] pre.events.push(e),
{
}

/// Creating a kitty keeps storage consistent.
pub proof fn law_create_keeps_storage_consistent(
    pre: PalletState,
    origin: Origin,
    name: [u8; 8],
    dna: [u8; 16],
    payment: Result<(), DispatchError>,
)
    requires
        pre.wf(),
    ensures
        create_outcome(pre, origin, name, dna, payment).0.wf(),
{
}

/// Breeding a kitty keeps storage consistent.
pub proof fn law_breed_keeps_storage_consistent(
    pre: PalletState,
    origin: Origin,
    kitty_id_1: KittyId,
    kitty_id_2: KittyId,
    name: [u8; 8],
    selector: [u8; 16],
    payment: Result<(), DispatchError>,
)
    requires
        pre.wf(),
    ensures
        breed_outcome(pre, origin, kitty_id_1, kitty_id_2, name, selector, payment).0.wf(),
{
}

/// Transferring a kitty keeps storage consistent.
pub proof fn law_transfer_keeps_storage_consistent(
    pre: PalletState,
    origin: Origin,
    recipient: AccountId,
    kitty_id: KittyId,
)
    requires
        pre.wf(),
    ensures
        transfer_outcome(pre, origin, recipient, kitty_id).0.wf(),
{
}

/// Putting a kitty up for sale keeps storage consistent.
pub proof fn law_sale_keeps_storage_consistent(pre: PalletState, origin: Origin, kitty_id: KittyId)
    requires
        pre.wf(),
    ensures
        sale_outcome(pre, origin, kitty_id).0.wf(),
{
}

/// Buying a kitty keeps storage consistent.
pub proof fn law_buy_keeps_storage_consistent(
    pre: PalletState,
    origin: Origin,
    kitty_id: KittyId,
    payment: Result<(), DispatchError>,
)
    requires
        pre.wf(),
    ensures
        buy_outcome(pre, origin, kitty_id, payment).0.wf(),
{
}

/// A created or bred kitty gets the next identifier, which no stored kitty had; the
/// counter moves on by one, and every kitty stored before is still there, unchanged.
pub proof fn law_new_kitties_get_fresh_identifiers(
    pre: PalletState,
    origin: Origin,
    name: [u8; 8],
    genes: [u8; 16],
    kitty_id_1: KittyId,
    kitty_id_2: KittyId,
    payment: Result<(), DispatchError>,
)
    requires
        pre.wf(),
    ensures
        create_outcome(pre, origin, name, genes, payment).1 is Ok ==> {
            let post = create_outcome(pre, origin, name, genes, payment).0;
            &&& !pre.kitties.contains_key(pre.next_kitty_id)
            &&& post.next_kitty_id == pre.next_kitty_id + 1
            &&& post.kitties.contains_key(pre.next_kitty_id)
            &&& post.kitties.remove(pre.next_kitty_id) == pre.kitties
            &&& post.owners[pre.next_kitty_id] == signer_of(origin)->0
            &&& !post.parents.contains_key(pre.next_kitty_id)
        },
        breed_outcome(pre, origin, kitty_id_1, kitty_id_2, name, genes, payment).1 is Ok ==> {
            let post = breed_outcome(pre, origin, kitty_id_1, kitty_id_2, name, genes, payment).0;
            &&& !pre.kitties.contains_key(pre.next_kitty_id)
            &&& post.next_kitty_id == pre.next_kitty_id + 1
            &&& post.kitties.contains_key(pre.next_kitty_id)
            &&& post.kitties.remove(pre.next_kitty_id) == pre.kitties
            &&& post.owners[pre.next_kitty_id] == signer_of(origin)->0
            &&& post.parents[pre.next_kitty_id] == (kitty_id_1, kitty_id_2)
        },
{
    if create_outcome(pre, origin, name, genes, payment).1 is Ok {
        let post = create_outcome(pre, origin, name, genes, payment).0;
        assert(post.kitties.remove(pre.next_kitty_id) =~= pre.kitties);
    }
    if breed_outcome(pre, origin, kitty_id_1, kitty_id_2, name, genes, payment).1 is Ok {
        let post = breed_outcome(pre, origin, kitty_id_1, kitty_id_2, name, genes, payment).0;
        assert(post.kitties.remove(pre.next_kitty_id) =~= pre.kitties);
    }
}

/// No call ever removes a kitty or changes its genes or name: every kitty stored before a
/// call is stored after it, unchanged.
pub proof fn law_kitties_are_never_altered(
    pre: PalletState,
    origin: Origin,
    name: [u8; 8],
    genes: [u8; 16],
    kitty_id_1: KittyId,
    kitty_id_2: KittyId,
    recipient: AccountId,
    kitty_id: KittyId,
    payment: Result<(), DispatchError>,
    id: KittyId,
)
    requires
        pre.wf(),
        pre.kitties.contains_key(id),
    ensures
        create_outcome(pre, origin, name, genes, payment).0.kitties.get(id) == pre.kitties.get(id),
        breed_outcome(pre, origin, kitty_id_1, kitty_id_2, name, genes, payment).0.kitties.get(id)
            == pre.kitties.get(id),
        transfer_outcome(pre, origin, recipient, kitty_id).0.kitties.get(id) == pre.kitties.get(id),
        sale_outcome(pre, origin, kitty_id).0.kitties.get(id) == pre.kitties.get(id),
        buy_outcome(pre, origin, kitty_id, payment).0.kitties.get(id) == pre.kitties.get(id),
{
}

/// Only the owner of a kitty can transfer it or put it up for sale; a transfer makes the
/// recipient the owner and touches no other kitty's owner.
pub proof fn law_only_owners_transfer_and_sell(
    pre: PalletState,
    origin: Origin,
    recipient: AccountId,
    kitty_id: KittyId,
)
    ensures
        transfer_outcome(pre, origin, recipient, kitty_id).1 is Ok ==> {
            let post = transfer_outcome(pre, origin, recipient, kitty_id).0;
            &&& pre.owners.get(kitty_id) == signer_of(origin)
            &&& post.owners == pre.owners.insert(kitty_id, recipient)
        },
        sale_outcome(pre, origin, kitty_id).1 is Ok ==> {
            let post = sale_outcome(pre, origin, kitty_id).0;
            &&& pre.owners.get(kitty_id) == signer_of(origin)
            &&& !pre.on_sale.contains(kitty_id)
            &&& post.on_sale == pre.on_sale.insert(kitty_id)
            &&& post.owners == pre.owners
        },
{
}

/// A kitty can only be bought while it is for sale, and never by its owner; the buyer
/// becomes the owner, the kitty leaves the market, and the payment that the purchase asks
/// for moves the price from the buyer to the former owner.
pub proof fn law_buying_moves_ownership(
    pre: PalletState,
    origin: Origin,
    kitty_id: KittyId,
    payment: Result<(), DispatchError>,
)
    ensures
        buy_outcome(pre, origin, kitty_id, payment).1 is Ok ==> {
            let post = buy_outcome(pre, origin, kitty_id, payment).0;
            let buyer = signer_of(origin)->0;
            &&& signer_of(origin) is Some
            &&& pre.on_sale.contains(kitty_id)
            &&& pre.owners.contains_key(kitty_id)
            &&& pre.owners[kitty_id] != buyer
            &&& post.owners == pre.owners.insert(kitty_id, buyer)
            &&& !post.on_sale.contains(kitty_id)
            &&& buy_payment_of(pre, origin, kitty_id) matches Some(p) && p.source == buyer
                && p.dest == pre.owners[kitty_id] && p.value == pre.kitty_price
        },
{
}

/// A payment is asked for exactly when the call passes all its checks. Without one, the
/// call fails whatever any payment would have returned; with one, a refused payment makes
/// the call fail with the payment's error and a completed one makes it succeed.
pub proof fn law_payments_are_asked_for_exactly_when_due(
    pre: PalletState,
    origin: Origin,
    name: [u8; 8],
    genes: [u8; 16],
    kitty_id_1: KittyId,
    kitty_id_2: KittyId,
    kitty_id: KittyId,
    payment: Result<(), DispatchError>,
)
    ensures
        create_payment_of(pre, origin) is None ==> create_outcome(pre, origin, name, genes, payment)
            == create_outcome(pre, origin, name, genes, Ok(())) && create_outcome(
            pre,
            origin,
            name,
            genes,
            payment,
        ).1 is Err,
        create_payment_of(pre, origin) is Some ==> create_outcome(
            pre,
            origin,
            name,
            genes,
            payment,
        ).1 == payment,
        breed_payment_of(pre, origin, kitty_id_1, kitty_id_2) is None ==> breed_outcome(
            pre,
            origin,
            kitty_id_1,
            kitty_id_2,
            name,
            genes,
            payment,
        ) == breed_outcome(pre, origin, kitty_id_1, kitty_id_2, name, genes, Ok(()))
            && breed_outcome(pre, origin, kitty_id_1, kitty_id_2, name, genes, payment).1 is Err,
        breed_payment_of(pre, origin, kitty_id_1, kitty_id_2) is Some ==> breed_outcome(
            pre,
            origin,
            kitty_id_1,
            kitty_id_2,
            name,
            genes,
            payment,
        ).1 == payment,
        buy_payment_of(pre, origin, kitty_id) is None ==> buy_outcome(pre, origin, kitty_id, payment)
            == buy_outcome(pre, origin, kitty_id, Ok(())) && buy_outcome(
            pre,
            origin,
            kitty_id,
            payment,
        ).1 is Err,
        buy_payment_of(pre, origin, kitty_id) is Some ==> buy_outcome(pre, origin, kitty_id, payment).1
            == payment,
{
    match payment {
        Ok(u) => {
            assert(u == ());
        },
        Err(_) => {},
    }
}

/// Once its owner has put a kitty up for sale, any other signed account can buy it: with the
/// price paid, the purchase succeeds, the buyer owns the kitty and it is off the market.
pub proof fn law_a_kitty_for_sale_can_be_bought(
    pre: PalletState,
    seller: AccountId,
    buyer: AccountId,
    kitty_id: KittyId,
)
    requires
        pre.wf(),
        sale_outcome(pre, Origin::Signed(seller), kitty_id).1 is Ok,
        buyer != seller,
    ensures
        ({
            let listed = sale_outcome(pre, Origin::Signed(seller), kitty_id).0;
            let sold = buy_outcome(listed, Origin::Signed(buyer), kitty_id, Ok(()));
            &&& buy_payment_of(listed, Origin::Signed(buyer), kitty_id) == Some(
                Payment { source: buyer, dest: seller, value: pre.kitty_price },
            )
            &&& sold.1 is Ok
            &&& sold.0.owners.get(kitty_id) == Some(buyer)
            &&& !sold.0.on_sale.contains(kitty_id)
        }),
{
}

/// `create` by `who`, with the price paid, succeeds exactly while identifiers remain. It then
/// stores the kitty made of the given genes and the given name, unaltered, under the next
/// identifier, makes `who` its owner, moves the counter on by one, records no parents, puts
/// nothing up for sale and deposits `KittyCreated` for that kitty. The payment it asks for is
/// the kitty price from `who` into the pallet's account.
pub proof fn law_create_does_exactly_this(pre: PalletState, who: AccountId, name: [u8; 8], dna: [u8; 16])
    ensures
        (create_outcome(pre, Origin::Signed(who), name, dna, Ok(())).1 is Ok) == (pre.next_kitty_id
            < u32::MAX),
        create_outcome(pre, Origin::Signed(who), name, dna, Ok(())).1 is Ok ==> {
            let post = create_outcome(pre, Origin::Signed(who), name, dna, Ok(())).0;
            let id = pre.next_kitty_id;
            &&& post.next_kitty_id == id + 1
            &&& post.kitties == pre.kitties.insert(id, (Kitty { dna, name }))
            &&& post.owners == pre.owners.insert(id, who)
            &&& post.parents == pre.parents
            &&& post.on_sale == pre.on_sale
            &&& post.events == pre.events.push(
                (Event::KittyCreated { who, kitty_id: id, kitty: (Kitty { dna, name }) }),
            )
            &&& post.kitty_price == pre.kitty_price
            &&& post.pallet_id == pre.pallet_id
        },
        (create_payment_of(pre, Origin::Signed(who)) is Some) == (pre.next_kitty_id < u32::MAX),
        create_payment_of(pre, Origin::Signed(who)) matches Some(p) ==> p == (Payment {
            source: who,
            dest: pallet_account_of(pre.pallet_id),
            value: pre.kitty_price,
        }),
{
}

/// `breed` by `who` of the kitties `kitty_id_1` and `kitty_id_2`, with the price paid,
/// succeeds exactly when the two identifiers differ, both kitties are stored and
/// identifiers remain; who owns the parents does not matter. It then stores under the next
/// identifier a kitty with the given name whose genes take, byte by byte, the bits that
/// `selector` sets from the first parent and the others from the second; makes `who` its
/// owner, records the two parents, moves the counter on by one, leaves the market alone and
/// deposits `KittyBreed` for that kitty. The payment it asks for is the kitty price from
/// `who` into the pallet's account.
pub proof fn law_breed_does_exactly_this(
    pre: PalletState,
    who: AccountId,
    kitty_id_1: KittyId,
    kitty_id_2: KittyId,
    name: [u8; 8],
    selector: [u8; 16],
)
    ensures
        ({
            let succeeds = kitty_id_1 != kitty_id_2 && pre.kitties.contains_key(kitty_id_1)
                && pre.kitties.contains_key(kitty_id_2) && pre.next_kitty_id < u32::MAX;
            &&& (breed_outcome(pre, Origin::Signed(who), kitty_id_1, kitty_id_2, name, selector, Ok(())).1 is Ok)
                == succeeds
            &&& (breed_payment_of(pre, Origin::Signed(who), kitty_id_1, kitty_id_2) is Some)
                == succeeds
        }),
        breed_outcome(pre, Origin::Signed(who), kitty_id_1, kitty_id_2, name, selector, Ok(())).1 is Ok
            ==> {
            let post = breed_outcome(
                pre,
                Origin::Signed(who),
                kitty_id_1,
                kitty_id_2,
                name,
                selector,
                Ok(()),
            ).0;
            let id = pre.next_kitty_id;
            let child = post.kitties[id];
            let a = pre.kitties[kitty_id_1].dna;
            let b = pre.kitties[kitty_id_2].dna;
            &&& post.next_kitty_id == id + 1
            &&& post.kitties == pre.kitties.insert(id, child)
            &&& child.name == name
            &&& forall|i: int|
                0 <= i < 16 ==> #[trigger] child.dna[i] == ((a[i] & selector[i]) | (b[i]
                    & !selector[i]))
            &&& post.owners == pre.owners.insert(id, who)
            &&& post.parents == pre.parents.insert(id, (kitty_id_1, kitty_id_2))
            &&& post.on_sale == pre.on_sale
            &&& post.events == pre.events.push((Event::KittyBreed { who, kitty_id: id, kitty: child }))
            &&& post.kitty_price == pre.kitty_price
            &&& post.pallet_id == pre.pallet_id
        },
        breed_payment_of(pre, Origin::Signed(who), kitty_id_1, kitty_id_2) matches Some(p) ==> p
            == (Payment { source: who, dest: pallet_account_of(pre.pallet_id), value: pre.kitty_price }),
{
    if breed_outcome(pre, Origin::Signed(who), kitty_id_1, kitty_id_2, name, selector, Ok(())).1 is Ok {
        lemma_mixed_dna_is_mix(pre.kitties[kitty_id_1].dna, pre.kitties[kitty_id_2].dna, selector);
    }
}

/// `transfer` by `who` of the kitty `kitty_id` to `recipient` succeeds exactly when `who`
/// owns it, however the kitty came to be. It then makes `recipient` the owner of that kitty
/// and of no other, changes nothing else and deposits `KittyTransferred`.
pub proof fn law_transfer_does_exactly_this(
    pre: PalletState,
    who: AccountId,
    recipient: AccountId,
    kitty_id: KittyId,
)
    ensures
        (transfer_outcome(pre, Origin::Signed(who), recipient, kitty_id).1 is Ok) == (pre.owners.get(
            kitty_id,
        ) == Some(who)),
        transfer_outcome(pre, Origin::Signed(who), recipient, kitty_id).1 is Ok ==> {
            let post = transfer_outcome(pre, Origin::Signed(who), recipient, kitty_id).0;
            &&& post.owners == pre.owners.insert(kitty_id, recipient)
            &&& post.next_kitty_id == pre.next_kitty_id
            &&& post.kitties == pre.kitties
            &&& post.parents == pre.parents
            &&& post.on_sale == pre.on_sale
            &&& post.events == pre.events.push(
                (Event::KittyTransferred { who, recipient, kitty_id }),
            )
            &&& post.kitty_price == pre.kitty_price
            &&& post.pallet_id == pre.pallet_id
        },
{
}

/// `sale` by `who` of the kitty `kitty_id` succeeds exactly when the kitty is stored, `who`
/// owns it and it is not already for sale, however the kitty came to be. It then adds that
/// kitty, and no other, to the market, changes nothing else and deposits `KittyOnSale`.
pub proof fn law_sale_does_exactly_this(pre: PalletState, who: AccountId, kitty_id: KittyId)
    ensures
        (sale_outcome(pre, Origin::Signed(who), kitty_id).1 is Ok) == (pre.kitties.contains_key(
            kitty_id,
        ) && pre.owners.get(kitty_id) == Some(who) && !pre.on_sale.contains(kitty_id)),
        sale_outcome(pre, Origin::Signed(who), kitty_id).1 is Ok ==> {
            let post = sale_outcome(pre, Origin::Signed(who), kitty_id).0;
            &&& post.on_sale == pre.on_sale.insert(kitty_id)
            &&& post.owners == pre.owners
            &&& post.next_kitty_id == pre.next_kitty_id
            &&& post.kitties == pre.kitties
            &&& post.parents == pre.parents
            &&& post.events == pre.events.push((Event::KittyOnSale { who, kitty_id }))
            &&& post.kitty_price == pre.kitty_price
            &&& post.pallet_id == pre.pallet_id
        },
{
}

/// `buy` by `who` of the kitty `kitty_id`, with the price paid, succeeds exactly when the
/// kitty is stored, has an owner other than `who` and is for sale. It then makes `who` the
/// owner of that kitty and of no other, takes that kitty, and no other, off the market,
/// changes nothing else and deposits `KittyBought`. The payment it asks for is the kitty
/// price from `who` to the former owner.
pub proof fn law_buy_does_exactly_this(pre: PalletState, who: AccountId, kitty_id: KittyId)
    ensures
        ({
            let succeeds = pre.kitties.contains_key(kitty_id) && pre.owners.contains_key(kitty_id)
                && pre.owners[kitty_id] != who && pre.on_sale.contains(kitty_id);
            &&& (buy_outcome(pre, Origin::Signed(who), kitty_id, Ok(())).1 is Ok) == succeeds
            &&& (buy_payment_of(pre, Origin::Signed(who), kitty_id) is Some) == succeeds
        }),
        buy_outcome(pre, Origin::Signed(who), kitty_id, Ok(())).1 is Ok ==> {
            let post = buy_outcome(pre, Origin::Signed(who), kitty_id, Ok(())).0;
            &&& post.owners == pre.owners.insert(kitty_id, who)
            &&& post.on_sale == pre.on_sale.remove(kitty_id)
            &&& post.next_kitty_id == pre.next_kitty_id
            &&& post.kitties == pre.kitties
            &&& post.parents == pre.parents
            &&& post.events == pre.events.push((Event::KittyBought { who, kitty_id }))
            &&& post.kitty_price == pre.kitty_price
            &&& post.pallet_id == pre.pallet_id
        },
        buy_payment_of(pre, Origin::Signed(who), kitty_id) matches Some(p) ==> p == (Payment {
            source: who,
            dest: pre.owners[kitty_id],
            value: pre.kitty_price,
        }),
{
}

/// Which error each call gives when a check fails, checked in the order of the calls: an
/// exhausted identifier counter, two equal parents, a missing kitty, a kitty owned by
/// someone else or by the buyer, a kitty already or not yet for sale.
pub proof fn law_refusals_name_their_reason(
    pre: PalletState,
    who: AccountId,
    name: [u8; 8],
    genes: [u8; 16],
    kitty_id_1: KittyId,
    kitty_id_2: KittyId,
    recipient: AccountId,
    kitty_id: KittyId,
    payment: Result<(), DispatchError>,
)
    ensures
        (pre.next_kitty_id == u32::MAX ==> create_outcome(
            pre,
            Origin::Signed(who),
            name,
            genes,
            payment,
        ).1 == Err::<(), DispatchError>(DispatchError::Module(Error::InvalidKittyId))),
        (kitty_id_1 == kitty_id_2 ==> breed_outcome(
            pre,
            Origin::Signed(who),
            kitty_id_1,
            kitty_id_2,
            name,
            genes,
            payment,
        ).1 == Err::<(), DispatchError>(DispatchError::Module(Error::SameKittyId))),
        (kitty_id_1 != kitty_id_2 && (!pre.kitties.contains_key(kitty_id_1)
            || !pre.kitties.contains_key(kitty_id_2) || pre.next_kitty_id == u32::MAX)
            ==> breed_outcome(
            pre,
            Origin::Signed(who),
            kitty_id_1,
            kitty_id_2,
            name,
            genes,
            payment,
        ).1 == Err::<(), DispatchError>(DispatchError::Module(Error::InvalidKittyId))),
        (pre.owners.get(kitty_id) != Some(who) ==> transfer_outcome(
            pre,
            Origin::Signed(who),
            recipient,
            kitty_id,
        ).1 == Err::<(), DispatchError>(DispatchError::Module(Error::NotOwner))),
        (!pre.kitties.contains_key(kitty_id) ==> sale_outcome(pre, Origin::Signed(who), kitty_id).1
            == Err::<(), DispatchError>(DispatchError::Module(Error::InvalidKittyId))),
        (pre.kitties.contains_key(kitty_id) && pre.owners.get(kitty_id) != Some(who)
            ==> sale_outcome(pre, Origin::Signed(who), kitty_id).1 == Err::<(), DispatchError>(
            DispatchError::Module(Error::NotOwner),
        )),
        (pre.kitties.contains_key(kitty_id) && pre.owners.get(kitty_id) == Some(who)
            && pre.on_sale.contains(kitty_id) ==> sale_outcome(pre, Origin::Signed(who), kitty_id).1
            == Err::<(), DispatchError>(DispatchError::Module(Error::AlreadyOnSale))),
        (!pre.kitties.contains_key(kitty_id) ==> buy_outcome(
            pre,
            Origin::Signed(who),
            kitty_id,
            payment,
        ).1 == Err::<(), DispatchError>(DispatchError::Module(Error::InvalidKittyId))),
        (pre.kitties.contains_key(kitty_id) && !pre.owners.contains_key(kitty_id) ==> buy_outcome(
            pre,
            Origin::Signed(who),
            kitty_id,
            payment,
        ).1 == Err::<(), DispatchError>(DispatchError::Module(Error::NoOwner))),
        (pre.kitties.contains_key(kitty_id) && pre.owners.get(kitty_id) == Some(who) ==> buy_outcome(
            pre,
            Origin::Signed(who),
            kitty_id,
            payment,
        ).1 == Err::<(), DispatchError>(DispatchError::Module(Error::AlreadyOwned))),
        (pre.kitties.contains_key(kitty_id) && pre.owners.contains_key(kitty_id)
            && pre.owners[kitty_id] != who && !pre.on_sale.contains(kitty_id) ==> buy_outcome(
            pre,
            Origin::Signed(who),
            kitty_id,
            payment,
        ).1 == Err::<(), DispatchError>(DispatchError::Module(Error::NotOnSale))),
{
}

} // verus!
