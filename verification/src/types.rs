//! Plain data of the kitties pallet: identifiers, kitties, origins, errors and events.

use vstd::prelude::*;

verus! {

/// Identifier of a kitty; identifiers are handed out in increasing order.
pub type KittyId = u32;

/// Identifier of an account.
pub type AccountId = u64;

/// Amount of currency.
pub type Balance = u128;

/// Number of a block.
pub type BlockNumber = u64;

/// A kitty as kept in storage: its genes and its name.
#[derive(Clone, Copy, Debug, PartialEq, Eq)]
pub struct Kitty {
    pub dna: [u8; 16],
    pub name: [u8; 8],
}

/// Who dispatches a call.
#[derive(Clone, Copy, Debug, PartialEq, Eq, Structural)]
pub enum Origin {
    /// The privileged root origin.
    Root,
    /// A call signed by an account.
    Signed(AccountId),
    /// An unsigned call.
    Unsigned,
}

/// The errors that the pallet itself raises.
#[derive(Clone, Copy, Debug, PartialEq, Eq, Structural)]
pub enum Error {
    InvalidKittyId,
    SameKittyId,
    NotOwner,
    AlreadyOnSale,
    NoOwner,
    NotOnSale,
    AlreadyOwned,
}

/// Why a token operation (such as a currency transfer) failed.
#[derive(Clone, Copy, Debug, PartialEq, Eq, Structural)]
pub enum TokenError {
    FundsUnavailable,
    OnlyProvider,
    BelowMinimum,
    CannotCreate,
    UnknownAsset,
    Frozen,
    Unsupported,
    CannotCreateHold,
    NotExpendable,
    Blocked,
}

/// Why an arithmetic step of the runtime failed.
#[derive(Clone, Copy, Debug, PartialEq, Eq, Structural)]
pub enum ArithmeticError {
    Underflow,
    Overflow,
    DivisionByZero,
}

/// Why a dispatched call failed.
#[derive(Clone, Copy, Debug, PartialEq, Eq, Structural)]
pub enum DispatchError {
    /// Some error that the runtime describes no further.
    Other,
    /// The origin was not the one the call needs.
    BadOrigin,
    /// An error of this pallet.
    Module(Error),
    /// A token operation failed.
    Token(TokenError),
    /// An arithmetic step failed.
    Arithmetic(ArithmeticError),
}

/// What the pallet reports after a successful call.
#[derive(Clone, Copy, Debug, PartialEq, Eq)]
pub enum Event {
    KittyCreated { who: AccountId, kitty_id: KittyId, kitty: Kitty },
    KittyBreed { who: AccountId, kitty_id: KittyId, kitty: Kitty },
    KittyTransferred { who: AccountId, recipient: AccountId, kitty_id: KittyId },
    KittyOnSale { who: AccountId, kitty_id: KittyId },
    KittyBought { who: AccountId, kitty_id: KittyId },
}

/// The account that signed `origin`, if it is signed.
pub open spec fn signer_of(origin: Origin) -> Option<AccountId> {
    match origin {
        Origin::Signed(who) => Some(who),
        _ => None,
    }
}

/// Checks that the call was signed and returns the signing account; any other origin
/// is refused with `BadOrigin`.
pub fn ensure_signed(origin: Origin) -> (res: Result<AccountId, DispatchError>)
    ensures
        res == (match signer_of(origin) {
            Some(who) => Ok(who),
            None => Err::<AccountId, DispatchError>(DispatchError::BadOrigin),
        }),
{
    match origin {
        Origin::Signed(who) => Ok(who),
        _ => Err(DispatchError::BadOrigin),
    }
}

} // verus!
