use vstd::prelude::*;

verus! {

/// The account that signs a call (the raw bytes of a 32-byte public key).
pub type AccountId = [u8; 32];

/// The identifier under which a law is stored.
pub type LawId = [u8; 32];

/// The text of a law.
pub type LawText = [u8; 32];

/// An amount of currency: an unsigned integer type of the runtime, read as
/// the integer `value()` between 0 and `max_value()`.
pub trait Balance: Copy + Sized {
    /// The integer that the amount stands for.
    spec fn value(self) -> int;

    /// The largest amount of the type.
    spec fn max_value() -> int;

    /// The amount that stands for `v`, for `v` between 0 and `max_value()`.
    spec fn from_value(v: int) -> Self;

    /// Every amount is in range and is the amount of its integer.
    proof fn lemma_value(a: Self)
        ensures
            0 <= a.value() <= Self::max_value(),
            Self::from_value(a.value()) == a,
    ;

    /// The amount of an integer in range stands for it.
    proof fn lemma_from_value(v: int)
        requires
            0 <= v <= Self::max_value(),
        ensures
            Self::from_value(v).value() == v,
    ;

    /// Whether `self` is less than `other`.
    fn less_than(&self, other: &Self) -> (r: bool)
        ensures
            r == (self.value() < other.value()),
    ;

    /// The sum of two amounts, or `None` where it is above `max_value()`.
    fn checked_sum(&self, other: &Self) -> (r: Option<Self>)
        ensures
            r is None <==> self.value() + other.value() > Self::max_value(),
            r matches Some(sum) ==> sum.value() == self.value() + other.value(),
    ;

    /// `self` less `other`, which is not more than `self`.
    fn difference(&self, other: &Self) -> (r: Self)
        requires
            other.value() <= self.value(),
        ensures
            r.value() == self.value() - other.value(),
    ;
}

impl Balance for u64 {
    open spec fn value(self) -> int {
        self as int
    }

    open spec fn max_value() -> int {
        u64::MAX as int
    }

    open spec fn from_value(v: int) -> u64 {
        v as u64
    }

    proof fn lemma_value(a: u64) {
    }

    proof fn lemma_from_value(v: int) {
    }

    fn less_than(&self, other: &u64) -> (r: bool) {
        *self < *other
    }

    fn checked_sum(&self, other: &u64) -> (r: Option<u64>) {
        self.checked_add(*other)
    }

    fn difference(&self, other: &u64) -> (r: u64) {
        *self - *other
    }
}

impl Balance for u128 {
    open spec fn value(self) -> int {
        self as int
    }

    open spec fn max_value() -> int {
        u128::MAX as int
    }

    open spec fn from_value(v: int) -> u128 {
        v as u128
    }

    proof fn lemma_value(a: u128) {
    }

    proof fn lemma_from_value(v: int) {
    }

    fn less_than(&self, other: &u128) -> (r: bool) {
        *self < *other
    }

    fn checked_sum(&self, other: &u128) -> (r: Option<u128>) {
        self.checked_add(*other)
    }

    fn difference(&self, other: &u128) -> (r: u128) {
        *self - *other
    }
}

/// Who dispatched a call.
#[derive(Clone, Copy, Debug, PartialEq, Eq)]
pub enum Origin {
    /// The privileged root origin.
    Root,
    /// A call signed by an account.
    Signed(AccountId),
    /// An unsigned call.
    Unsigned,
}

/// What is stored for each law: its text and its current price.
#[derive(Clone, Copy, Debug, PartialEq, Eq)]
pub struct Law<B> {
    pub text: LawText,
    pub price: B,
}

/// The events that successful calls emit.
#[derive(Clone, Copy, Debug, PartialEq, Eq)]
pub enum Event<B> {
    /// `(id, text, price)`
    LawCreated(LawId, LawText, B),
    /// `(id, old text, new text, new price)`
    LawEdited(LawId, LawText, LawText, B),
    /// `(id, amount paid)`
    LawUpvoted(LawId, B),
    /// `(id, amount paid)`
    LawDownvoted(LawId, B),
    /// `(id, amount paid)`
    LawRemoved(LawId, B),
}

/// The reasons for which a call is refused.
#[derive(Clone, Copy, Debug, PartialEq, Eq)]
pub enum Error {
    /// The call was not signed.
    BadOrigin,
    /// A law is already stored under the id.
    UsedId,
    /// The signer could not pay.
    BalanceIsNotEnough,
    /// No law is stored under the id.
    MissingId,
    /// An edit offered less than the current price.
    NewPriceIsLow,
    /// A price or a payment is above the largest `Balance`.
    PriceOverflow,
    /// The text given as current is not the stored text.
    OutdatedText,
}

/// The account that signed `origin`, if it was signed.
pub open spec fn signer(origin: Origin) -> Option<AccountId> {
    match origin {
        Origin::Signed(who) => Some(who),
        _ => None,
    }
}

/// Returns the signer of `origin`, or `BadOrigin` for a root or unsigned origin.
pub fn ensure_signed(origin: Origin) -> (r: Result<AccountId, Error>)
    ensures
        r == (match signer(origin) {
            Some(who) => Ok(who),
            None => Err(Error::BadOrigin),
        }),
{
    match origin {
        Origin::Signed(who) => Ok(who),
        _ => Err(Error::BadOrigin),
    }
}

/// Compares two 32-byte arrays (an id or a text) byte by byte.
pub fn same_bytes(a: &[u8; 32], b: &[u8; 32]) -> (r: bool)
    ensures
        r == (*a == *b),
{
    let mut i: usize = 0;
    while i < 32
        invariant
            i <= 32,
            forall|j: int| 0 <= j < i ==> a[j] == b[j],
        decreases 32 - i,
    {
        if a[i] != b[i] {
            return false;
        }
        i = i + 1;
    }
    assert(*a =~= *b);
    true
}

} // verus!
