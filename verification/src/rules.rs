use vstd::prelude::*;

use crate::types::{
    ensure_signed, same_bytes, signer, AccountId, Balance, Error, Event, Law, LawId, LawText,
    Origin,
};

verus! {

/// A change to the stored law under `id`: `Some` stores the law, `None` removes it.
#[derive(Clone, Copy, Debug, PartialEq, Eq)]
pub struct Write<B> {
    pub id: LawId,
    pub law: Option<Law<B>>,
}

/// What an accepted call asks for: the payer and the amount to withdraw from
/// it, and, once the withdrawal succeeded, the writes to apply in order and
/// the events to emit.
#[derive(Debug)]
pub struct Settlement<B> {
    pub payer: AccountId,
    pub payment: B,
    pub writes: Vec<Write<B>>,
    pub events: Vec<Event<B>>,
}

/// The mathematical value of a [`Settlement`].
pub ghost struct SettlementView<B> {
    pub payer: AccountId,
    pub payment: B,
    pub writes: Seq<Write<B>>,
    pub events: Seq<Event<B>>,
}

impl<B> View for Settlement<B> {
    type V = SettlementView<B>;

    open spec fn view(&self) -> SettlementView<B> {
        SettlementView {
            payer: self.payer,
            payment: self.payment,
            writes: self.writes@,
            events: self.events@,
        }
    }
}

/// The value of a prepared call, by the view of its settlement.
pub open spec fn prepared<B: Balance>(
    r: Result<Settlement<B>, Error>,
) -> Result<SettlementView<B>, Error> {
    match r {
        Ok(s) => Ok(s@),
        Err(e) => Err(e),
    }
}

/// An accepted call that charges `payer` the amount `payment`.
pub open spec fn accepted<B: Balance>(
    payer: AccountId,
    payment: B,
    writes: Seq<Write<B>>,
    events: Seq<Event<B>>,
) -> Result<SettlementView<B>, Error> {
    Ok(SettlementView { payer, payment, writes, events })
}

/// The write that stores `law` under `id`.
pub open spec fn store<B: Balance>(id: LawId, text: LawText, price: B) -> Write<B> {
    Write { id, law: Some(Law { text, price }) }
}

/// `create`: the signer pays `price` for a new law under an unused `id`.
pub open spec fn create_rule<B: Balance>(
    origin: Origin,
    id: LawId,
    text: LawText,
    price: B,
    stored: Option<Law<B>>,
) -> Result<SettlementView<B>, Error> {
    match signer(origin) {
        None => Err(Error::BadOrigin),
        Some(who) => if stored is Some {
            Err(Error::UsedId)
        } else {
            accepted(who, price, seq![store(id, text, price)], seq![Event::LawCreated(id, text, price)])
        },
    }
}

/// `edit`: the signer pays `new_price`, at least the current price, to replace
/// the text of the law, provided `current_text` is still its text.
pub open spec fn edit_rule<B: Balance>(
    origin: Origin,
    id: LawId,
    current_text: LawText,
    new_text: LawText,
    new_price: B,
    stored: Option<Law<B>>,
) -> Result<SettlementView<B>, Error> {
    match signer(origin) {
        None => Err(Error::BadOrigin),
        Some(who) => match stored {
            None => Err(Error::MissingId),
            Some(law) => if new_price.value() < law.price.value() {
                Err(Error::NewPriceIsLow)
            } else if law.text != current_text {
                Err(Error::OutdatedText)
            } else {
                accepted(
                    who,
                    new_price,
                    seq![store(id, new_text, new_price)],
                    seq![Event::LawEdited(id, law.text, new_text, new_price)],
                )
            },
        },
    }
}

/// `create_and_edit`: one payment of both prices for a `create` and an `edit`
/// that are checked together before anything is paid or stored.
pub open spec fn create_and_edit_rule<B: Balance>(
    origin: Origin,
    create_id: LawId,
    create_text: LawText,
    create_price: B,
    edit_id: LawId,
    edit_current_text: LawText,
    edit_new_text: LawText,
    edit_new_price: B,
    create_stored: Option<Law<B>>,
    edit_stored: Option<Law<B>>,
) -> Result<SettlementView<B>, Error> {
    match signer(origin) {
        None => Err(Error::BadOrigin),
        Some(who) => if create_stored is Some {
            Err(Error::UsedId)
        } else {
            match edit_stored {
                None => Err(Error::MissingId),
                Some(law) => if edit_new_price.value() < law.price.value() {
                    Err(Error::NewPriceIsLow)
                } else if law.text != edit_current_text {
                    Err(Error::OutdatedText)
                } else if create_price.value() + edit_new_price.value() > B::max_value() {
                    Err(Error::PriceOverflow)
                } else {
                    accepted(
                        who,
                        B::from_value(create_price.value() + edit_new_price.value()),
                        seq![
                            store(create_id, create_text, create_price),
                            store(edit_id, edit_new_text, edit_new_price),
                        ],
                        seq![
                            Event::LawCreated(create_id, create_text, create_price),
                            Event::LawEdited(edit_id, law.text, edit_new_text, edit_new_price),
                        ],
                    )
                },
            }
        },
    }
}

/// `upvote`: the signer pays `price`, which is added to the price of the law.
pub open spec fn upvote_rule<B: Balance>(
    origin: Origin,
    id: LawId,
    current_text: LawText,
    price: B,
    stored: Option<Law<B>>,
) -> Result<SettlementView<B>, Error> {
    match signer(origin) {
        None => Err(Error::BadOrigin),
        Some(who) => match stored {
            None => Err(Error::MissingId),
            Some(law) => if law.text != current_text {
                Err(Error::OutdatedText)
            } else if law.price.value() + price.value() > B::max_value() {
                Err(Error::PriceOverflow)
            } else {
                accepted(
                    who,
                    price,
                    seq![store(id, law.text, B::from_value(law.price.value() + price.value()))],
                    seq![Event::LawUpvoted(id, price)],
                )
            },
        },
    }
}

/// What a downvote of `price` pays: `price`, but never more than the price of
/// the law.
pub open spec fn downvote_payment<B: Balance>(law_price: B, price: B) -> B {
    if price.value() < law_price.value() {
        price
    } else {
        law_price
    }
}

/// `downvote`: the signer pays up to `price`, and the price of the law goes
/// down by what was paid.
pub open spec fn downvote_rule<B: Balance>(
    origin: Origin,
    id: LawId,
    current_text: LawText,
    price: B,
    stored: Option<Law<B>>,
) -> Result<SettlementView<B>, Error> {
    match signer(origin) {
        None => Err(Error::BadOrigin),
        Some(who) => match stored {
            None => Err(Error::MissingId),
            Some(law) => if law.text != current_text {
                Err(Error::OutdatedText)
            } else {
                let payment = downvote_payment(law.price, price);
                accepted(
                    who,
                    payment,
                    seq![store(id, law.text, B::from_value(law.price.value() - payment.value()))],
                    seq![Event::LawDownvoted(id, payment)],
                )
            },
        },
    }
}

/// `remove`: the signer pays the price of the law to remove it.
pub open spec fn remove_rule<B: Balance>(
    origin: Origin,
    id: LawId,
    current_text: LawText,
    stored: Option<Law<B>>,
) -> Result<SettlementView<B>, Error> {
    match signer(origin) {
        None => Err(Error::BadOrigin),
        Some(who) => match stored {
            None => Err(Error::MissingId),
            Some(law) => if law.text != current_text {
                Err(Error::OutdatedText)
            } else {
                accepted(
                    who,
                    law.price,
                    seq![Write { id, law: None }],
                    seq![Event::LawRemoved(id, law.price)],
                )
            },
        },
    }
}

/// Checks a `create` against the law stored under `id` (`stored`).
pub fn prepare_create<B: Balance>(
    origin: Origin,
    id: LawId,
    text: LawText,
    price: B,
    stored: Option<Law<B>>,
) -> (r: Result<Settlement<B>, Error>)
    ensures
        prepared(r) == create_rule(origin, id, text, price, stored),
{
    let payer = ensure_signed(origin)?;
    if stored.is_some() {
        return Err(Error::UsedId);
    }
    let r = Settlement {
        payer,
        payment: price,
        writes: vec![Write { id, law: Some(Law { text, price }) }],
        events: vec![Event::LawCreated(id, text, price)],
    };
    assert(r@.writes =~= seq![store(id, text, price)]);
    assert(r@.events =~= seq![Event::LawCreated(id, text, price)]);
    Ok(r)
}

/// Checks an `edit` against the law stored under `id` (`stored`).
pub fn prepare_edit<B: Balance>(
    origin: Origin,
    id: LawId,
    current_text: LawText,
    new_text: LawText,
    new_price: B,
    stored: Option<Law<B>>,
) -> (r: Result<Settlement<B>, Error>)
    ensures
        prepared(r) == edit_rule(origin, id, current_text, new_text, new_price, stored),
{
    let payer = ensure_signed(origin)?;
    let law = match stored {
        Some(law) => law,
        None => return Err(Error::MissingId),
    };
    if new_price.less_than(&law.price) {
        return Err(Error::NewPriceIsLow);
    }
    if !same_bytes(&law.text, &current_text) {
        return Err(Error::OutdatedText);
    }
    let r = Settlement {
        payer,
        payment: new_price,
        writes: vec![Write { id, law: Some(Law { text: new_text, price: new_price }) }],
        events: vec![Event::LawEdited(id, law.text, new_text, new_price)],
    };
    assert(r@.writes =~= seq![store(id, new_text, new_price)]);
    assert(r@.events =~= seq![Event::LawEdited(id, law.text, new_text, new_price)]);
    Ok(r)
}

/// Checks a `create_and_edit` against the laws stored under `create_id`
/// (`create_stored`) and under `edit_id` (`edit_stored`).
pub fn prepare_create_and_edit<B: Balance>(
    origin: Origin,
    create_id: LawId,
    create_text: LawText,
    create_price: B,
    edit_id: LawId,
    edit_current_text: LawText,
    edit_new_text: LawText,
    edit_new_price: B,
    create_stored: Option<Law<B>>,
    edit_stored: Option<Law<B>>,
) -> (r: Result<Settlement<B>, Error>)
    ensures
        prepared(r) == create_and_edit_rule(
            origin,
            create_id,
            create_text,
            create_price,
            edit_id,
            edit_current_text,
            edit_new_text,
            edit_new_price,
            create_stored,
            edit_stored,
        ),
{
    let payer = ensure_signed(origin)?;
    if create_stored.is_some() {
        return Err(Error::UsedId);
    }
    let law = match edit_stored {
        Some(law) => law,
        None => return Err(Error::MissingId),
    };
    if edit_new_price.less_than(&law.price) {
        return Err(Error::NewPriceIsLow);
    }
    if !same_bytes(&law.text, &edit_current_text) {
        return Err(Error::OutdatedText);
    }
    let payment = match create_price.checked_sum(&edit_new_price) {
        Some(sum) => sum,
        None => return Err(Error::PriceOverflow),
    };
    proof {
        B::lemma_value(payment);
    }
    let r = Settlement {
        payer,
        payment,
        writes: vec![
            Write { id: create_id, law: Some(Law { text: create_text, price: create_price }) },
            Write { id: edit_id, law: Some(Law { text: edit_new_text, price: edit_new_price }) },
        ],
        events: vec![
            Event::LawCreated(create_id, create_text, create_price),
            Event::LawEdited(edit_id, law.text, edit_new_text, edit_new_price),
        ],
    };
    assert(r@.writes =~= seq![
        store(create_id, create_text, create_price),
        store(edit_id, edit_new_text, edit_new_price),
    ]);
    assert(r@.events =~= seq![
        Event::LawCreated(create_id, create_text, create_price),
        Event::LawEdited(edit_id, law.text, edit_new_text, edit_new_price),
    ]);
    Ok(r)
}

/// Checks an `upvote` against the law stored under `id` (`stored`).
pub fn prepare_upvote<B: Balance>(
    origin: Origin,
    id: LawId,
    current_text: LawText,
    price: B,
    stored: Option<Law<B>>,
) -> (r: Result<Settlement<B>, Error>)
    ensures
        prepared(r) == upvote_rule(origin, id, current_text, price, stored),
{
    let payer = ensure_signed(origin)?;
    let law = match stored {
        Some(law) => law,
        None => return Err(Error::MissingId),
    };
    if !same_bytes(&law.text, &current_text) {
        return Err(Error::OutdatedText);
    }
    let new_price = match law.price.checked_sum(&price) {
        Some(sum) => sum,
        None => return Err(Error::PriceOverflow),
    };
    proof {
        B::lemma_value(new_price);
    }
    let r = Settlement {
        payer,
        payment: price,
        writes: vec![Write { id, law: Some(Law { text: law.text, price: new_price }) }],
        events: vec![Event::LawUpvoted(id, price)],
    };
    assert(r@.writes =~= seq![store(id, law.text, new_price)]);
    assert(r@.events =~= seq![Event::LawUpvoted(id, price)]);
    Ok(r)
}

/// Checks a `downvote` against the law stored under `id` (`stored`).
pub fn prepare_downvote<B: Balance>(
    origin: Origin,
    id: LawId,
    current_text: LawText,
    price: B,
    stored: Option<Law<B>>,
) -> (r: Result<Settlement<B>, Error>)
    ensures
        prepared(r) == downvote_rule(origin, id, current_text, price, stored),
{
    let payer = ensure_signed(origin)?;
    let law = match stored {
        Some(law) => law,
        None => return Err(Error::MissingId),
    };
    if !same_bytes(&law.text, &current_text) {
        return Err(Error::OutdatedText);
    }
    let new_price;
    let mut payment = price;
    if price.less_than(&law.price) {
        new_price = law.price.difference(&price);
    } else {
        new_price = law.price.difference(&law.price);
        payment = law.price;
    }
    proof {
        B::lemma_value(new_price);
    }
    let r = Settlement {
        payer,
        payment,
        writes: vec![Write { id, law: Some(Law { text: law.text, price: new_price }) }],
        events: vec![Event::LawDownvoted(id, payment)],
    };
    assert(r@.writes =~= seq![store(id, law.text, new_price)]);
    assert(r@.events =~= seq![Event::LawDownvoted(id, payment)]);
    Ok(r)
}

/// Checks a `remove` against the law stored under `id` (`stored`).
pub fn prepare_remove<B: Balance>(
    origin: Origin,
    id: LawId,
    current_text: LawText,
    stored: Option<Law<B>>,
) -> (r: Result<Settlement<B>, Error>)
    ensures
        prepared(r) == remove_rule(origin, id, current_text, stored),
{
    let payer = ensure_signed(origin)?;
    let law = match stored {
        Some(law) => law,
        None => return Err(Error::MissingId),
    };
    if !same_bytes(&law.text, &current_text) {
        return Err(Error::OutdatedText);
    }
    let r = Settlement {
        payer,
        payment: law.price,
        writes: vec![Write { id, law: None }],
        events: vec![Event::LawRemoved(id, law.price)],
    };
    assert(r@.writes =~= seq![Write { id, law: None }]);
    assert(r@.events =~= seq![Event::LawRemoved(id, law.price)]);
    Ok(r)
}

/// Ends a prepared call once the withdrawal of its payment has been tried:
/// a failed withdrawal refuses the call with `BalanceIsNotEnough`.
pub fn complete<B: Balance>(
    prepared_call: Result<Settlement<B>, Error>,
    withdrawn: bool,
) -> (r: Result<Settlement<B>, Error>)
    ensures
        prepared(r) == (match prepared(prepared_call) {
            Ok(s) => if withdrawn { Ok(s) } else { Err(Error::BalanceIsNotEnough) },
            Err(e) => Err(e),
        }),
{
    let s = prepared_call?;
    if withdrawn {
        Ok(s)
    } else {
        Err(Error::BalanceIsNotEnough)
    }
}

/// `withdraw` accepts the payer and the payment of the call that `rule`
/// describes, if that call is accepted by its checks. Nothing is asked of it
/// for a refused call, which never withdraws.
pub open spec fn accepts_payment<B: Balance, F: FnOnce(AccountId, B) -> bool>(
    withdraw: F,
    rule: Result<SettlementView<B>, Error>,
) -> bool {
    rule matches Ok(s) ==> call_requires(withdraw, (s.payer, s.payment))
}

/// What charging a call whose checks gave `rule` answered: the refusal of the
/// checks, with no withdrawal; else the settlement, or `BalanceIsNotEnough`,
/// as some outcome of `withdraw` on the payer and the payment decided.
pub open spec fn charged<B: Balance, F: FnOnce(AccountId, B) -> bool>(
    withdraw: F,
    rule: Result<SettlementView<B>, Error>,
    r: Result<SettlementView<B>, Error>,
) -> bool {
    match rule {
        Err(e) => r == Err::<SettlementView<B>, Error>(e),
        Ok(s) => exists|withdrawn: bool|
            #[trigger] call_ensures(withdraw, (s.payer, s.payment), withdrawn)
                && r == (if withdrawn { rule } else { Err(Error::BalanceIsNotEnough) }),
    }
}

/// Charges a prepared call: a call refused by its checks is answered with
/// their error and `withdraw` is not called; an accepted call is paid by one
/// call of `withdraw` on its payer and payment, and refused with
/// `BalanceIsNotEnough` if that withdrawal failed.
pub fn charge<B: Balance, F: FnOnce(AccountId, B) -> bool>(
    prepared_call: Result<Settlement<B>, Error>,
    withdraw: F,
) -> (r: Result<Settlement<B>, Error>)
    requires
        accepts_payment(withdraw, prepared(prepared_call)),
    ensures
        charged(withdraw, prepared(prepared_call), prepared(r)),
{
    let s = match prepared_call {
        Ok(s) => s,
        Err(e) => return Err(e),
    };
    let ghost rule: Result<SettlementView<B>, Error> = Ok(s@);
    let withdrawn = withdraw(s.payer, s.payment);
    assert(call_ensures(withdraw, (rule->Ok_0.payer, rule->Ok_0.payment), withdrawn));
    complete(Ok(s), withdrawn)
}

} // verus!
