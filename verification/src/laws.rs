use vstd::prelude::*;

use crate::pallet::{answer, apply_writes, dispatched, lookup, settle};
use crate::rules::{
    accepts_payment, charged, create_and_edit_rule, create_rule, downvote_payment, downvote_rule, edit_rule,
    remove_rule, upvote_rule, SettlementView, Write,
};
use crate::types::{signer, AccountId, Balance, Error, Event, Law, LawId, LawText, Origin};

verus! {

/// The table after one call that was accepted and paid.
pub open spec fn after<B: Balance>(table: Map<LawId, Law<B>>, rule: Result<SettlementView<B>, Error>) -> Map<LawId, Law<B>> {
    settle(table, rule, true).0
}

/// A refused call, whether refused by its checks or by a failed withdrawal,
/// leaves every stored law as it was.
pub proof fn lemma_refused_call_keeps_table<B: Balance>(
    table: Map<LawId, Law<B>>,
    rule: Result<SettlementView<B>, Error>,
    withdrawn: bool,
)
    requires
        settle(table, rule, withdrawn).1 is Err,
    ensures
        settle(table, rule, withdrawn).0 == table,
{
}

/// Writes change only the laws under the ids they name.
pub proof fn lemma_writes_touch_only_their_ids<B: Balance>(table: Map<LawId, Law<B>>, ws: Seq<Write<B>>, k: LawId)
    requires
        forall|i: int| 0 <= i < ws.len() ==> ws[i].id != k,
    ensures
        lookup(apply_writes(table, ws), k) == lookup(table, k),
    decreases ws.len(),
{
    if ws.len() > 0 {
        lemma_writes_touch_only_their_ids(table, ws.drop_last(), k);
    }
}

/// An accepted create stores the law under its id, and only there.
pub proof fn lemma_create_then_read<B: Balance>(
    table: Map<LawId, Law<B>>,
    origin: Origin,
    id: LawId,
    text: LawText,
    price: B,
    k: LawId,
)
    requires
        create_rule(origin, id, text, price, lookup(table, id)) is Ok,
    ensures
        lookup(after(table, create_rule(origin, id, text, price, lookup(table, id))), id)
            == Some(Law { text, price }),
        k != id ==> lookup(after(table, create_rule(origin, id, text, price, lookup(table, id))), k)
            == lookup(table, k),
{
    reveal_with_fuel(apply_writes, 2);
}

/// A create is accepted exactly for a signed call under an unused id, and
/// then charges the signer the price of the law.
pub proof fn lemma_create_accepted_iff_unused<B: Balance>(
    table: Map<LawId, Law<B>>,
    origin: Origin,
    id: LawId,
    text: LawText,
    price: B,
)
    ensures
        create_rule(origin, id, text, price, lookup(table, id)) is Ok
            <==> (signer(origin) is Some && !table.contains_key(id)),
        create_rule(origin, id, text, price, lookup(table, id)) matches Ok(s)
            ==> s.payer == signer(origin)->0 && s.payment == price,
{
}

/// An accepted edit stores the new text at the new price, which is never
/// below the price it replaces.
pub proof fn lemma_edit_then_read<B: Balance>(
    table: Map<LawId, Law<B>>,
    origin: Origin,
    id: LawId,
    current_text: LawText,
    new_text: LawText,
    new_price: B,
)
    requires
        edit_rule(origin, id, current_text, new_text, new_price, lookup(table, id)) is Ok,
    ensures
        table.contains_key(id),
        table[id].text == current_text,
        table[id].price.value() <= new_price.value(),
        lookup(after(table, edit_rule(origin, id, current_text, new_text, new_price, lookup(table, id))), id)
            == Some(Law { text: new_text, price: new_price }),
{
    reveal_with_fuel(apply_writes, 2);
}

/// An accepted upvote keeps the text and raises the price by exactly what
/// the signer paid.
pub proof fn lemma_upvote_adds_payment<B: Balance>(
    table: Map<LawId, Law<B>>,
    origin: Origin,
    id: LawId,
    current_text: LawText,
    price: B,
)
    requires
        upvote_rule(origin, id, current_text, price, lookup(table, id)) is Ok,
    ensures
        ({
            let s = upvote_rule(origin, id, current_text, price, lookup(table, id))->Ok_0;
            let post = after(table, upvote_rule(origin, id, current_text, price, lookup(table, id)));
            &&& s.payment == price
            &&& post.contains_key(id)
            &&& post[id].text == table[id].text
            &&& post[id].price.value() == table[id].price.value() + s.payment.value()
        }),
{
    reveal_with_fuel(apply_writes, 2);
    B::lemma_value(price);
    B::lemma_value(table[id].price);
    B::lemma_from_value(table[id].price.value() + price.value());
}

/// An accepted downvote keeps the text and lowers the price by exactly what
/// the signer paid, which is the offered amount or, if that is more, the
/// whole price; the price never goes below zero.
pub proof fn lemma_downvote_takes_payment<B: Balance>(
    table: Map<LawId, Law<B>>,
    origin: Origin,
    id: LawId,
    current_text: LawText,
    price: B,
)
    requires
        downvote_rule(origin, id, current_text, price, lookup(table, id)) is Ok,
    ensures
        ({
            let s = downvote_rule(origin, id, current_text, price, lookup(table, id))->Ok_0;
            let post = after(table, downvote_rule(origin, id, current_text, price, lookup(table, id)));
            &&& s.payment.value() <= price.value()
            &&& s.payment.value() <= table[id].price.value()
            &&& (s.payment == price || s.payment == table[id].price)
            &&& post.contains_key(id)
            &&& post[id].text == table[id].text
            &&& post[id].price.value() + s.payment.value() == table[id].price.value()
        }),
{
    reveal_with_fuel(apply_writes, 2);
    B::lemma_value(price);
    B::lemma_value(table[id].price);
    B::lemma_from_value(table[id].price.value() - downvote_payment(table[id].price, price).value());
}

/// An accepted remove charges the price of the law and leaves no law under
/// its id.
pub proof fn lemma_remove_then_read<B: Balance>(
    table: Map<LawId, Law<B>>,
    origin: Origin,
    id: LawId,
    current_text: LawText,
)
    requires
        remove_rule(origin, id, current_text, lookup(table, id)) is Ok,
    ensures
        remove_rule(origin, id, current_text, lookup(table, id))->Ok_0.payment == table[id].price,
        lookup(after(table, remove_rule(origin, id, current_text, lookup(table, id))), id) is None,
{
    reveal_with_fuel(apply_writes, 2);
}

/// Creating a law under an unused id and then removing it with the text it
/// was created with gives back the table as it was.
pub proof fn lemma_create_then_remove_restores<B: Balance>(
    table: Map<LawId, Law<B>>,
    creator: Origin,
    remover: Origin,
    id: LawId,
    text: LawText,
    price: B,
)
    requires
        signer(creator) is Some,
        signer(remover) is Some,
        !table.contains_key(id),
    ensures
        ({
            let created = after(table, create_rule(creator, id, text, price, lookup(table, id)));
            let removed = after(created, remove_rule(remover, id, text, lookup(created, id)));
            &&& remove_rule(remover, id, text, lookup(created, id)) is Ok
            &&& removed == table
        }),
{
    reveal_with_fuel(apply_writes, 2);
    let created = after(table, create_rule(creator, id, text, price, lookup(table, id)));
    assert(created == table.insert(id, Law { text, price }));
    assert(created.remove(id) =~= table);
}

/// A create and an edit of one id in one call are always refused.
pub proof fn lemma_create_and_edit_same_id_refused<B: Balance>(
    table: Map<LawId, Law<B>>,
    origin: Origin,
    id: LawId,
    create_text: LawText,
    create_price: B,
    edit_current_text: LawText,
    edit_new_text: LawText,
    edit_new_price: B,
)
    ensures
        create_and_edit_rule(
            origin,
            id,
            create_text,
            create_price,
            id,
            edit_current_text,
            edit_new_text,
            edit_new_price,
            lookup(table, id),
            lookup(table, id),
        ) is Err,
{
}

/// An accepted create_and_edit charges the sum of both prices once, and
/// leaves the table and the events that a create followed by an edit leave.
pub proof fn lemma_create_and_edit_is_create_then_edit<B: Balance>(
    table: Map<LawId, Law<B>>,
    origin: Origin,
    create_id: LawId,
    create_text: LawText,
    create_price: B,
    edit_id: LawId,
    edit_current_text: LawText,
    edit_new_text: LawText,
    edit_new_price: B,
)
    requires
        create_and_edit_rule(
            origin,
            create_id,
            create_text,
            create_price,
            edit_id,
            edit_current_text,
            edit_new_text,
            edit_new_price,
            lookup(table, create_id),
            lookup(table, edit_id),
        ) is Ok,
    ensures
        ({
            let both = create_and_edit_rule(
                origin,
                create_id,
                create_text,
                create_price,
                edit_id,
                edit_current_text,
                edit_new_text,
                edit_new_price,
                lookup(table, create_id),
                lookup(table, edit_id),
            );
            let create = create_rule(origin, create_id, create_text, create_price, lookup(table, create_id));
            let created = after(table, create);
            let edit = edit_rule(
                origin,
                edit_id,
                edit_current_text,
                edit_new_text,
                edit_new_price,
                lookup(created, edit_id),
            );
            &&& create is Ok
            &&& edit is Ok
            &&& both->Ok_0.payment.value() == create->Ok_0.payment.value() + edit->Ok_0.payment.value()
            &&& both->Ok_0.events == create->Ok_0.events + edit->Ok_0.events
            &&& after(table, both) == after(created, edit)
        }),
{
    reveal_with_fuel(apply_writes, 3);
    B::lemma_value(create_price);
    B::lemma_value(edit_new_price);
    B::lemma_from_value(create_price.value() + edit_new_price.value());
    let both = create_and_edit_rule(
        origin,
        create_id,
        create_text,
        create_price,
        edit_id,
        edit_current_text,
        edit_new_text,
        edit_new_price,
        lookup(table, create_id),
        lookup(table, edit_id),
    );
    let create = create_rule(origin, create_id, create_text, create_price, lookup(table, create_id));
    let created = after(table, create);
    assert(create_id != edit_id);
    assert(lookup(created, edit_id) == lookup(table, edit_id));
    let edit = edit_rule(
        origin,
        edit_id,
        edit_current_text,
        edit_new_text,
        edit_new_price,
        lookup(created, edit_id),
    );
    assert(both->Ok_0.events =~= create->Ok_0.events + edit->Ok_0.events);
    assert(both->Ok_0.writes.drop_last() =~= seq![both->Ok_0.writes[0]]);
    assert(seq![both->Ok_0.writes[0]].drop_last() =~= Seq::<Write<B>>::empty());
}

/// What a call of the pallet did, whatever the withdrawal answered: a call
/// refused by its checks answers their error and pays nothing; an accepted
/// call either was paid, answered its events and applied its writes, or was
/// refused with `BalanceIsNotEnough`; every refused call left the table as
/// it was.
pub proof fn lemma_dispatch_outcome<B: Balance, F: FnOnce(AccountId, B) -> bool>(
    withdraw: F,
    rule: Result<SettlementView<B>, Error>,
    pre: Map<LawId, Law<B>>,
    post: Map<LawId, Law<B>>,
    r: Result<Vec<Event<B>>, Error>,
)
    requires
        dispatched(withdraw, rule, pre, post, r),
    ensures
        r is Err ==> post == pre,
        rule matches Err(e) ==> r == Err::<Vec<Event<B>>, Error>(e),
        rule is Ok ==> (r is Ok || r == Err::<Vec<Event<B>>, Error>(Error::BalanceIsNotEnough)),
        r is Ok ==> rule is Ok && post == after(pre, rule) && answer(r) == Ok::<Seq<Event<B>>, Error>(
            rule->Ok_0.events,
        ),
        r is Ok ==> call_ensures(withdraw, (rule->Ok_0.payer, rule->Ok_0.payment), true),
        rule is Ok && r is Err ==> call_ensures(
            withdraw,
            (rule->Ok_0.payer, rule->Ok_0.payment),
            false,
        ),
{
}

/// A call on a stored law that names a current text other than the stored
/// one is refused with `OutdatedText` (an edit once its price is high enough).
pub proof fn lemma_stale_text_refused<B: Balance>(
    table: Map<LawId, Law<B>>,
    origin: Origin,
    id: LawId,
    current_text: LawText,
    new_text: LawText,
    price: B,
)
    requires
        signer(origin) is Some,
        table.contains_key(id),
        table[id].text != current_text,
    ensures
        upvote_rule(origin, id, current_text, price, lookup(table, id)) == Err::<SettlementView<B>, Error>(Error::OutdatedText),
        downvote_rule(origin, id, current_text, price, lookup(table, id)) == Err::<SettlementView<B>, Error>(Error::OutdatedText),
        remove_rule(origin, id, current_text, lookup(table, id)) == Err::<SettlementView<B>, Error>(Error::OutdatedText),
        table[id].price.value() <= price.value() ==> edit_rule(origin, id, current_text, new_text, price, lookup(table, id))
            == Err::<SettlementView<B>, Error>(Error::OutdatedText),
{
}

/// A call refused by its checks asks nothing of the withdrawal: the calls
/// accept, for such a call, a withdrawal that accepts no payer and no amount,
/// so it is never called.
pub proof fn lemma_refused_call_needs_no_withdrawal<B: Balance, F: FnOnce(AccountId, B) -> bool>(
    withdraw: F,
    rule: Result<SettlementView<B>, Error>,
)
    requires
        rule is Err,
    ensures
        accepts_payment(withdraw, rule),
{
}

/// A create followed by an edit of another id, both accepted and with a sum
/// of prices that fits in a `Balance`, is one accepted create_and_edit that
/// charges the sum once and leaves the same table and events.
pub proof fn lemma_create_then_edit_is_create_and_edit<B: Balance>(
    table: Map<LawId, Law<B>>,
    origin: Origin,
    create_id: LawId,
    create_text: LawText,
    create_price: B,
    edit_id: LawId,
    edit_current_text: LawText,
    edit_new_text: LawText,
    edit_new_price: B,
)
    requires
        create_id != edit_id,
        create_price.value() + edit_new_price.value() <= B::max_value(),
        create_rule(origin, create_id, create_text, create_price, lookup(table, create_id)) is Ok,
        edit_rule(
            origin,
            edit_id,
            edit_current_text,
            edit_new_text,
            edit_new_price,
            lookup(
                after(table, create_rule(origin, create_id, create_text, create_price, lookup(table, create_id))),
                edit_id,
            ),
        ) is Ok,
    ensures
        ({
            let both = create_and_edit_rule(
                origin,
                create_id,
                create_text,
                create_price,
                edit_id,
                edit_current_text,
                edit_new_text,
                edit_new_price,
                lookup(table, create_id),
                lookup(table, edit_id),
            );
            let create = create_rule(origin, create_id, create_text, create_price, lookup(table, create_id));
            let created = after(table, create);
            let edit = edit_rule(
                origin,
                edit_id,
                edit_current_text,
                edit_new_text,
                edit_new_price,
                lookup(created, edit_id),
            );
            &&& both is Ok
            &&& both->Ok_0.payment.value() == create->Ok_0.payment.value() + edit->Ok_0.payment.value()
            &&& both->Ok_0.events == create->Ok_0.events + edit->Ok_0.events
            &&& after(table, both) == after(created, edit)
        }),
{
    reveal_with_fuel(apply_writes, 2);
    let create = create_rule(origin, create_id, create_text, create_price, lookup(table, create_id));
    let created = after(table, create);
    assert(lookup(created, edit_id) == lookup(table, edit_id));
    lemma_create_and_edit_is_create_then_edit(
        table,
        origin,
        create_id,
        create_text,
        create_price,
        edit_id,
        edit_current_text,
        edit_new_text,
        edit_new_price,
    );
}

/// Two accepted upvotes of one law leave the table that one upvote of the
/// sum leaves, and the upvote of the sum is accepted; conversely, an
/// accepted upvote of a sum can be split into two accepted upvotes.
pub proof fn lemma_two_upvotes_are_one_of_the_sum<B: Balance>(
    table: Map<LawId, Law<B>>,
    origin: Origin,
    id: LawId,
    current_text: LawText,
    first: B,
    second: B,
)
    requires
        first.value() + second.value() <= B::max_value(),
    ensures
        ({
            let one = upvote_rule(origin, id, current_text, first, lookup(table, id));
            let mid = after(table, one);
            let two = upvote_rule(origin, id, current_text, second, lookup(mid, id));
            let sum = upvote_rule(origin, id, current_text, B::from_value(first.value() + second.value()), lookup(table, id));
            &&& (one is Ok && two is Ok) <==> sum is Ok
            &&& sum is Ok ==> after(mid, two) == after(table, sum)
                && sum->Ok_0.payment.value() == one->Ok_0.payment.value() + two->Ok_0.payment.value()
        }),
{
    reveal_with_fuel(apply_writes, 2);
    B::lemma_value(first);
    B::lemma_value(second);
    B::lemma_from_value(first.value() + second.value());
    if table.contains_key(id) {
        let p = table[id].price.value();
        B::lemma_value(table[id].price);
        if p + first.value() <= B::max_value() {
            B::lemma_from_value(p + first.value());
        }
        if p + first.value() + second.value() <= B::max_value() {
            B::lemma_from_value(p + first.value() + second.value());
        }
    }
    let one = upvote_rule(origin, id, current_text, first, lookup(table, id));
    let mid = after(table, one);
    let two = upvote_rule(origin, id, current_text, second, lookup(mid, id));
    let sum = upvote_rule(origin, id, current_text, B::from_value(first.value() + second.value()), lookup(table, id));
    if sum is Ok {
        assert(one is Ok);
        assert(lookup(mid, id) == Some(Law { text: table[id].text, price: B::from_value(table[id].price.value() + first.value()) }));
        assert(two is Ok);
        assert(after(mid, two) =~= after(table, sum));
    }
    if one is Ok && two is Ok {
        assert(lookup(mid, id) == Some(Law { text: table[id].text, price: B::from_value(table[id].price.value() + first.value()) }));
    }
}

/// Every create, from the table it reads: an unsigned call is refused with
/// `BadOrigin`, a used id with `UsedId`; any other create is accepted, charges
/// its signer the price, emits `LawCreated` and stores the law under its id.
pub proof fn lemma_create_by_table<B: Balance>(
    table: Map<LawId, Law<B>>,
    origin: Origin,
    id: LawId,
    text: LawText,
    price: B,
)
    ensures
        ({
            let rule = create_rule(origin, id, text, price, lookup(table, id));
            &&& signer(origin) is None ==> rule == Err::<SettlementView<B>, Error>(Error::BadOrigin)
            &&& signer(origin) is Some && table.contains_key(id) ==> rule == Err::<
                SettlementView<B>,
                Error,
            >(Error::UsedId)
            &&& signer(origin) is Some && !table.contains_key(id) ==> {
                &&& rule is Ok
                &&& rule->Ok_0.payer == signer(origin)->0
                &&& rule->Ok_0.payment == price
                &&& rule->Ok_0.events == seq![Event::LawCreated(id, text, price)]
                &&& after(table, rule) == table.insert(id, Law { text, price })
            }
        }),
{
    reveal_with_fuel(apply_writes, 2);
}

/// Every edit, from the table it reads, in the order of its checks: an
/// unsigned call is refused with `BadOrigin`, a missing id with `MissingId`, a
/// new price below the stored one with `NewPriceIsLow`, a current text other
/// than the stored one with `OutdatedText`. Any other edit, whatever its new
/// text, is accepted: it charges its signer the new price, emits `LawEdited`
/// with the replaced text, and stores the new text at the new price.
pub proof fn lemma_edit_by_table<B: Balance>(
    table: Map<LawId, Law<B>>,
    origin: Origin,
    id: LawId,
    current_text: LawText,
    new_text: LawText,
    new_price: B,
)
    ensures
        ({
            let rule = edit_rule(origin, id, current_text, new_text, new_price, lookup(table, id));
            let checked = signer(origin) is Some && table.contains_key(id);
            &&& signer(origin) is None ==> rule == Err::<SettlementView<B>, Error>(Error::BadOrigin)
            &&& signer(origin) is Some && !table.contains_key(id) ==> rule == Err::<
                SettlementView<B>,
                Error,
            >(Error::MissingId)
            &&& checked && new_price.value() < table[id].price.value() ==> rule == Err::<
                SettlementView<B>,
                Error,
            >(Error::NewPriceIsLow)
            &&& checked && table[id].price.value() <= new_price.value() && table[id].text
                != current_text ==> rule == Err::<SettlementView<B>, Error>(Error::OutdatedText)
            &&& rule is Ok <==> (checked && table[id].price.value() <= new_price.value()
                && table[id].text == current_text)
            &&& rule is Ok ==> {
                &&& rule->Ok_0.payer == signer(origin)->0
                &&& rule->Ok_0.payment == new_price
                &&& rule->Ok_0.events == seq![
                    Event::LawEdited(id, table[id].text, new_text, new_price),
                ]
                &&& after(table, rule) == table.insert(id, Law { text: new_text, price: new_price })
            }
        }),
{
    reveal_with_fuel(apply_writes, 2);
}

/// Every create_and_edit, from the table it reads, in the order of its
/// checks: `BadOrigin`, `UsedId` for a used create id, `MissingId` for a
/// missing edit id, `NewPriceIsLow`, `OutdatedText`, and `PriceOverflow` where
/// the two prices sum above the largest balance. Any other call is accepted:
/// it charges its signer the sum once, emits `LawCreated` then `LawEdited`,
/// and stores both laws.
pub proof fn lemma_create_and_edit_by_table<B: Balance>(
    table: Map<LawId, Law<B>>,
    origin: Origin,
    create_id: LawId,
    create_text: LawText,
    create_price: B,
    edit_id: LawId,
    edit_current_text: LawText,
    edit_new_text: LawText,
    edit_new_price: B,
)
    ensures
        ({
            let rule = create_and_edit_rule(
                origin,
                create_id,
                create_text,
                create_price,
                edit_id,
                edit_current_text,
                edit_new_text,
                edit_new_price,
                lookup(table, create_id),
                lookup(table, edit_id),
            );
            let signed = signer(origin) is Some;
            let fresh = signed && !table.contains_key(create_id);
            let checked = fresh && table.contains_key(edit_id);
            let priced = checked && table[edit_id].price.value() <= edit_new_price.value();
            let current = priced && table[edit_id].text == edit_current_text;
            let sum = create_price.value() + edit_new_price.value();
            &&& !signed ==> rule == Err::<SettlementView<B>, Error>(Error::BadOrigin)
            &&& signed && table.contains_key(create_id) ==> rule == Err::<
                SettlementView<B>,
                Error,
            >(Error::UsedId)
            &&& fresh && !table.contains_key(edit_id) ==> rule == Err::<SettlementView<B>, Error>(
                Error::MissingId,
            )
            &&& checked && edit_new_price.value() < table[edit_id].price.value() ==> rule
                == Err::<SettlementView<B>, Error>(Error::NewPriceIsLow)
            &&& priced && table[edit_id].text != edit_current_text ==> rule == Err::<
                SettlementView<B>,
                Error,
            >(Error::OutdatedText)
            &&& current && sum > B::max_value() ==> rule == Err::<SettlementView<B>, Error>(
                Error::PriceOverflow,
            )
            &&& rule is Ok <==> (current && sum <= B::max_value())
            &&& rule is Ok ==> {
                &&& rule->Ok_0.payer == signer(origin)->0
                &&& rule->Ok_0.payment.value() == sum
                &&& rule->Ok_0.events == seq![
                    Event::LawCreated(create_id, create_text, create_price),
                    Event::LawEdited(edit_id, table[edit_id].text, edit_new_text, edit_new_price),
                ]
                &&& after(table, rule) == table.insert(
                    create_id,
                    Law { text: create_text, price: create_price },
                ).insert(edit_id, Law { text: edit_new_text, price: edit_new_price })
            }
        }),
{
    reveal_with_fuel(apply_writes, 3);
    B::lemma_value(create_price);
    B::lemma_value(edit_new_price);
    if create_price.value() + edit_new_price.value() <= B::max_value() {
        B::lemma_from_value(create_price.value() + edit_new_price.value());
    }
}

/// Every upvote, from the table it reads, in the order of its checks:
/// `BadOrigin`, `MissingId`, `OutdatedText`, and `PriceOverflow` where the
/// new price would be above the largest balance. Any other upvote is
/// accepted: it charges its signer the offered price, emits `LawUpvoted`,
/// keeps the text and raises the stored price by the offered price.
pub proof fn lemma_upvote_by_table<B: Balance>(
    table: Map<LawId, Law<B>>,
    origin: Origin,
    id: LawId,
    current_text: LawText,
    price: B,
)
    ensures
        ({
            let rule = upvote_rule(origin, id, current_text, price, lookup(table, id));
            let checked = signer(origin) is Some && table.contains_key(id);
            let current = checked && table[id].text == current_text;
            let raised = table[id].price.value() + price.value();
            let post = after(table, rule);
            &&& signer(origin) is None ==> rule == Err::<SettlementView<B>, Error>(Error::BadOrigin)
            &&& signer(origin) is Some && !table.contains_key(id) ==> rule == Err::<
                SettlementView<B>,
                Error,
            >(Error::MissingId)
            &&& checked && table[id].text != current_text ==> rule == Err::<
                SettlementView<B>,
                Error,
            >(Error::OutdatedText)
            &&& current && raised > B::max_value() ==> rule == Err::<SettlementView<B>, Error>(
                Error::PriceOverflow,
            )
            &&& rule is Ok <==> (current && raised <= B::max_value())
            &&& rule is Ok ==> {
                &&& rule->Ok_0.payer == signer(origin)->0
                &&& rule->Ok_0.payment == price
                &&& rule->Ok_0.events == seq![Event::LawUpvoted(id, price)]
                &&& post == table.insert(id, Law { text: table[id].text, price: post[id].price })
                &&& post[id].price.value() == raised
            }
        }),
{
    reveal_with_fuel(apply_writes, 2);
    B::lemma_value(price);
    if table.contains_key(id) {
        B::lemma_value(table[id].price);
        if table[id].price.value() + price.value() <= B::max_value() {
            B::lemma_from_value(table[id].price.value() + price.value());
        }
    }
}

/// Every downvote, from the table it reads, in the order of its checks:
/// `BadOrigin`, `MissingId`, `OutdatedText`. Any other downvote is accepted,
/// whatever the offered price: it charges its signer the offered price, or
/// the stored price if that is not more, emits `LawDownvoted` with what was
/// charged, keeps the text and lowers the stored price by what was charged.
pub proof fn lemma_downvote_by_table<B: Balance>(
    table: Map<LawId, Law<B>>,
    origin: Origin,
    id: LawId,
    current_text: LawText,
    price: B,
)
    ensures
        ({
            let rule = downvote_rule(origin, id, current_text, price, lookup(table, id));
            let checked = signer(origin) is Some && table.contains_key(id);
            let charged = if price.value() < table[id].price.value() {
                price
            } else {
                table[id].price
            };
            let post = after(table, rule);
            &&& signer(origin) is None ==> rule == Err::<SettlementView<B>, Error>(Error::BadOrigin)
            &&& signer(origin) is Some && !table.contains_key(id) ==> rule == Err::<
                SettlementView<B>,
                Error,
            >(Error::MissingId)
            &&& checked && table[id].text != current_text ==> rule == Err::<
                SettlementView<B>,
                Error,
            >(Error::OutdatedText)
            &&& rule is Ok <==> (checked && table[id].text == current_text)
            &&& rule is Ok ==> {
                &&& rule->Ok_0.payer == signer(origin)->0
                &&& rule->Ok_0.payment == charged
                &&& rule->Ok_0.events == seq![Event::LawDownvoted(id, charged)]
                &&& post == table.insert(id, Law { text: table[id].text, price: post[id].price })
                &&& post[id].price.value() == table[id].price.value() - charged.value()
            }
        }),
{
    reveal_with_fuel(apply_writes, 2);
    B::lemma_value(price);
    if table.contains_key(id) {
        B::lemma_value(table[id].price);
        let charged = downvote_payment(table[id].price, price);
        B::lemma_from_value(table[id].price.value() - charged.value());
    }
}

/// Every remove, from the table it reads, in the order of its checks:
/// `BadOrigin`, `MissingId`, `OutdatedText`. Any other remove is accepted: it
/// charges its signer the stored price, emits `LawRemoved` with that price,
/// and removes the law under its id, and only it.
pub proof fn lemma_remove_by_table<B: Balance>(
    table: Map<LawId, Law<B>>,
    origin: Origin,
    id: LawId,
    current_text: LawText,
)
    ensures
        ({
            let rule = remove_rule(origin, id, current_text, lookup(table, id));
            let checked = signer(origin) is Some && table.contains_key(id);
            &&& signer(origin) is None ==> rule == Err::<SettlementView<B>, Error>(Error::BadOrigin)
            &&& signer(origin) is Some && !table.contains_key(id) ==> rule == Err::<
                SettlementView<B>,
                Error,
            >(Error::MissingId)
            &&& checked && table[id].text != current_text ==> rule == Err::<
                SettlementView<B>,
                Error,
            >(Error::OutdatedText)
            &&& rule is Ok <==> (checked && table[id].text == current_text)
            &&& rule is Ok ==> {
                &&& rule->Ok_0.payer == signer(origin)->0
                &&& rule->Ok_0.payment == table[id].price
                &&& rule->Ok_0.events == seq![Event::LawRemoved(id, table[id].price)]
                &&& after(table, rule) == table.remove(id)
            }
        }),
{
    reveal_with_fuel(apply_writes, 2);
}

/// Only a signed origin has a signer, and it is the account that signed.
pub proof fn lemma_signer_is_the_signing_account(origin: Origin)
    ensures
        signer(origin) is Some <==> origin is Signed,
        origin matches Origin::Signed(who) ==> signer(origin) == Some(who),
{
}

/// Charging a call answers the refusal of its checks as it is, and an
/// accepted call either as it was prepared or with `BalanceIsNotEnough`; it
/// answers the prepared call exactly when some outcome of the withdrawal on
/// its payer and payment was a success.
pub proof fn lemma_charge_outcome<B: Balance, F: FnOnce(AccountId, B) -> bool>(
    withdraw: F,
    rule: Result<SettlementView<B>, Error>,
    r: Result<SettlementView<B>, Error>,
)
    requires
        charged(withdraw, rule, r),
    ensures
        rule matches Err(e) ==> r == Err::<SettlementView<B>, Error>(e),
        rule is Ok ==> (r == rule || r == Err::<SettlementView<B>, Error>(Error::BalanceIsNotEnough)),
        rule is Ok && r == rule ==> call_ensures(withdraw, (rule->Ok_0.payer, rule->Ok_0.payment), true),
        rule is Ok && r is Err ==> call_ensures(withdraw, (rule->Ok_0.payer, rule->Ok_0.payment), false),
{
}

} // verus!
