use vstd::prelude::*;

use crate::rules::{
    accepts_payment, charge, create_and_edit_rule, create_rule, downvote_rule, edit_rule,
    prepare_create, prepare_create_and_edit, prepare_downvote, prepare_edit, prepare_remove,
    prepare_upvote, prepared, remove_rule, upvote_rule, Settlement, SettlementView, Write,
};
use crate::types::{same_bytes, AccountId, Balance, Error, Event, Law, LawId, LawText, Origin};

verus! {

/// The law stored under `id` in `table`, if any.
pub open spec fn lookup<B: Balance>(table: Map<LawId, Law<B>>, id: LawId) -> Option<Law<B>> {
    if table.contains_key(id) {
        Some(table[id])
    } else {
        None
    }
}

/// `table` after one write.
pub open spec fn apply_write<B: Balance>(
    table: Map<LawId, Law<B>>,
    w: Write<B>,
) -> Map<LawId, Law<B>> {
    match w.law {
        Some(law) => table.insert(w.id, law),
        None => table.remove(w.id),
    }
}

/// `table` after the writes `ws`, applied in order.
pub open spec fn apply_writes<B: Balance>(
    table: Map<LawId, Law<B>>,
    ws: Seq<Write<B>>,
) -> Map<LawId, Law<B>>
    decreases ws.len(),
{
    if ws.len() == 0 {
        table
    } else {
        apply_write(apply_writes(table, ws.drop_last()), ws.last())
    }
}

/// The table and the answer after a call whose checks gave `rule`, when the
/// withdrawal of its payment succeeded (`withdrawn`) or failed. A refused call
/// leaves the table as it was.
pub open spec fn settle<B: Balance>(
    table: Map<LawId, Law<B>>,
    rule: Result<SettlementView<B>, Error>,
    withdrawn: bool,
) -> (Map<LawId, Law<B>>, Result<Seq<Event<B>>, Error>) {
    match rule {
        Err(e) => (table, Err(e)),
        Ok(s) => if withdrawn {
            (apply_writes(table, s.writes), Ok(s.events))
        } else {
            (table, Err(Error::BalanceIsNotEnough))
        },
    }
}

/// The answer of a call by the view of its events.
pub open spec fn answer<B: Balance>(
    r: Result<Vec<Event<B>>, Error>,
) -> Result<Seq<Event<B>>, Error> {
    match r {
        Ok(events) => Ok(events@),
        Err(e) => Err(e),
    }
}

/// A call whose checks gave `rule` took the table from `pre` to `post` and
/// answered `r`: refused with the error of its checks where they failed, else
/// settled by some outcome of `withdraw` on the payer and the payment. That a
/// refused call does not withdraw comes from the calls' `requires`
/// ([`accepts_payment`]): `withdraw` need not accept any payer and amount
/// but those of an accepted call.
pub open spec fn dispatched<B: Balance, F: FnOnce(AccountId, B) -> bool>(
    withdraw: F,
    rule: Result<SettlementView<B>, Error>,
    pre: Map<LawId, Law<B>>,
    post: Map<LawId, Law<B>>,
    r: Result<Vec<Event<B>>, Error>,
) -> bool {
    match rule {
        Err(e) => post == pre && r == Err::<Vec<Event<B>>, Error>(e),
        Ok(s) => exists|withdrawn: bool|
            #[trigger] call_ensures(withdraw, (s.payer, s.payment), withdrawn)
                && settle(pre, rule, withdrawn) == (post, answer(r)),
    }
}

/// One stored law.
#[derive(Clone, Copy, Debug)]
struct Entry<B> {
    id: LawId,
    law: Law<B>,
}

/// The laws pallet: the table of stored laws, and the calls that change it.
pub struct Pallet<B> {
    entries: Vec<Entry<B>>,
    table: Ghost<Map<LawId, Law<B>>>,
}

impl<B> View for Pallet<B> {
    type V = Map<LawId, Law<B>>;

    closed spec fn view(&self) -> Map<LawId, Law<B>> {
        self.table@
    }
}

impl<B: Balance> Pallet<B> {
    /// The entries hold each id at most once, and hold exactly the table.
    pub closed spec fn wf(&self) -> bool {
        &&& forall|i: int, j: int|
            0 <= i < j < self.entries.len() ==> self.entries[i].id != self.entries[j].id
        &&& forall|i: int|
            #![trigger self.entries[i]]
            0 <= i < self.entries.len() ==> self.table@.contains_key(self.entries[i].id)
                && self.table@[self.entries[i].id] == self.entries[i].law
        &&& forall|k: LawId|
            #[trigger] self.table@.contains_key(k) ==> exists|i: int|
                0 <= i < self.entries.len() && self.entries[i].id == k
    }

    /// A pallet with no law stored.
    pub fn new() -> (p: Pallet<B>)
        ensures
            p.wf(),
            p@ == Map::<LawId, Law<B>>::empty(),
    {
        Pallet { entries: Vec::new(), table: Ghost(Map::empty()) }
    }

    /// The position of `id` among the entries.
    fn find(&self, id: &LawId) -> (r: Option<usize>)
        requires
            self.wf(),
        ensures
            match r {
                Some(i) => i < self.entries.len() && self.entries[i as int].id == *id,
                None => !self@.contains_key(*id),
            },
    {
        let mut i: usize = 0;
        while i < self.entries.len()
            invariant
                self.wf(),
                i <= self.entries.len(),
                forall|j: int| 0 <= j < i ==> self.entries[j].id != *id,
            decreases self.entries.len() - i,
        {
            if same_bytes(&self.entries[i].id, id) {
                return Some(i);
            }
            i = i + 1;
        }
        None
    }

    /// The law stored under `id`, if any.
    pub fn get(&self, id: &LawId) -> (r: Option<Law<B>>)
        requires
            self.wf(),
        ensures
            r == lookup(self@, *id),
    {
        match self.find(id) {
            Some(i) => Some(self.entries[i].law),
            None => None,
        }
    }

    /// The text and price of the law stored under `id`, if any.
    pub fn id_to_law(&self, id: LawId) -> (r: Option<(LawText, B)>)
        requires
            self.wf(),
        ensures
            r == (match lookup(self@, id) {
                Some(law) => Some((law.text, law.price)),
                None => None,
            }),
    {
        match self.get(&id) {
            Some(law) => Some((law.text, law.price)),
            None => None,
        }
    }

    /// Applies one write to the table.
    fn apply(&mut self, w: Write<B>)
        requires
            old(self).wf(),
        ensures
            final(self).wf(),
            final(self)@ == apply_write(old(self)@, w),
    {
        match self.find(&w.id) {
            Some(i) => match w.law {
                Some(law) => {
                    self.entries.set(i, Entry { id: w.id, law });
                    self.table = Ghost(self.table@.insert(w.id, law));
                    assert forall|k: LawId| #[trigger] self.table@.contains_key(k) implies exists|j: int|
                        0 <= j < self.entries.len() && self.entries[j].id == k by {
                        if k != w.id {
                            assert(old(self).table@.contains_key(k));
                            let j = choose|j: int| 0 <= j < old(self).entries.len() && old(self).entries[j].id == k;
                            assert(self.entries[j].id == k);
                        } else {
                            assert(self.entries[i as int].id == k);
                        }
                    }
                },
                None => {
                    self.entries.remove(i);
                    self.table = Ghost(self.table@.remove(w.id));
                    assert forall|j: int| #![trigger self.entries[j]] 0 <= j < self.entries.len() implies
                        self.table@.contains_key(self.entries[j].id)
                            && self.table@[self.entries[j].id] == self.entries[j].law by {
                        if j < i {
                            assert(self.entries[j] == old(self).entries[j]);
                        } else {
                            assert(self.entries[j] == old(self).entries[j + 1]);
                        }
                    }
                    assert forall|k: LawId| #[trigger] self.table@.contains_key(k) implies exists|j: int|
                        0 <= j < self.entries.len() && self.entries[j].id == k by {
                        assert(old(self).table@.contains_key(k));
                        let j = choose|j: int| 0 <= j < old(self).entries.len() && old(self).entries[j].id == k;
                        if j < i {
                            assert(self.entries[j] == old(self).entries[j]);
                        } else {
                            assert(j != i);
                            assert(self.entries[j - 1] == old(self).entries[j]);
                        }
                    }
                },
            },
            None => match w.law {
                Some(law) => {
                    self.entries.push(Entry { id: w.id, law });
                    self.table = Ghost(self.table@.insert(w.id, law));
                    assert forall|k: LawId| #[trigger] self.table@.contains_key(k) implies exists|j: int|
                        0 <= j < self.entries.len() && self.entries[j].id == k by {
                        if k != w.id {
                            assert(old(self).table@.contains_key(k));
                            let j = choose|j: int| 0 <= j < old(self).entries.len() && old(self).entries[j].id == k;
                            assert(self.entries[j].id == k);
                        } else {
                            assert(self.entries[old(self).entries.len() as int].id == k);
                        }
                    }
                },
                None => {
                    assert(self.table@.remove(w.id) =~= self.table@);
                },
            },
        }
    }

    /// Applies the writes `ws` to the table, in order.
    fn apply_all(&mut self, ws: &Vec<Write<B>>)
        requires
            old(self).wf(),
        ensures
            final(self).wf(),
            final(self)@ == apply_writes(old(self)@, ws@),
    {
        let mut i: usize = 0;
        while i < ws.len()
            invariant
                self.wf(),
                i <= ws.len(),
                self@ == apply_writes(old(self)@, ws@.take(i as int)),
            decreases ws.len() - i,
        {
            assert(ws@.take(i + 1).drop_last() =~= ws@.take(i as int));
            self.apply(ws[i]);
            i = i + 1;
        }
        assert(ws@.take(ws.len() as int) =~= ws@);
    }

    /// Runs a prepared call: withdraws its payment with `withdraw` and, if that
    /// succeeded, applies its writes and answers its events.
    fn dispatch<F: FnOnce(AccountId, B) -> bool>(
        &mut self,
        prepared_call: Result<Settlement<B>, Error>,
        withdraw: F,
    ) -> (r: Result<Vec<Event<B>>, Error>)
        requires
            old(self).wf(),
            accepts_payment(withdraw, prepared(prepared_call)),
        ensures
            final(self).wf(),
            dispatched(withdraw, prepared(prepared_call), old(self)@, final(self)@, r),
    {
        let s = match charge(prepared_call, withdraw) {
            Ok(s) => s,
            Err(e) => return Err(e),
        };
        self.apply_all(&s.writes);
        Ok(s.events)
    }

    /// Creates a law: the signer pays `price` to store `text` under the unused `id`.
    ///
    /// A call refused by its checks answers their error and does not call
    /// `withdraw`; an accepted call calls it once, on its payer and payment.
    pub fn create<F: FnOnce(AccountId, B) -> bool>(
        &mut self,
        origin: Origin,
        id: LawId,
        text: LawText,
        price: B,
        withdraw: F,
    ) -> (r: Result<Vec<Event<B>>, Error>)
        requires
            old(self).wf(),
            accepts_payment(
                withdraw,
                create_rule(origin, id, text, price, lookup(old(self)@, id)),
            ),
        ensures
            final(self).wf(),
            dispatched(
                withdraw,
                create_rule(origin, id, text, price, lookup(old(self)@, id)),
                old(self)@,
                final(self)@,
                r,
            ),
    {
        let stored = self.get(&id);
        let prepared_call = prepare_create(origin, id, text, price, stored);
        self.dispatch(prepared_call, withdraw)
    }

    /// Edits a law: the signer pays `new_price`, at least the current price, to
    /// replace the text of the law under `id`, provided it is still `current_text`.
    ///
    /// A call refused by its checks answers their error and does not call
    /// `withdraw`; an accepted call calls it once, on its payer and payment.
    pub fn edit<F: FnOnce(AccountId, B) -> bool>(
        &mut self,
        origin: Origin,
        id: LawId,
        current_text: LawText,
        new_text: LawText,
        new_price: B,
        withdraw: F,
    ) -> (r: Result<Vec<Event<B>>, Error>)
        requires
            old(self).wf(),
            accepts_payment(
                withdraw,
                edit_rule(origin, id, current_text, new_text, new_price, lookup(old(self)@, id)),
            ),
        ensures
            final(self).wf(),
            dispatched(
                withdraw,
                edit_rule(origin, id, current_text, new_text, new_price, lookup(old(self)@, id)),
                old(self)@,
                final(self)@,
                r,
            ),
    {
        let stored = self.get(&id);
        let prepared_call = prepare_edit(origin, id, current_text, new_text, new_price, stored);
        self.dispatch(prepared_call, withdraw)
    }

    /// Creates one law and edits another in one call, paid by one withdrawal
    /// of both prices; nothing is paid or stored unless both are accepted.
    ///
    /// A call refused by its checks answers their error and does not call
    /// `withdraw`; an accepted call calls it once, on its payer and payment.
    pub fn create_and_edit<F: FnOnce(AccountId, B) -> bool>(
        &mut self,
        origin: Origin,
        create_id: LawId,
        create_text: LawText,
        create_price: B,
        edit_id: LawId,
        edit_current_text: LawText,
        edit_new_text: LawText,
        edit_new_price: B,
        withdraw: F,
    ) -> (r: Result<Vec<Event<B>>, Error>)
        requires
            old(self).wf(),
            accepts_payment(
                withdraw,
                create_and_edit_rule(
                    origin,
                    create_id,
                    create_text,
                    create_price,
                    edit_id,
                    edit_current_text,
                    edit_new_text,
                    edit_new_price,
                    lookup(old(self)@, create_id),
                    lookup(old(self)@, edit_id),
                ),
            ),
        ensures
            final(self).wf(),
            dispatched(
                withdraw,
                create_and_edit_rule(
                    origin,
                    create_id,
                    create_text,
                    create_price,
                    edit_id,
                    edit_current_text,
                    edit_new_text,
                    edit_new_price,
                    lookup(old(self)@, create_id),
                    lookup(old(self)@, edit_id),
                ),
                old(self)@,
                final(self)@,
                r,
            ),
    {
        let create_stored = self.get(&create_id);
        let edit_stored = self.get(&edit_id);
        let prepared_call = prepare_create_and_edit(
            origin,
            create_id,
            create_text,
            create_price,
            edit_id,
            edit_current_text,
            edit_new_text,
            edit_new_price,
            create_stored,
            edit_stored,
        );
        self.dispatch(prepared_call, withdraw)
    }

    /// Upvotes a law: the signer pays `price`, which is added to its price.
    ///
    /// A call refused by its checks answers their error and does not call
    /// `withdraw`; an accepted call calls it once, on its payer and payment.
    pub fn upvote<F: FnOnce(AccountId, B) -> bool>(
        &mut self,
        origin: Origin,
        id: LawId,
        current_text: LawText,
        price: B,
        withdraw: F,
    ) -> (r: Result<Vec<Event<B>>, Error>)
        requires
            old(self).wf(),
            accepts_payment(
                withdraw,
                upvote_rule(origin, id, current_text, price, lookup(old(self)@, id)),
            ),
        ensures
            final(self).wf(),
            dispatched(
                withdraw,
                upvote_rule(origin, id, current_text, price, lookup(old(self)@, id)),
                old(self)@,
                final(self)@,
                r,
            ),
    {
        let stored = self.get(&id);
        let prepared_call = prepare_upvote(origin, id, current_text, price, stored);
        self.dispatch(prepared_call, withdraw)
    }

    /// Downvotes a law: the signer pays `price`, or the whole price of the law
    /// if that is less, and the price of the law goes down by what was paid.
    ///
    /// A call refused by its checks answers their error and does not call
    /// `withdraw`; an accepted call calls it once, on its payer and payment.
    pub fn downvote<F: FnOnce(AccountId, B) -> bool>(
        &mut self,
        origin: Origin,
        id: LawId,
        current_text: LawText,
        price: B,
        withdraw: F,
    ) -> (r: Result<Vec<Event<B>>, Error>)
        requires
            old(self).wf(),
            accepts_payment(
                withdraw,
                downvote_rule(origin, id, current_text, price, lookup(old(self)@, id)),
            ),
        ensures
            final(self).wf(),
            dispatched(
                withdraw,
                downvote_rule(origin, id, current_text, price, lookup(old(self)@, id)),
                old(self)@,
                final(self)@,
                r,
            ),
    {
        let stored = self.get(&id);
        let prepared_call = prepare_downvote(origin, id, current_text, price, stored);
        self.dispatch(prepared_call, withdraw)
    }

    /// Removes a law: the signer pays its price.
    ///
    /// A call refused by its checks answers their error and does not call
    /// `withdraw`; an accepted call calls it once, on its payer and payment.
    pub fn remove<F: FnOnce(AccountId, B) -> bool>(
        &mut self,
        origin: Origin,
        id: LawId,
        current_text: LawText,
        withdraw: F,
    ) -> (r: Result<Vec<Event<B>>, Error>)
        requires
            old(self).wf(),
            accepts_payment(
                withdraw,
                remove_rule(origin, id, current_text, lookup(old(self)@, id)),
            ),
        ensures
            final(self).wf(),
            dispatched(
                withdraw,
                remove_rule(origin, id, current_text, lookup(old(self)@, id)),
                old(self)@,
                final(self)@,
                r,
            ),
    {
        let stored = self.get(&id);
        let prepared_call = prepare_remove(origin, id, current_text, stored);
        self.dispatch(prepared_call, withdraw)
    }
}

/// The genesis configuration of the pallet: it stores no law.
pub struct GenesisConfig {}

impl GenesisConfig {
    /// The pallet at genesis.
    pub fn build<B: Balance>(&self) -> (p: Pallet<B>)
        ensures
            p.wf(),
            p@ == Map::<LawId, Law<B>>::empty(),
    {
        Pallet::new()
    }
}

} // verus!
