use std::collections::HashMap;

use pallet_laws::{AccountId, Error, Event, GenesisConfig, LawId, LawText, Origin, Pallet};

/// The balance type of the runtime that these tests model.
type Balance = u64;

const CREATOR: [u8; 32] = [
    212, 53, 147, 199, 21, 253, 211, 28, 97, 20, 26, 189, 4, 169, 159, 214, 130, 44, 133, 88, 133,
    76, 205, 227, 154, 86, 132, 231, 165, 109, 162, 125,
];
const EDITOR: [u8; 32] = [
    142, 175, 4, 21, 22, 135, 115, 99, 38, 201, 254, 161, 126, 37, 252, 82, 135, 97, 54, 147, 201,
    18, 144, 156, 178, 38, 170, 71, 148, 242, 106, 72,
];
const INITIAL_BALANCE: u64 = 1000;
const LAW_PRICE: u64 = 10;
const INITIAL_LAW_ID: [u8; 32] = [
    212, 53, 147, 199, 21, 253, 211, 28, 97, 20, 26, 189, 4, 169, 159, 214, 130, 44, 133, 88, 133,
    76, 205, 227, 154, 86, 132, 231, 165, 109, 162, 125,
];
const INITIAL_LAW_TEXT: [u8; 32] = INITIAL_LAW_ID;
const EDITED_LAW_TEXT: [u8; 32] = [
    142, 175, 4, 21, 22, 135, 115, 99, 38, 201, 254, 161, 126, 37, 252, 82, 135, 97, 54, 147, 201,
    18, 144, 156, 178, 38, 170, 71, 148, 242, 106, 72,
];
const EXISTENTIAL_DEPOSIT: u64 = 1;

/// Free balances, charged as a withdrawal that keeps the account alive.
struct Balances {
    free: HashMap<AccountId, Balance>,
}

impl Balances {
    fn withdraw(&mut self, who: AccountId, amount: Balance) -> bool {
        let free = self.total_balance(&who);
        if free < amount || free - amount < EXISTENTIAL_DEPOSIT {
            return false;
        }
        self.free.insert(who, free - amount);
        true
    }

    fn total_balance(&self, who: &AccountId) -> Balance {
        *self.free.get(who).unwrap_or(&0)
    }
}

/// The genesis state: no law, and both accounts funded.
fn new_test_ext() -> (Pallet<Balance>, Balances) {
    let mut free = HashMap::new();
    free.insert(CREATOR, INITIAL_BALANCE);
    free.insert(EDITOR, INITIAL_BALANCE);
    (GenesisConfig {}.build(), Balances { free })
}

fn law_exists(pallet: &Pallet<Balance>, id: LawId) -> bool {
    pallet.id_to_law(id).is_some()
}

fn get_law(pallet: &Pallet<Balance>, id: LawId) -> Option<(LawText, Balance)> {
    pallet.id_to_law(id)
}

fn create(p: &mut Pallet<Balance>, b: &mut Balances, who: AccountId, id: LawId, text: LawText, price: Balance) -> Result<Vec<Event<Balance>>, Error> {
    p.create(Origin::Signed(who), id, text, price, |w, a| b.withdraw(w, a))
}

#[test]
fn creation_success() {
    let (mut laws, mut balances) = new_test_ext();
    let creator = CREATOR;
    let initial_balance = balances.total_balance(&creator);
    assert_eq!(law_exists(&laws, INITIAL_LAW_ID), false);
    let events = create(&mut laws, &mut balances, creator, INITIAL_LAW_ID, INITIAL_LAW_TEXT, LAW_PRICE);
    assert!(events.is_ok());
    assert_eq!(law_exists(&laws, INITIAL_LAW_ID), true);
    let post_balance = balances.total_balance(&creator);
    assert_eq!(post_balance, initial_balance - LAW_PRICE);
    let events = events.unwrap();
    assert_eq!(events.len(), 1);
    assert_eq!(events[0], Event::LawCreated(INITIAL_LAW_ID, INITIAL_LAW_TEXT, LAW_PRICE));
}

#[test]
fn creation_used_id() {
    let (mut laws, mut balances) = new_test_ext();
    let creator = CREATOR;
    assert!(create(&mut laws, &mut balances, creator, INITIAL_LAW_ID, INITIAL_LAW_TEXT, LAW_PRICE).is_ok());
    let before = balances.total_balance(&creator);
    assert_eq!(
        create(&mut laws, &mut balances, creator, INITIAL_LAW_ID, INITIAL_LAW_TEXT, LAW_PRICE),
        Err(Error::UsedId)
    );
    assert_eq!(balances.total_balance(&creator), before);
    assert_eq!(get_law(&laws, INITIAL_LAW_ID), Some((INITIAL_LAW_TEXT, LAW_PRICE)));
}

#[test]
fn creation_balance_is_not_enough() {
    let (mut laws, mut balances) = new_test_ext();
    let creator = CREATOR;
    assert_eq!(
        create(&mut laws, &mut balances, creator, INITIAL_LAW_ID, INITIAL_LAW_TEXT, INITIAL_BALANCE + 1),
        Err(Error::BalanceIsNotEnough)
    );
    assert_eq!(balances.total_balance(&EDITOR), INITIAL_BALANCE);
    assert_eq!(law_exists(&laws, INITIAL_LAW_ID), false);
    assert_eq!(balances.total_balance(&creator), INITIAL_BALANCE);
}

#[test]
fn edit_success() {
    let (mut laws, mut balances) = new_test_ext();
    let creator = CREATOR;
    let editor = EDITOR;
    assert!(create(&mut laws, &mut balances, creator, INITIAL_LAW_ID, INITIAL_LAW_TEXT, LAW_PRICE).is_ok());
    let price_for_edit = LAW_PRICE;
    let pre_balance = balances.total_balance(&editor);
    let events = laws.edit(
        Origin::Signed(editor),
        INITIAL_LAW_ID,
        INITIAL_LAW_TEXT,
        EDITED_LAW_TEXT,
        price_for_edit,
        |w, a| balances.withdraw(w, a),
    );
    assert!(events.is_ok());
    let (updated_text, new_price) = get_law(&laws, INITIAL_LAW_ID).unwrap();
    assert_eq!(updated_text, EDITED_LAW_TEXT);
    assert_eq!(new_price, price_for_edit);
    let post_balance = balances.total_balance(&editor);
    assert_eq!(post_balance, pre_balance - price_for_edit);
    let events = events.unwrap();
    assert_eq!(events.len(), 1);
    assert_eq!(
        events[0],
        Event::LawEdited(INITIAL_LAW_ID, INITIAL_LAW_ID, EDITED_LAW_TEXT, price_for_edit)
    );
}

#[test]
fn edit_missing_id() {
    let (mut laws, mut balances) = new_test_ext();
    let editor = EDITOR;
    assert_eq!(
        laws.edit(
            Origin::Signed(editor),
            INITIAL_LAW_ID,
            INITIAL_LAW_TEXT,
            EDITED_LAW_TEXT,
            LAW_PRICE,
            |w, a| balances.withdraw(w, a),
        ),
        Err(Error::MissingId)
    );
    assert_eq!(law_exists(&laws, INITIAL_LAW_ID), false);
    assert_eq!(balances.total_balance(&editor), INITIAL_BALANCE);
}

#[test]
fn edit_new_price_is_low() {
    let (mut laws, mut balances) = new_test_ext();
    let creator = CREATOR;
    let editor = EDITOR;
    assert!(create(&mut laws, &mut balances, creator, INITIAL_LAW_ID, INITIAL_LAW_TEXT, LAW_PRICE).is_ok());
    let price_for_edit = LAW_PRICE - 1;
    assert_eq!(
        laws.edit(
            Origin::Signed(editor),
            INITIAL_LAW_ID,
            INITIAL_LAW_TEXT,
            EDITED_LAW_TEXT,
            price_for_edit,
            |w, a| balances.withdraw(w, a),
        ),
        Err(Error::NewPriceIsLow)
    );
    assert_eq!(balances.total_balance(&editor), INITIAL_BALANCE);
    assert_eq!(balances.total_balance(&creator), INITIAL_BALANCE - LAW_PRICE);
    let (updated_text, new_price) = get_law(&laws, INITIAL_LAW_ID).unwrap();
    assert_eq!(updated_text, INITIAL_LAW_ID);
    assert_eq!(new_price, LAW_PRICE);
}

#[test]
fn edit_balance_is_not_enough() {
    let (mut laws, mut balances) = new_test_ext();
    let creator = CREATOR;
    let editor = EDITOR;
    assert!(create(&mut laws, &mut balances, creator, INITIAL_LAW_ID, INITIAL_LAW_TEXT, LAW_PRICE).is_ok());
    let price_for_edit = INITIAL_BALANCE + 1;
    assert_eq!(
        laws.edit(
            Origin::Signed(editor),
            INITIAL_LAW_ID,
            INITIAL_LAW_TEXT,
            EDITED_LAW_TEXT,
            price_for_edit,
            |w, a| balances.withdraw(w, a),
        ),
        Err(Error::BalanceIsNotEnough)
    );
    assert_eq!(balances.total_balance(&editor), INITIAL_BALANCE);
    assert_eq!(balances.total_balance(&creator), INITIAL_BALANCE - LAW_PRICE);
    let (updated_text, new_price) = get_law(&laws, INITIAL_LAW_ID).unwrap();
    assert_eq!(updated_text, INITIAL_LAW_ID);
    assert_eq!(new_price, LAW_PRICE);
}

#[test]
fn upvote_success() {
    let (mut laws, mut balances) = new_test_ext();
    let creator = CREATOR;
    let editor = EDITOR;
    assert!(create(&mut laws, &mut balances, creator, INITIAL_LAW_ID, INITIAL_LAW_TEXT, LAW_PRICE).is_ok());
    let upvote_price = LAW_PRICE;
    let pre_balance = balances.total_balance(&editor);
    let events = laws.upvote(
        Origin::Signed(editor),
        INITIAL_LAW_ID,
        INITIAL_LAW_TEXT,
        upvote_price,
        |w, a| balances.withdraw(w, a),
    );
    assert!(events.is_ok());
    let (updated_text, new_price) = get_law(&laws, INITIAL_LAW_ID).unwrap();
    assert_eq!(updated_text, INITIAL_LAW_ID);
    assert_eq!(new_price, LAW_PRICE + upvote_price);
    let post_balance = balances.total_balance(&editor);
    assert_eq!(post_balance, pre_balance - upvote_price);
    let events = events.unwrap();
    assert_eq!(events.len(), 1);
    assert_eq!(events[0], Event::LawUpvoted(INITIAL_LAW_ID, upvote_price));
}

#[test]
fn upvote_missing_id() {
    let (mut laws, mut balances) = new_test_ext();
    let creator = CREATOR;
    assert_eq!(
        laws.upvote(
            Origin::Signed(creator),
            INITIAL_LAW_ID,
            INITIAL_LAW_TEXT,
            LAW_PRICE,
            |w, a| balances.withdraw(w, a),
        ),
        Err(Error::MissingId)
    );
    assert_eq!(law_exists(&laws, INITIAL_LAW_ID), false);
    assert_eq!(balances.total_balance(&creator), INITIAL_BALANCE);
}

#[test]
fn upvote_price_overflow() {
    let (mut laws, mut balances) = new_test_ext();
    let creator = CREATOR;
    assert!(create(&mut laws, &mut balances, creator, INITIAL_LAW_ID, INITIAL_LAW_TEXT, LAW_PRICE).is_ok());
    let upvote_price = std::u64::MAX;
    assert_eq!(
        laws.upvote(
            Origin::Signed(creator),
            INITIAL_LAW_ID,
            INITIAL_LAW_TEXT,
            upvote_price,
            |w, a| balances.withdraw(w, a),
        ),
        Err(Error::PriceOverflow)
    );
    assert_eq!(balances.total_balance(&creator), INITIAL_BALANCE - LAW_PRICE);
    let (_, new_price) = get_law(&laws, INITIAL_LAW_ID).unwrap();
    assert_eq!(new_price, LAW_PRICE);
}

#[test]
fn upvote_balance_is_not_enough() {
    let (mut laws, mut balances) = new_test_ext();
    let creator = CREATOR;
    assert!(create(&mut laws, &mut balances, creator, INITIAL_LAW_ID, INITIAL_LAW_TEXT, LAW_PRICE).is_ok());
    let upvote_price = INITIAL_BALANCE + 1;
    assert_eq!(
        laws.upvote(
            Origin::Signed(creator),
            INITIAL_LAW_ID,
            INITIAL_LAW_TEXT,
            upvote_price,
            |w, a| balances.withdraw(w, a),
        ),
        Err(Error::BalanceIsNotEnough)
    );
    assert_eq!(balances.total_balance(&creator), INITIAL_BALANCE - LAW_PRICE);
    let (_, new_price) = get_law(&laws, INITIAL_LAW_ID).unwrap();
    assert_eq!(new_price, LAW_PRICE);
}

#[test]
fn downvote_success() {
    let (mut laws, mut balances) = new_test_ext();
    let creator = CREATOR;
    let editor = EDITOR;
    assert!(create(&mut laws, &mut balances, creator, INITIAL_LAW_ID, INITIAL_LAW_TEXT, LAW_PRICE).is_ok());
    let downvote_price = 1;
    let pre_balance = balances.total_balance(&editor);
    let events = laws.downvote(
        Origin::Signed(editor),
        INITIAL_LAW_ID,
        INITIAL_LAW_TEXT,
        downvote_price,
        |w, a| balances.withdraw(w, a),
    );
    assert!(events.is_ok());
    let (updated_text, new_price) = get_law(&laws, INITIAL_LAW_ID).unwrap();
    assert_eq!(updated_text, INITIAL_LAW_ID);
    assert_eq!(new_price, LAW_PRICE - downvote_price);
    let post_balance = balances.total_balance(&editor);
    assert_eq!(post_balance, pre_balance - downvote_price);
    let events = events.unwrap();
    assert_eq!(events.len(), 1);
    assert_eq!(events[0], Event::LawDownvoted(INITIAL_LAW_ID, downvote_price));
}

#[test]
fn downvote_missing_id() {
    let (mut laws, mut balances) = new_test_ext();
    let creator = CREATOR;
    assert_eq!(
        laws.downvote(
            Origin::Signed(creator),
            INITIAL_LAW_ID,
            INITIAL_LAW_TEXT,
            LAW_PRICE,
            |w, a| balances.withdraw(w, a),
        ),
        Err(Error::MissingId)
    );
    assert_eq!(law_exists(&laws, INITIAL_LAW_ID), false);
    assert_eq!(balances.total_balance(&creator), INITIAL_BALANCE);
}

#[test]
fn downvote_underflow() {
    let (mut laws, mut balances) = new_test_ext();
    let creator = CREATOR;
    let editor = EDITOR;
    assert!(create(&mut laws, &mut balances, creator, INITIAL_LAW_ID, INITIAL_LAW_TEXT, LAW_PRICE).is_ok());
    let downvote_price = INITIAL_BALANCE;
    let events = laws.downvote(
        Origin::Signed(editor),
        INITIAL_LAW_ID,
        INITIAL_LAW_TEXT,
        downvote_price,
        |w, a| balances.withdraw(w, a),
    );
    assert!(events.is_ok());
    let (updated_text, new_price) = get_law(&laws, INITIAL_LAW_ID).unwrap();
    assert_eq!(updated_text, INITIAL_LAW_ID);
    assert_eq!(new_price, 0);
    let post_balance = balances.total_balance(&editor);
    assert_eq!(post_balance, INITIAL_BALANCE - LAW_PRICE);
    let events = events.unwrap();
    assert_eq!(events.len(), 1);
    assert_eq!(events[0], Event::LawDownvoted(INITIAL_LAW_ID, LAW_PRICE));
}

#[test]
fn downvote_balance_is_not_enough() {
    let (mut laws, mut balances) = new_test_ext();
    let creator = CREATOR;
    let creation_price = INITIAL_BALANCE - 1;
    assert!(create(&mut laws, &mut balances, creator, INITIAL_LAW_ID, INITIAL_LAW_TEXT, creation_price).is_ok());
    let downvote_price = creation_price;
    assert_eq!(
        laws.downvote(
            Origin::Signed(creator),
            INITIAL_LAW_ID,
            INITIAL_LAW_TEXT,
            downvote_price,
            |w, a| balances.withdraw(w, a),
        ),
        Err(Error::BalanceIsNotEnough)
    );
    assert_eq!(balances.total_balance(&creator), INITIAL_BALANCE - creation_price);
    assert_eq!(get_law(&laws, INITIAL_LAW_ID), Some((INITIAL_LAW_TEXT, creation_price)));
    let (_, new_price) = get_law(&laws, INITIAL_LAW_ID).unwrap();
    assert_eq!(new_price, creation_price);
}

#[test]
fn remove_success() {
    let (mut laws, mut balances) = new_test_ext();
    let creator = CREATOR;
    let editor = EDITOR;
    assert!(create(&mut laws, &mut balances, creator, INITIAL_LAW_ID, INITIAL_LAW_TEXT, LAW_PRICE).is_ok());
    assert_eq!(law_exists(&laws, INITIAL_LAW_ID), true);
    let pre_balance = balances.total_balance(&editor);
    let events = laws.remove(
        Origin::Signed(editor),
        INITIAL_LAW_ID,
        INITIAL_LAW_TEXT,
        |w, a| balances.withdraw(w, a),
    );
    assert!(events.is_ok());
    assert_eq!(law_exists(&laws, INITIAL_LAW_ID), false);
    let post_balance = balances.total_balance(&editor);
    assert_eq!(post_balance, pre_balance - LAW_PRICE);
    let events = events.unwrap();
    assert_eq!(events.len(), 1);
    assert_eq!(events[0], Event::LawRemoved(INITIAL_LAW_ID, LAW_PRICE));
}

#[test]
fn remove_missing_id() {
    let (mut laws, mut balances) = new_test_ext();
    let creator = CREATOR;
    assert_eq!(
        laws.remove(Origin::Signed(creator), INITIAL_LAW_ID, INITIAL_LAW_TEXT, |w, a| balances
            .withdraw(w, a)),
        Err(Error::MissingId)
    );
    assert_eq!(law_exists(&laws, INITIAL_LAW_ID), false);
    assert_eq!(balances.total_balance(&creator), INITIAL_BALANCE);
}

#[test]
fn remove_balance_is_not_enough() {
    let (mut laws, mut balances) = new_test_ext();
    let creator = CREATOR;
    let creation_price = INITIAL_BALANCE - 1;
    assert!(create(&mut laws, &mut balances, creator, INITIAL_LAW_ID, INITIAL_LAW_TEXT, creation_price).is_ok());
    assert_eq!(
        laws.remove(Origin::Signed(creator), INITIAL_LAW_ID, INITIAL_LAW_TEXT, |w, a| balances
            .withdraw(w, a)),
        Err(Error::BalanceIsNotEnough)
    );
    assert_eq!(balances.total_balance(&creator), INITIAL_BALANCE - creation_price);
    assert_eq!(get_law(&laws, INITIAL_LAW_ID), Some((INITIAL_LAW_TEXT, creation_price)));
    assert_eq!(law_exists(&laws, INITIAL_LAW_ID), true);
}
