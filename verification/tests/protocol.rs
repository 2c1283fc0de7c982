//! The mutation protocol, driven end to end against an in-memory store.

use favorites::addr::{derive_favorites_address, Address};
use favorites::errors::FavoritesError;
use favorites::instructions::{
    accept_change_request, create_change_request, set_favorites, AcceptChangeRequest,
    CreateChangeRequest, SetFavorites,
};
use favorites::state::{ChangeRequestTarget, Record};
use favorites::store::RecordStore;

fn ident(tag: u8) -> Address {
    Address::new(vec![tag; 32])
}

fn init(store: &mut RecordStore, user: &Address, number: u64, color: &str) {
    let accounts = SetFavorites { user: user.clone() };
    let r = set_favorites(store, &accounts, number, color.to_string());
    assert_eq!(r, Ok(()));
}

fn propose(
    store: &mut RecordStore,
    requester: &Address,
    user: &Address,
    slot: &Address,
    target: ChangeRequestTarget,
) -> Result<(), FavoritesError> {
    let accounts = CreateChangeRequest {
        requester: requester.clone(),
        user: user.clone(),
        new_request: slot.clone(),
    };
    create_change_request(store, &accounts, target)
}

fn accept(
    store: &mut RecordStore,
    requester: &Address,
    user: &Address,
    slot: &Address,
) -> Result<(), FavoritesError> {
    let accounts = AcceptChangeRequest {
        requester: requester.clone(),
        user: user.clone(),
        request: slot.clone(),
    };
    accept_change_request(store, &accounts)
}

fn assert_favorites(store: &RecordStore, user: &Address, number: u64, color: &str) {
    match store.favorites_of(user) {
        Some(f) => {
            assert_eq!(f.number, number);
            assert_eq!(f.color.as_str(), color);
        }
        None => panic!("no favorites record for this user"),
    }
}

#[test]
fn initialize_creates_the_record() {
    let user = ident(1);
    let mut store = RecordStore::new();
    init(&mut store, &user, 7, "red");
    assert_favorites(&store, &user, 7, "red");
}

#[test]
fn initialize_twice_fails_and_keeps_the_original() {
    let user = ident(1);
    let mut store = RecordStore::new();
    init(&mut store, &user, 7, "red");
    let accounts = SetFavorites { user: user.clone() };
    let second = set_favorites(&mut store, &accounts, 99, "green".to_string());
    assert_eq!(second, Err(FavoritesError::RecordAlreadyExists));
    assert_favorites(&store, &user, 7, "red");
}

#[test]
fn initialize_rejects_an_oversized_color() {
    let user = ident(1);
    let mut store = RecordStore::new();
    let accounts = SetFavorites { user: user.clone() };
    let long = "x".repeat(51);
    let r = set_favorites(&mut store, &accounts, 7, long);
    assert_eq!(r, Err(FavoritesError::StringTooLong));
    assert!(store.favorites_of(&user).is_none());
}

#[test]
fn oversized_color_proposal_creates_no_request() {
    let user = ident(1);
    let requester = ident(2);
    let slot = ident(3);
    let mut store = RecordStore::new();
    init(&mut store, &user, 7, "red");
    let long = "y".repeat(51);
    let r = propose(
        &mut store,
        &requester,
        &user,
        &slot,
        ChangeRequestTarget::Color { new_color: long },
    );
    assert_eq!(r, Err(FavoritesError::StringTooLong));
    assert!(!store.contains(&slot));
}

#[test]
fn a_fifty_byte_color_is_accepted() {
    let user = ident(1);
    let requester = ident(2);
    let slot = ident(3);
    let mut store = RecordStore::new();
    init(&mut store, &user, 7, "red");
    let at_cap = "z".repeat(50);
    let r = propose(
        &mut store,
        &requester,
        &user,
        &slot,
        ChangeRequestTarget::Color { new_color: at_cap.clone() },
    );
    assert_eq!(r, Ok(()));
    assert_eq!(accept(&mut store, &requester, &user, &slot), Ok(()));
    assert_favorites(&store, &user, 7, at_cap.as_str());
}

#[test]
fn proposing_without_a_target_record_fails() {
    let user = ident(1);
    let requester = ident(2);
    let slot = ident(3);
    let mut store = RecordStore::new();
    let r = propose(
        &mut store,
        &requester,
        &user,
        &slot,
        ChangeRequestTarget::Number { new_number: 42 },
    );
    assert_eq!(r, Err(FavoritesError::InvalidRecordAddress));
    assert!(!store.contains(&slot));
}

#[test]
fn proposing_into_an_occupied_slot_fails() {
    let user = ident(1);
    let requester = ident(2);
    let slot = ident(3);
    let mut store = RecordStore::new();
    init(&mut store, &user, 7, "red");
    let first = propose(
        &mut store,
        &requester,
        &user,
        &slot,
        ChangeRequestTarget::Number { new_number: 42 },
    );
    assert_eq!(first, Ok(()));
    let second = propose(
        &mut store,
        &requester,
        &user,
        &slot,
        ChangeRequestTarget::Number { new_number: 43 },
    );
    assert_eq!(second, Err(FavoritesError::AllocationFailed));
}

#[test]
fn accepting_as_the_wrong_user_fails_and_changes_nothing() {
    let user = ident(1);
    let other = ident(4);
    let requester = ident(2);
    let slot = ident(3);
    let mut store = RecordStore::new();
    init(&mut store, &user, 7, "red");
    init(&mut store, &other, 9, "gray");
    let r = propose(
        &mut store,
        &requester,
        &user,
        &slot,
        ChangeRequestTarget::Number { new_number: 42 },
    );
    assert_eq!(r, Ok(()));
    let refused = accept(&mut store, &requester, &other, &slot);
    assert_eq!(refused, Err(FavoritesError::UnauthorizedAcceptance));
    assert_favorites(&store, &user, 7, "red");
    assert_favorites(&store, &other, 9, "gray");
    assert!(store.contains(&slot));
}

#[test]
fn accepting_with_the_wrong_refund_target_fails_and_changes_nothing() {
    let user = ident(1);
    let requester = ident(2);
    let outsider = ident(5);
    let slot = ident(3);
    let mut store = RecordStore::new();
    init(&mut store, &user, 7, "red");
    let r = propose(
        &mut store,
        &requester,
        &user,
        &slot,
        ChangeRequestTarget::Number { new_number: 42 },
    );
    assert_eq!(r, Ok(()));
    let refused = accept(&mut store, &outsider, &user, &slot);
    assert_eq!(refused, Err(FavoritesError::RequesterMismatch));
    assert_favorites(&store, &user, 7, "red");
    assert!(store.contains(&slot));
}

#[test]
fn accepting_a_missing_request_fails() {
    let user = ident(1);
    let requester = ident(2);
    let slot = ident(3);
    let mut store = RecordStore::new();
    init(&mut store, &user, 7, "red");
    let r = accept(&mut store, &requester, &user, &slot);
    assert_eq!(r, Err(FavoritesError::InvalidRecordAddress));
}

#[test]
fn accepted_number_change_updates_only_the_number() {
    let user = ident(1);
    let requester = ident(2);
    let slot = ident(3);
    let mut store = RecordStore::new();
    init(&mut store, &user, 7, "red");
    let r = propose(
        &mut store,
        &requester,
        &user,
        &slot,
        ChangeRequestTarget::Number { new_number: 42 },
    );
    assert_eq!(r, Ok(()));
    assert_eq!(accept(&mut store, &requester, &user, &slot), Ok(()));
    assert_favorites(&store, &user, 42, "red");
    assert!(!store.contains(&slot));
}

#[test]
fn accepted_color_change_updates_only_the_color() {
    let user = ident(1);
    let requester = ident(2);
    let slot = ident(3);
    let mut store = RecordStore::new();
    init(&mut store, &user, 7, "red");
    let r = propose(
        &mut store,
        &requester,
        &user,
        &slot,
        ChangeRequestTarget::Color { new_color: "blue".to_string() },
    );
    assert_eq!(r, Ok(()));
    assert_eq!(accept(&mut store, &requester, &user, &slot), Ok(()));
    assert_favorites(&store, &user, 7, "blue");
    assert!(!store.contains(&slot));
}

#[test]
fn a_request_is_consumed_exactly_once() {
    let user = ident(1);
    let requester = ident(2);
    let slot = ident(3);
    let mut store = RecordStore::new();
    init(&mut store, &user, 7, "red");
    let r = propose(
        &mut store,
        &requester,
        &user,
        &slot,
        ChangeRequestTarget::Number { new_number: 42 },
    );
    assert_eq!(r, Ok(()));
    assert_eq!(accept(&mut store, &requester, &user, &slot), Ok(()));
    let replay = accept(&mut store, &requester, &user, &slot);
    assert_eq!(replay, Err(FavoritesError::InvalidRecordAddress));
    assert_favorites(&store, &user, 42, "red");
}

#[test]
fn stored_requests_keep_their_fields() {
    let user = ident(1);
    let requester = ident(2);
    let slot = ident(3);
    let mut store = RecordStore::new();
    init(&mut store, &user, 7, "red");
    let r = propose(
        &mut store,
        &requester,
        &user,
        &slot,
        ChangeRequestTarget::Number { new_number: 42 },
    );
    assert_eq!(r, Ok(()));
    match store.get_record(&slot) {
        Some(Record::Request(req)) => {
            assert!(req.requester == requester);
            assert!(req.user == user);
        }
        _ => panic!("the request record should exist"),
    }
}
