//! The three operations of the mutation protocol: initialize a favorites
//! record, propose a change to someone's favorites, and accept a pending
//! change request.
//!
//! Each operation is specified by a total transition function over the
//! store's map value; the executable handler either performs exactly that
//! transition or fails with the error the transition function names, leaving
//! the store untouched.

use vstd::prelude::*;

use crate::addr::{derive_favorites_address, favorites_address_of, Address};
use crate::errors::FavoritesError;
use crate::state::{
    apply_target, color_byte_len, color_fits, target_fits, ChangeRequest, ChangeRequestTarget,
    Favorites,
    FavoritesView, Record, RecordView, RequestView, TargetView, MAX_COLOR_LEN,
};
use crate::store::RecordStore;
use vstd::pervasive::unreached;

verus! {

/// The records that the initialize operation declares: the signing user, at
/// whose derived address the new favorites record is created and funded.
pub struct SetFavorites {
    pub user: Address,
}

/// The records that the propose operation declares: the signing requester
/// (who funds the new request record), the targeted user, and the fresh
/// caller-supplied address for the request record.
pub struct CreateChangeRequest {
    pub requester: Address,
    pub user: Address,
    pub new_request: Address,
}

/// The records that the accept operation declares: the signing user whose
/// favorites record is mutated, the refund destination for the consumed
/// request's deposit, and the address of the request record itself.
pub struct AcceptChangeRequest {
    pub requester: Address,
    pub user: Address,
    pub request: Address,
}

/// What initializing favorites does to the store: it fails if the derived
/// slot is occupied or the color is oversized, and otherwise creates the
/// record at the derived address.
pub open spec fn spec_set_favorites(
    s: Map<Seq<u8>, RecordView>,
    user: Seq<u8>,
    number: u64,
    color: Seq<char>,
) -> Result<Map<Seq<u8>, RecordView>, FavoritesError> {
    let addr = favorites_address_of(user);
    if s.contains_key(addr) {
        Err(FavoritesError::RecordAlreadyExists)
    } else if !color_fits(color) {
        Err(FavoritesError::StringTooLong)
    } else {
        Ok(s.insert(addr, RecordView::Favorites(FavoritesView { number, color })))
    }
}

/// What proposing a change does to the store: it fails unless the targeted
/// user's favorites record exists at its derived address, the proposed color
/// fits, and the caller-supplied slot is free; it then creates the request
/// record there, touching nothing else.
pub open spec fn spec_create_change_request(
    s: Map<Seq<u8>, RecordView>,
    requester: Seq<u8>,
    user: Seq<u8>,
    target: TargetView,
    new_request: Seq<u8>,
) -> Result<Map<Seq<u8>, RecordView>, FavoritesError> {
    let fav_addr = favorites_address_of(user);
    if !(s.contains_key(fav_addr) && s[fav_addr] is Favorites) {
        Err(FavoritesError::InvalidRecordAddress)
    } else if !target_fits(target) {
        Err(FavoritesError::StringTooLong)
    } else if s.contains_key(new_request) {
        Err(FavoritesError::AllocationFailed)
    } else {
        Ok(s.insert(new_request, RecordView::Request(RequestView { requester, user, target })))
    }
}

/// What accepting a request does to the store: with a request at the
/// declared address whose stored user is the accepting signer and whose
/// stored requester is the refund destination, and with the signer's
/// favorites record at its derived address, it overwrites the targeted
/// field and removes the request — both at once; otherwise it fails and
/// changes nothing.
pub open spec fn spec_accept_change_request(
    s: Map<Seq<u8>, RecordView>,
    user: Seq<u8>,
    requester: Seq<u8>,
    request: Seq<u8>,
) -> Result<Map<Seq<u8>, RecordView>, FavoritesError> {
    if !(s.contains_key(request) && s[request] is Request) {
        Err(FavoritesError::InvalidRecordAddress)
    } else {
        let req = s[request]->Request_0;
        let fav_addr = favorites_address_of(user);
        if req.user != user {
            Err(FavoritesError::UnauthorizedAcceptance)
        } else if req.requester != requester {
            Err(FavoritesError::RequesterMismatch)
        } else if !(s.contains_key(fav_addr) && s[fav_addr] is Favorites) {
            Err(FavoritesError::InvalidRecordAddress)
        } else {
            Ok(s.remove(request).insert(
                fav_addr,
                RecordView::Favorites(apply_target(s[fav_addr]->Favorites_0, req.target)),
            ))
        }
    }
}

/// Creates `accounts.user`'s favorites record, holding `number` and `color`,
/// at the derived favorites address, funded by the user.
pub fn set_favorites(
    store: &mut RecordStore,
    accounts: &SetFavorites,
    number: u64,
    color: String,
) -> (r: Result<(), FavoritesError>)
    requires
        old(store).wf(),
    ensures
        final(store).wf(),
        match spec_set_favorites(old(store)@, accounts.user@, number, color@) {
            Ok(s) => r == Ok::<(), FavoritesError>(()) && final(store)@ == s,
            Err(e) => r == Err::<(), FavoritesError>(e) && final(store)@ == old(store)@,
        },
{
    let addr = derive_favorites_address(&accounts.user);
    if store.contains(&addr) {
        return Err(FavoritesError::RecordAlreadyExists);
    }
    if color_byte_len(&color) > MAX_COLOR_LEN {
        return Err(FavoritesError::StringTooLong);
    }
    store.insert_new(addr, Record::Favorites(Favorites { number, color }));
    Ok(())
}

/// Creates a change request against `accounts.user`'s favorites, proposed
/// and funded by `accounts.requester`, in the fresh slot
/// `accounts.new_request`.  The targeted favorites record is only read.
pub fn create_change_request(
    store: &mut RecordStore,
    accounts: &CreateChangeRequest,
    change_target: ChangeRequestTarget,
) -> (r: Result<(), FavoritesError>)
    requires
        old(store).wf(),
    ensures
        final(store).wf(),
        match spec_create_change_request(
            old(store)@,
            accounts.requester@,
            accounts.user@,
            change_target@,
            accounts.new_request@,
        ) {
            Ok(s) => r == Ok::<(), FavoritesError>(()) && final(store)@ == s,
            Err(e) => r == Err::<(), FavoritesError>(e) && final(store)@ == old(store)@,
        },
{
    let fav_addr = derive_favorites_address(&accounts.user);
    let fav_ok = match store.get_record(&fav_addr) {
        Some(rec) => match rec {
            Record::Favorites(_) => true,
            Record::Request(_) => false,
        },
        None => false,
    };
    if !fav_ok {
        return Err(FavoritesError::InvalidRecordAddress);
    }
    let target_ok = match &change_target {
        ChangeRequestTarget::Number { .. } => true,
        ChangeRequestTarget::Color { new_color } => !(color_byte_len(new_color) > MAX_COLOR_LEN),
    };
    if !target_ok {
        return Err(FavoritesError::StringTooLong);
    }
    if store.contains(&accounts.new_request) {
        return Err(FavoritesError::AllocationFailed);
    }
    let request = ChangeRequest {
        requester: accounts.requester.clone(),
        user: accounts.user.clone(),
        target: change_target,
    };
    store.insert_new(accounts.new_request.clone(), Record::Request(request));
    Ok(())
}

/// Applies the request at `accounts.request` to the signing user's favorites
/// record and consumes the request, its storage deposit going back to the
/// stored requester — the operation the refund destination is validated
/// against.
pub fn accept_change_request(
    store: &mut RecordStore,
    accounts: &AcceptChangeRequest,
) -> (r: Result<(), FavoritesError>)
    requires
        old(store).wf(),
    ensures
        final(store).wf(),
        match spec_accept_change_request(
            old(store)@,
            accounts.user@,
            accounts.requester@,
            accounts.request@,
        ) {
            Ok(s) => r == Ok::<(), FavoritesError>(()) && final(store)@ == s,
            Err(e) => r == Err::<(), FavoritesError>(e) && final(store)@ == old(store)@,
        },
{
    let checks = match store.get_record(&accounts.request) {
        Some(rec) => match rec {
            Record::Request(req) => Some(
                (req.user == accounts.user, req.requester == accounts.requester),
            ),
            Record::Favorites(_) => None,
        },
        None => None,
    };
    let (user_ok, requester_ok) = match checks {
        Some(flags) => flags,
        None => {
            return Err(FavoritesError::InvalidRecordAddress);
        },
    };
    if !user_ok {
        return Err(FavoritesError::UnauthorizedAcceptance);
    }
    if !requester_ok {
        return Err(FavoritesError::RequesterMismatch);
    }
    let fav_addr = derive_favorites_address(&accounts.user);
    let fav_ok = match store.get_record(&fav_addr) {
        Some(rec) => match rec {
            Record::Favorites(_) => true,
            Record::Request(_) => false,
        },
        None => false,
    };
    if !fav_ok {
        return Err(FavoritesError::InvalidRecordAddress);
    }
    let removed = store.take(&accounts.request);
    let target = match removed {
        Record::Request(req) => req.target,
        Record::Favorites(_) => unreached(),
    };
    store.apply_to_favorites(&fav_addr, target);
    Ok(())
}

} // verus!
