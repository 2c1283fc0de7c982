//! The protocol's laws, stated over the transition functions of
//! [`crate::instructions`] and proved once for all stores and inputs.
//!
//! Together with the handlers' contracts — every failing operation leaves
//! the store exactly as it was — these pin down the request lifecycle: a
//! favorites record is created once, is only ever rewritten by an accepted
//! request, and a request is consumed exactly when its targeted user accepts
//! it with the recorded requester as refund destination.

use vstd::prelude::*;

use crate::addr::favorites_address_of;
use crate::errors::FavoritesError;
use crate::instructions::{
    spec_accept_change_request, spec_create_change_request, spec_set_favorites,
};
use crate::state::{apply_target, color_fits, target_fits, RecordView, RequestView, TargetView};

verus! {

/// Address derivation is stable: equal identities always derive equal
/// favorites addresses, in every store and every run.
pub proof fn lemma_derive_stable(u1: Seq<u8>, u2: Seq<u8>)
    ensures
        u1 == u2 ==> favorites_address_of(u1) == favorites_address_of(u2),
{
}

/// A favorites record is initialized at most once: after a successful
/// initialization for a user, any further initialization for the same user
/// fails with `RecordAlreadyExists` — and, by the handler's contract, the
/// failing attempt leaves the store, and so the original record, unchanged.
pub proof fn lemma_initialize_once(
    s: Map<Seq<u8>, RecordView>,
    user: Seq<u8>,
    n1: u64,
    c1: Seq<char>,
    n2: u64,
    c2: Seq<char>,
)
    ensures
        spec_set_favorites(s, user, n1, c1) matches Ok(s1) ==> spec_set_favorites(
            s1,
            user,
            n2,
            c2,
        ) == Err::<Map<Seq<u8>, RecordView>, FavoritesError>(FavoritesError::RecordAlreadyExists),
{
}

/// Proposing an oversized color is rejected with `StringTooLong` whenever
/// the targeted user's record exists (without it, the operation already
/// fails with `InvalidRecordAddress`) — and, by the handler's contract, the
/// failing attempt creates no request record.
pub proof fn lemma_oversized_color_rejected(
    s: Map<Seq<u8>, RecordView>,
    requester: Seq<u8>,
    user: Seq<u8>,
    new_color: Seq<char>,
    new_request: Seq<u8>,
)
    ensures
        (s.contains_key(favorites_address_of(user)) && s[favorites_address_of(user)] is Favorites
            && !color_fits(new_color)) ==> spec_create_change_request(
            s,
            requester,
            user,
            TargetView::Color { new_color },
            new_request,
        ) == Err::<Map<Seq<u8>, RecordView>, FavoritesError>(FavoritesError::StringTooLong),
{
}

/// Only the targeted user may accept: if the stored request's user differs
/// from the accepting signer, the operation fails with
/// `UnauthorizedAcceptance` — and, by the handler's contract, the favorites
/// record is untouched and the request still exists.
pub proof fn lemma_unauthorized_acceptance(
    s: Map<Seq<u8>, RecordView>,
    user: Seq<u8>,
    requester: Seq<u8>,
    request: Seq<u8>,
)
    ensures
        (s.contains_key(request) && (s[request] matches RecordView::Request(req) && req.user
            != user)) ==> spec_accept_change_request(s, user, requester, request) == Err::<
            Map<Seq<u8>, RecordView>,
            FavoritesError,
        >(FavoritesError::UnauthorizedAcceptance),
{
}

/// The refund destination must be the stored requester: with the correct
/// accepting user but any other refund target, the operation fails with
/// `RequesterMismatch` — and, by the handler's contract, no mutation and no
/// destruction occurs.
pub proof fn lemma_requester_mismatch(
    s: Map<Seq<u8>, RecordView>,
    user: Seq<u8>,
    requester: Seq<u8>,
    request: Seq<u8>,
)
    ensures
        (s.contains_key(request) && (s[request] matches RecordView::Request(req) && req.user
            == user && req.requester != requester)) ==> spec_accept_change_request(
            s,
            user,
            requester,
            request,
        ) == Err::<Map<Seq<u8>, RecordView>, FavoritesError>(FavoritesError::RequesterMismatch),
{
}

/// A proposed change, accepted by its targeted user with the recorded
/// requester as refund destination, updates exactly the targeted field of
/// that user's favorites and consumes the request record — one-shot, with
/// both effects in a single transition.
pub proof fn lemma_propose_then_accept(
    s: Map<Seq<u8>, RecordView>,
    requester: Seq<u8>,
    user: Seq<u8>,
    target: TargetView,
    new_request: Seq<u8>,
)
    ensures
        spec_create_change_request(s, requester, user, target, new_request) matches Ok(s1)
            ==> spec_accept_change_request(s1, user, requester, new_request) == Ok::<
            Map<Seq<u8>, RecordView>,
            FavoritesError,
        >(
            s1.remove(new_request).insert(
                favorites_address_of(user),
                RecordView::Favorites(
                    apply_target(s[favorites_address_of(user)]->Favorites_0, target),
                ),
            ),
        ),
{
    let outcome = spec_create_change_request(s, requester, user, target, new_request);
    if outcome is Ok {
        let s1 = outcome->Ok_0;
        let fav_addr = favorites_address_of(user);
        assert(s1 == s.insert(
            new_request,
            RecordView::Request(RequestView { requester, user, target }),
        ));
        assert(fav_addr != new_request);
        assert(s1[fav_addr] == s[fav_addr]);
    }
}

/// Initializing favorites touches nothing but the derived slot: every other
/// record, favorites and pending requests alike, is exactly as it was.  In
/// particular no stored request — and so neither its requester nor its
/// targeted user — is ever rewritten by this operation.
pub proof fn lemma_set_favorites_frame(
    s: Map<Seq<u8>, RecordView>,
    user: Seq<u8>,
    number: u64,
    color: Seq<char>,
    k: Seq<u8>,
)
    ensures
        spec_set_favorites(s, user, number, color) matches Ok(s1) ==> (k != favorites_address_of(
            user,
        ) ==> (s1.contains_key(k) == s.contains_key(k) && (s.contains_key(k) ==> s1[k] == s[k]))),
{
}

/// Proposing a change touches nothing but the caller-supplied request slot:
/// the targeted favorites record is only read, and every other record is
/// exactly as it was.
pub proof fn lemma_create_change_request_frame(
    s: Map<Seq<u8>, RecordView>,
    requester: Seq<u8>,
    user: Seq<u8>,
    target: TargetView,
    new_request: Seq<u8>,
    k: Seq<u8>,
)
    ensures
        spec_create_change_request(s, requester, user, target, new_request) matches Ok(s1) ==> (k
            != new_request ==> (s1.contains_key(k) == s.contains_key(k) && (s.contains_key(k)
            ==> s1[k] == s[k]))),
{
}

/// Accepting a request has exactly two effects, as one atomic transition:
/// the consumed request record no longer exists, and the signer's favorites
/// record holds the applied value; every other record is exactly as it was.
pub proof fn lemma_accept_change_request_frame(
    s: Map<Seq<u8>, RecordView>,
    user: Seq<u8>,
    requester: Seq<u8>,
    request: Seq<u8>,
    k: Seq<u8>,
)
    ensures
        spec_accept_change_request(s, user, requester, request) matches Ok(s1) ==> !s1.contains_key(
            request,
        ),
        spec_accept_change_request(s, user, requester, request) matches Ok(s1) ==> ((k != request
            && k != favorites_address_of(user)) ==> (s1.contains_key(k) == s.contains_key(k) && (
        s.contains_key(k) ==> s1[k] == s[k]))),
{
    let outcome = spec_accept_change_request(s, user, requester, request);
    if outcome is Ok {
        assert(s[request] is Request && s[favorites_address_of(user)] is Favorites);
        assert(request != favorites_address_of(user));
    }
}

/// True when every stored color — in favorites records and in pending
/// request targets alike — fits the 50-byte cap.
pub open spec fn all_colors_fit(s: Map<Seq<u8>, RecordView>) -> bool {
    forall|k: Seq<u8>| s.contains_key(k) ==> #[trigger] record_colors_fit(s[k])
}

/// The color bound for a single record value.
pub open spec fn record_colors_fit(r: RecordView) -> bool {
    match r {
        RecordView::Favorites(f) => color_fits(f.color),
        RecordView::Request(req) => target_fits(req.target),
    }
}

/// Initializing favorites preserves the color cap over the whole store.
pub proof fn lemma_set_favorites_keeps_color_cap(
    s: Map<Seq<u8>, RecordView>,
    user: Seq<u8>,
    number: u64,
    color: Seq<char>,
)
    ensures
        spec_set_favorites(s, user, number, color) matches Ok(s1) ==> (all_colors_fit(s)
            ==> all_colors_fit(s1)),
{
}

/// Proposing a change preserves the color cap over the whole store.
pub proof fn lemma_create_change_request_keeps_color_cap(
    s: Map<Seq<u8>, RecordView>,
    requester: Seq<u8>,
    user: Seq<u8>,
    target: TargetView,
    new_request: Seq<u8>,
)
    ensures
        spec_create_change_request(s, requester, user, target, new_request) matches Ok(s1) ==> (
        all_colors_fit(s) ==> all_colors_fit(s1)),
{
}

/// Accepting a request preserves the color cap over the whole store: the
/// moved color was itself stored, so it fits.
pub proof fn lemma_accept_change_request_keeps_color_cap(
    s: Map<Seq<u8>, RecordView>,
    user: Seq<u8>,
    requester: Seq<u8>,
    request: Seq<u8>,
)
    ensures
        spec_accept_change_request(s, user, requester, request) matches Ok(s1) ==> (all_colors_fit(
            s,
        ) ==> all_colors_fit(s1)),
{
    let outcome = spec_accept_change_request(s, user, requester, request);
    if outcome is Ok {
        let s1 = outcome->Ok_0;
        if all_colors_fit(s) {
            let fav_addr = favorites_address_of(user);
            assert(record_colors_fit(s[request]));
            assert(record_colors_fit(s[fav_addr]));
            assert forall|k: Seq<u8>| s1.contains_key(k) implies #[trigger] record_colors_fit(
                s1[k],
            ) by {
                if k != fav_addr {
                    assert(s1[k] == s[k]);
                }
            }
        }
    }
}

} // verus!
