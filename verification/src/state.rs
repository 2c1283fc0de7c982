//! The records that the store holds: a user's favorites, and the pending
//! change requests against them.

use vstd::prelude::*;

use crate::addr::Address;

verus! {

/// Upper bound, in bytes, on a stored color string.
pub const MAX_COLOR_LEN: usize = 50;

/// The UTF-8 byte length of a string.
pub open spec fn byte_len(s: Seq<char>) -> nat {
    vstd::utf8::encode_utf8(s).len()
}

/// True when a color string fits the 50-byte cap, measured over its UTF-8
/// encoding.
pub open spec fn color_fits(color: Seq<char>) -> bool {
    byte_len(color) <= MAX_COLOR_LEN
}

/// A user's favorites: their number and their color.
pub struct Favorites {
    pub number: u64,
    pub color: String,
}

/// The mathematical value of a [`Favorites`] record.
pub struct FavoritesView {
    pub number: u64,
    pub color: Seq<char>,
}

impl View for Favorites {
    type V = FavoritesView;

    open spec fn view(&self) -> FavoritesView {
        FavoritesView { number: self.number, color: self.color@ }
    }
}

/// Which part of a favorites record a change request proposes to overwrite.
pub enum ChangeRequestTarget {
    Number { new_number: u64 },
    Color { new_color: String },
}

/// The mathematical value of a [`ChangeRequestTarget`].
pub enum TargetView {
    Number { new_number: u64 },
    Color { new_color: Seq<char> },
}

impl View for ChangeRequestTarget {
    type V = TargetView;

    open spec fn view(&self) -> TargetView {
        match self {
            ChangeRequestTarget::Number { new_number } => (TargetView::Number {
                new_number: *new_number,
            }),
            ChangeRequestTarget::Color { new_color } => (TargetView::Color {
                new_color: new_color@,
            }),
        }
    }
}

/// True when the proposed value fits the cap that stored colors obey.
pub open spec fn target_fits(target: TargetView) -> bool {
    target matches TargetView::Color { new_color } ==> color_fits(new_color)
}

/// A pending proposal to change one field of `user`'s favorites, created by
/// `requester`.  Both identities are fixed at creation.
pub struct ChangeRequest {
    pub requester: Address,
    pub user: Address,
    pub target: ChangeRequestTarget,
}

/// The mathematical value of a [`ChangeRequest`] record.
pub struct RequestView {
    pub requester: Seq<u8>,
    pub user: Seq<u8>,
    pub target: TargetView,
}

impl View for ChangeRequest {
    type V = RequestView;

    open spec fn view(&self) -> RequestView {
        RequestView { requester: self.requester@, user: self.user@, target: self.target@ }
    }
}

/// Whatever a storage slot can hold.
pub enum Record {
    Favorites(Favorites),
    Request(ChangeRequest),
}

/// The mathematical value of a stored [`Record`].
pub enum RecordView {
    Favorites(FavoritesView),
    Request(RequestView),
}

impl View for Record {
    type V = RecordView;

    open spec fn view(&self) -> RecordView {
        match self {
            Record::Favorites(f) => RecordView::Favorites(f@),
            Record::Request(r) => RecordView::Request(r@),
        }
    }
}

/// The favorites value held by a record, meaningful when the record is a
/// favorites record.
pub open spec fn favorites_view_of(r: RecordView) -> FavoritesView
    recommends
        r is Favorites,
{
    r->Favorites_0
}

/// The request value held by a record, meaningful when the record is a
/// change request.
pub open spec fn request_view_of(r: RecordView) -> RequestView
    recommends
        r is Request,
{
    r->Request_0
}

/// The favorites value that accepting a request leaves behind: the targeted
/// field is overwritten, the other is untouched.
pub open spec fn apply_target(fav: FavoritesView, target: TargetView) -> FavoritesView {
    match target {
        TargetView::Number { new_number } => (FavoritesView { number: new_number, color: fav.color }),
        TargetView::Color { new_color } => (FavoritesView { number: fav.number, color: new_color }),
    }
}

/// Measures a color string's UTF-8 byte length.
pub fn color_byte_len(color: &String) -> (r: usize)
    ensures
        r == byte_len(color@),
{
    color.as_str().as_bytes().len()
}

} // verus!
