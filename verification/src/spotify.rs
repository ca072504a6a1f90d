//! Spotify URIs.

use librespot_core::{SpotifyId, SpotifyUri};
use vstd::prelude::*;

verus! {

/// An item of the catalogue, as events name it.
#[derive(Debug)]
pub struct SpotifyItem {
    /// The part of the URI after the type label.
    pub id: String,
    /// The URI in canonical form.
    pub uri: String,
}

/// A [`SpotifyItem`] with its texts as character sequences.
#[verifier::ext_equal]
pub struct SpotifyItemView {
    pub id: Seq<char>,
    pub uri: Seq<char>,
}

impl View for SpotifyItem {
    type V = SpotifyItemView;

    open spec fn view(&self) -> SpotifyItemView {
        SpotifyItemView { id: self.id@, uri: self.uri@ }
    }
}

/// The result of reading a URI, with texts as character sequences.
pub open spec fn item_view(r: Result<SpotifyItem, String>) -> Result<
    (Seq<char>, Seq<char>),
    Seq<char>,
> {
    match r {
        Ok(item) => Ok((item.id@, item.uri@)),
        Err(text) => Err(text@),
    }
}

/// What `SpotifyUri::from_uri` makes of a text: the identifier and the canonical URI of the item,
/// or the error in debug form.
pub uninterp spec fn spotify_uri(uri: Seq<char>) -> Result<(Seq<char>, Seq<char>), Seq<char>>;

/// `s` starts with `prefix`.
pub open spec fn starts_with(s: Seq<char>, prefix: Seq<char>) -> bool {
    prefix.len() <= s.len() && s.take(prefix.len() as int) == prefix
}

/// `SpotifyUri::from_uri`, its result taken apart with `to_id` and `to_uri`. The result is named;
/// beside the name stands that only a text that starts with `spotify:` is accepted.
#[verifier::external_body]
pub(crate) fn read_uri(uri: &str) -> (r: Result<SpotifyItem, String>)
    ensures
        item_view(r) == spotify_uri(uri@),
        r is Ok ==> starts_with(uri@, "spotify:"@),
{
    match SpotifyUri::from_uri(uri) {
        Ok(item) => match (item.to_id(), item.to_uri()) {
            (Ok(id), Ok(uri)) => Ok(SpotifyItem { id, uri }),
            (Err(e), _) => Err(format!("{:?}", e)),
            (_, Err(e)) => Err(format!("{:?}", e)),
        },
        Err(e) => Err(format!("{:?}", e)),
    }
}

/// The result of reading an identifier, with its text as a character sequence.
pub open spec fn number_view(r: Result<u128, String>) -> Result<u128, Seq<char>> {
    match r {
        Ok(number) => Ok(number),
        Err(text) => Err(text@),
    }
}

/// What `SpotifyId::try_from` makes of the item that a text names: the identifier as a number, or
/// the error in debug form.
pub uninterp spec fn spotify_id(uri: Seq<char>) -> Result<u128, Seq<char>>;

/// `SpotifyId::try_from`, on the item that `SpotifyUri::from_uri` reads out of `uri`. The result is
/// named.
#[verifier::external_body]
pub(crate) fn read_id(uri: &str) -> (r: Result<u128, String>)
    ensures
        number_view(r) == spotify_id(uri@),
{
    match SpotifyUri::from_uri(uri) {
        Ok(item) => match SpotifyId::try_from(&item) {
            Ok(id) => Ok(id.id),
            Err(e) => Err(format!("{:?}", e)),
        },
        Err(e) => Err(format!("{:?}", e)),
    }
}

} // verus!
