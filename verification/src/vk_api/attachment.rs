//! Attachments of a wall post. Only photos are forwarded; the other variants
//! are carried so that a post with them still converts (they are skipped).

use vstd::prelude::*;

verus! {

/// One media attachment of a post.
#[derive(Clone, Debug)]
pub enum Attachment {
    Photo(Photo),
    PhotosList(PhotosList),
    Album(Album),
    Video(Video),
    Event(Event),
}

/// A photo attachment, with links to copies of the image in several sizes.
#[derive(Clone, Debug)]
pub struct Photo {
    /// Identifier of the photo.
    pub id: i64,

    /// Identifier of the album holding the photo.
    pub album_id: i64,

    /// Identifier of the photo's owner.
    pub owner_id: i64,

    /// Identifier of the user who uploaded the photo, if any.
    pub user_id: Option<i64>,

    /// Caption of the photo.
    pub description: String,

    /// Upload time, as a unix timestamp in seconds.
    pub date: i64,

    /// Links to copies of the image in different sizes.
    pub sizes: Vec<PhotoSize>,

    /// Width of the original in pixels.
    pub width: Option<i64>,

    /// Height of the original in pixels.
    pub height: Option<i64>,
}

/// One copy of an image.
#[derive(Clone, Debug)]
pub struct PhotoSize {
    /// Address of the copy.
    pub url: String,

    /// Width of the copy in pixels.
    pub width: i64,

    /// Height of the copy in pixels.
    pub height: i64,

    /// Size class of the copy.
    pub kind: PhotoType,
}

/// Size class of an image copy. `W` is the largest copy (up to 2560x2048)
/// and is the one selected for forwarding.
#[derive(Clone, Copy, Debug, PartialEq, Eq, Structural)]
pub enum PhotoType {
    S,
    M,
    X,
    O,
    P,
    Q,
    R,
    Y,
    Z,
    W,
}

/// A list-of-photos attachment; not forwarded.
#[derive(Clone, Debug)]
pub struct PhotosList {
}

/// An album attachment; not forwarded.
#[derive(Clone, Debug)]
pub struct Album {
}

/// A video attachment; not forwarded.
#[derive(Clone, Debug)]
pub struct Video {
}

/// An event attachment; not forwarded.
#[derive(Clone, Debug)]
pub struct Event {
}

} // verus!
