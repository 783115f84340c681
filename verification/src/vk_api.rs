//! Model of the VK wall API: posts, attachments and the response envelope,
//! as plain values. The HTTP transport that fills these types lives outside
//! the crate.

pub mod attachment;
pub mod client;
pub mod posts;
pub mod response;

pub use attachment::Album;
pub use attachment::Attachment;
pub use attachment::Event;
pub use attachment::Photo;
pub use attachment::PhotoSize;
pub use attachment::PhotoType;
pub use attachment::PhotosList;
pub use attachment::Video;
pub use client::ClientDebug;
pub use posts::Copyright;
pub use posts::Post;
pub use posts::Posts;
pub use posts::Type;
pub use response::Response;
