//! A wall post and the page shape returned by the wall read method.

use super::attachment::Attachment;
use vstd::prelude::*;

verus! {

/// One page of wall posts, newest first (except pinned posts, which the
/// wall surfaces near the top irrespective of their publication time).
#[derive(Clone, Debug)]
pub struct Posts {
    pub count: u64,
    pub items: Vec<Post>,
}

/// One post of a wall. Only the fields the service needs are modeled;
/// times are unix timestamps in seconds.
#[derive(Clone, Debug)]
pub struct Post {
    /// Identifier of the post.
    pub id: i64,

    /// Identifier of the author the post is published as.
    pub from_id: i64,

    /// Publication time of the post.
    pub date: i64,

    /// Text of the post.
    pub text: String,

    /// Owner of the post this one replies to, if any.
    pub reply_owner_id: Option<i64>,

    /// Post this one replies to, if any.
    pub reply_post_id: Option<i64>,

    /// Source of the material, if any.
    pub copyright: Option<Copyright>,

    /// Kind of the post.
    pub post_type: Type,

    /// Media attached to the post.
    pub attachments: Vec<Attachment>,

    /// Author who signed a community post, if any.
    pub signer_id: Option<i64>,

    /// Set to 1 when the post is pinned.
    pub is_pinned: Option<u8>,
}

impl Post {
    /// A post counts as pinned exactly when the wall marks it with 1.
    pub open spec fn spec_is_pinned(&self) -> bool {
        self.is_pinned == Some(1u8)
    }

    pub fn is_pinned(&self) -> (r: bool)
        ensures
            r == self.spec_is_pinned(),
    {
        match self.is_pinned {
            Some(v) => v == 1,
            None => false,
        }
    }
}

/// Source of a reposted or quoted material.
#[derive(Clone, Debug)]
pub struct Copyright {
    pub id: i64,
    pub link: Option<String>,
    pub name: Option<String>,
    pub kind: Option<String>,
}

/// Kind of a wall post.
#[derive(Clone, Debug)]
pub enum Type {
    Post,
    Copy,
    Reply,
    Postpone,
    Suggest,
    Other(String),
}

} // verus!
