//! Envelope every VK API method wraps its payload in.

use vstd::prelude::*;

verus! {

/// The `response` envelope of a VK API answer.
#[derive(Clone, Debug)]
pub struct Response<T> {
    pub response: T,
}

} // verus!
