//! Debug settings of the wall API client. The client itself does network
//! transport and lives outside the crate; it only carries these values.

use vstd::prelude::*;

verus! {

/// Debug parameters of the wall API client.
#[derive(Clone, Debug)]
pub struct ClientDebug {
    /// Whether responses are saved under `responses_dir_path`.
    pub save_responses: bool,

    /// Directory where responses are saved when `save_responses` is set.
    ///
    /// File name shape: `vk-response-method-timestamp.json`.
    pub responses_dir_path: String,
}

} // verus!
