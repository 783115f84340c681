//! Row shapes of the pair table and their conversions to and from the
//! domain model. The storage engine itself lives outside the crate and
//! exchanges these plain rows with it.

use crate::domain::ChannelInfo;
use crate::domain::TelegramChannelId;
use crate::domain::VkId;
use vstd::prelude::*;

verus! {

/// A pair row as it is inserted or updated.
#[derive(Clone, Debug)]
pub struct NewChannel {
    /// Identifier of the Telegram channel, where the posts are sent.
    pub tg_channel_id: i64,

    /// Identifier of the VK wall, where the posts are read from.
    pub vk_public_id: String,

    /// Interval between checks for new posts, in seconds.
    pub poll_interval_secs: i32,

    /// Time of the last check for new posts.
    pub last_poll_timestamp: Option<i64>,

    /// Publication time of the last delivered post.
    pub last_post_timestamp: Option<i64>,
}

/// A pair row as it is read back, with its key.
#[derive(Clone, Debug)]
pub struct Channel {
    pub id: i32,

    /// Identifier of the Telegram channel, where the posts are sent.
    pub tg_channel_id: i64,

    /// Identifier of the VK wall, where the posts are read from.
    pub vk_public_id: String,

    /// Interval between checks for new posts, in seconds.
    pub poll_interval_secs: i32,

    /// Time of the last check for new posts.
    pub last_poll_timestamp: Option<i64>,

    /// Publication time of the last delivered post.
    pub last_post_timestamp: Option<i64>,
}

/// The stored interval column is 32 bits wide: an interval outside its
/// range is pinned to the largest storable value.
pub open spec fn clamp_interval(secs: i64) -> i32 {
    if 0 <= secs <= i32::MAX {
        secs as i32
    } else {
        i32::MAX
    }
}

impl vstd::std_specs::convert::FromSpecImpl<ChannelInfo> for NewChannel {
    open spec fn obeys_from_spec() -> bool {
        true
    }

    open spec fn from_spec(info: ChannelInfo) -> Self {
        NewChannel {
            tg_channel_id: info.tg_channel.0,
            vk_public_id: info.vk_public_id.0,
            poll_interval_secs: clamp_interval(info.poll_interval),
            last_poll_timestamp: info.last_poll_datetime,
            last_post_timestamp: info.last_post_datetime,
        }
    }
}

impl From<ChannelInfo> for NewChannel {
    fn from(info: ChannelInfo) -> (r: Self) {
        let poll_interval_secs: i32 = if 0 <= info.poll_interval && info.poll_interval <= i32::MAX as i64 {
            info.poll_interval as i32
        } else {
            i32::MAX
        };

        NewChannel {
            tg_channel_id: info.tg_channel.0,
            vk_public_id: info.vk_public_id.0,
            poll_interval_secs,
            last_poll_timestamp: info.last_poll_datetime,
            last_post_timestamp: info.last_post_datetime,
        }
    }
}

impl vstd::std_specs::convert::FromSpecImpl<Channel> for ChannelInfo {
    open spec fn obeys_from_spec() -> bool {
        true
    }

    open spec fn from_spec(ch: Channel) -> Self {
        ChannelInfo {
            tg_channel: TelegramChannelId(ch.tg_channel_id),
            vk_public_id: VkId(ch.vk_public_id),
            poll_interval: ch.poll_interval_secs as i64,
            last_poll_datetime: ch.last_poll_timestamp,
            last_post_datetime: ch.last_post_timestamp,
        }
    }
}

impl From<Channel> for ChannelInfo {
    fn from(ch: Channel) -> (r: Self) {
        ChannelInfo {
            tg_channel: TelegramChannelId(ch.tg_channel_id),
            vk_public_id: VkId(ch.vk_public_id),
            poll_interval: ch.poll_interval_secs as i64,
            last_poll_datetime: ch.last_poll_timestamp,
            last_post_datetime: ch.last_post_timestamp,
        }
    }
}

} // verus!
