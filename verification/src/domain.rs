//! Core data model: one configured wall/channel pair and the message shape
//! handed to the delivery side.

use vstd::prelude::*;
use vstd::string::StrSliceExecFns;
use vstd::string::StringExecFns;

verus! {

/// The decimal digit character for `d`, which must be between 0 and 9.
pub open spec fn digit_char(d: int) -> char {
    if d == 0 {
        '0'
    } else if d == 1 {
        '1'
    } else if d == 2 {
        '2'
    } else if d == 3 {
        '3'
    } else if d == 4 {
        '4'
    } else if d == 5 {
        '5'
    } else if d == 6 {
        '6'
    } else if d == 7 {
        '7'
    } else if d == 8 {
        '8'
    } else {
        '9'
    }
}

/// The decimal digits of a non-negative number, most significant first.
pub open spec fn dec_digits(n: nat) -> Seq<char>
    decreases n,
{
    if n < 10 {
        seq![digit_char(n as int)]
    } else {
        dec_digits(n / 10).push(digit_char((n % 10) as int))
    }
}

/// The decimal form of an integer: a minus sign for negative values, then
/// the digits.
pub open spec fn dec_string(v: int) -> Seq<char> {
    if v < 0 {
        seq!['-'] + dec_digits((-v) as nat)
    } else {
        dec_digits(v as nat)
    }
}

fn digit_of(d: u64) -> (r: char)
    requires
        d < 10,
    ensures
        r == digit_char(d as int),
{
    match d {
        0 => '0',
        1 => '1',
        2 => '2',
        3 => '3',
        4 => '4',
        5 => '5',
        6 => '6',
        7 => '7',
        8 => '8',
        _ => '9',
    }
}

fn push_dec_digits(s: &mut String, n: u64)
    ensures
        final(s)@ == old(s)@ + dec_digits(n as nat),
    decreases n,
{
    if n < 10 {
        s.push(digit_of(n));
        proof {
            assert(s@ =~= old(s)@ + dec_digits(n as nat));
        }
    } else {
        push_dec_digits(s, n / 10);
        s.push(digit_of(n % 10));
        proof {
            assert(s@ =~= old(s)@ + dec_digits(n as nat));
        }
    }
}

/// Persistence primary key of one configured pair.
#[derive(Clone, Copy, Debug, PartialEq, Eq, Structural, Hash)]
pub struct ChannelEntryId(pub i32);

/// Short address of the VK user or community whose wall is read.
#[derive(Clone, Debug)]
pub struct VkId(pub String);

impl VkId {
    /// The wall's address: `https://vk.com/` followed by the identifier.
    pub fn link(&self) -> (r: String)
        ensures
            r@ == "https://vk.com/"@ + self.0@,
    {
        let mut s = String::from_str("https://vk.com/");
        s.append(self.0.as_str());
        s
    }
}

/// Identifier of the Telegram channel that receives the posts.
#[derive(Clone, Copy, Debug, PartialEq, Eq, Structural)]
pub struct TelegramChannelId(pub i64);

/// The decimal form of a channel identifier without the `-100` prefix that
/// marks channel chats; a form without that prefix stays as it is.
pub open spec fn strip_chan_prefix(s: Seq<char>) -> Seq<char> {
    if s.len() >= 4 && s.take(4) == seq!['-', '1', '0', '0'] {
        s.skip(4)
    } else {
        s
    }
}

impl TelegramChannelId {
    /// The identifier in decimal form.
    pub fn id_string(&self) -> (r: String)
        ensures
            r@ == dec_string(self.0 as int),
    {
        let mut s = String::new();
        if self.0 < 0 {
            s.push('-');
            let mag: u64 = ((-(self.0 as i128)) as u64);
            push_dec_digits(&mut s, mag);
            proof {
                assert(s@ =~= dec_string(self.0 as int));
            }
        } else {
            push_dec_digits(&mut s, self.0 as u64);
            proof {
                assert(s@ =~= dec_string(self.0 as int));
            }
        }
        s
    }

    /// The channel's address: `https://t.me/c/` followed by the decimal
    /// identifier, with a leading `-100` stripped.
    pub fn link(&self) -> (r: String)
        ensures
            r@ == "https://t.me/c/"@ + strip_chan_prefix(dec_string(self.0 as int)),
    {
        let id = self.id_string();
        let n = id.as_str().unicode_len();
        let has_prefix = n >= 4 && id.as_str().get_char(0) == '-' && id.as_str().get_char(1)
            == '1' && id.as_str().get_char(2) == '0' && id.as_str().get_char(3) == '0';
        proof {
            if has_prefix {
                assert(id@.take(4) =~= seq!['-', '1', '0', '0']);
            } else if id@.len() >= 4 && id@.take(4) == seq!['-', '1', '0', '0'] {
                assert(id@[0] == id@.take(4)[0]);
                assert(id@[1] == id@.take(4)[1]);
                assert(id@[2] == id@.take(4)[2]);
                assert(id@[3] == id@.take(4)[3]);
            }
        }
        let mut out = String::from_str("https://t.me/c/");
        let ghost prefix = out@;
        let mut i: usize = if has_prefix {
            4
        } else {
            0
        };
        let ghost start = i as int;
        while i < n
            invariant
                n == id@.len(),
                0 <= start <= i <= n,
                out@ == prefix + id@.subrange(start, i as int),
            decreases n - i,
        {
            out.push(id.as_str().get_char(i));
            proof {
                assert(id@.subrange(start, i + 1).drop_last() =~= id@.subrange(start, i as int));
                assert(out@ =~= prefix + id@.subrange(start, i + 1));
            }
            i = i + 1;
        }
        proof {
            if has_prefix {
                assert(id@.subrange(4, n as int) =~= id@.skip(4));
            } else {
                assert(id@.subrange(0, n as int) =~= id@);
            }
        }
        out
    }
}

/// Configuration and polling state of one pair.
///
/// Times are unix timestamps in seconds; `poll_interval` is a number of
/// seconds. `last_post_datetime` is the checkpoint: the publication time of
/// the most recently confirmed-delivered post. While it is `None` the pair is
/// still in its bootstrap phase.
#[derive(Clone, Debug)]
pub struct ChannelInfo {
    /// Identifier of the Telegram channel, where the posts are sent.
    pub tg_channel: TelegramChannelId,

    /// Identifier of the VK wall, where the posts are read from.
    pub vk_public_id: VkId,

    /// Interval between two checks for new posts, in seconds.
    pub poll_interval: i64,

    /// Time of the last check for new posts.
    pub last_poll_datetime: Option<i64>,

    /// Publication time of the last delivered post (the checkpoint).
    pub last_post_datetime: Option<i64>,
}

impl ChannelInfo {
    /// Basic sanity of a pair: a positive poll interval and non-negative
    /// timestamps.
    pub open spec fn wf(&self) -> bool {
        &&& self.poll_interval > 0
        &&& match self.last_poll_datetime {
            Some(t) => t >= 0,
            None => true,
        }
        &&& match self.last_post_datetime {
            Some(t) => t >= 0,
            None => true,
        }
    }

    /// A cycle is due when the pair was never polled, or the poll interval
    /// has elapsed since the last poll.
    pub fn is_due(&self, now: i64) -> (r: bool)
        requires
            self.wf(),
            now >= 0,
        ensures
            r == match self.last_poll_datetime {
                None => true,
                Some(t) => now - t >= self.poll_interval,
            },
    {
        match self.last_poll_datetime {
            None => true,
            Some(t) => now - t >= self.poll_interval,
        }
    }

    /// A pair without a checkpoint still has to run a bootstrap cycle.
    pub fn needs_bootstrap(&self) -> (r: bool)
        ensures
            r == (self.last_post_datetime is None),
    {
        self.last_post_datetime.is_none()
    }

    /// Records that a poll cycle ran at `now`; nothing else changes.
    pub fn record_poll(&mut self, now: i64)
        requires
            old(self).wf(),
            now >= 0,
        ensures
            final(self).wf(),
            final(self).last_poll_datetime == Some(now),
            final(self).tg_channel == old(self).tg_channel,
            final(self).vk_public_id == old(self).vk_public_id,
            final(self).poll_interval == old(self).poll_interval,
            final(self).last_post_datetime == old(self).last_post_datetime,
    {
        self.last_poll_datetime = Some(now);
    }

    /// Moves the checkpoint forward to `ts`. The checkpoint, once set, never
    /// decreases: callers hand in the publication time of a post that was
    /// just confirmed delivered, which is never older than the checkpoint.
    pub fn advance_checkpoint(&mut self, ts: i64)
        requires
            old(self).wf(),
            ts >= 0,
            match old(self).last_post_datetime {
                Some(c) => ts >= c,
                None => true,
            },
        ensures
            final(self).wf(),
            final(self).last_post_datetime == Some(ts),
            final(self).tg_channel == old(self).tg_channel,
            final(self).vk_public_id == old(self).vk_public_id,
            final(self).poll_interval == old(self).poll_interval,
            final(self).last_poll_datetime == old(self).last_poll_datetime,
    {
        self.last_post_datetime = Some(ts);
    }
}

/// One post ready to be sent to Telegram.
#[derive(Clone, Debug)]
pub struct TelegramPost {
    pub channel_id: TelegramChannelId,
    pub text: String,
    pub photos: Vec<TelegramPostPhoto>,
    pub is_pinned: bool,
}

/// One photo of a post: the address of the copy to fetch and its caption.
/// Fetching the bytes is the delivery side's concern.
#[derive(Clone, Debug)]
pub struct TelegramPostPhoto {
    pub url: String,
    pub description: String,
}

} // verus!
