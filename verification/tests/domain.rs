use tokio_util::sync::CancellationToken;
use vk_mirror::db::Channel;
use vk_mirror::db::NewChannel;
use vk_mirror::domain::ChannelEntryId;
use vk_mirror::domain::ChannelInfo;
use vk_mirror::domain::TelegramChannelId;
use vk_mirror::domain::VkId;
use vk_mirror::vk_poller::converter::escape_characters;
use vk_mirror::vk_poller::PollerRegistry;

#[test]
fn vk_link() {
    assert_eq!(VkId("club1".to_owned()).link().as_str(), "https://vk.com/club1");
}

#[test]
fn telegram_link_strips_the_channel_prefix() {
    assert_eq!(TelegramChannelId(-1001234567).link().as_str(), "https://t.me/c/1234567");
}

#[test]
fn telegram_link_without_the_prefix() {
    assert_eq!(TelegramChannelId(42).link().as_str(), "https://t.me/c/42");
    assert_eq!(TelegramChannelId(-5).link().as_str(), "https://t.me/c/-5");
}

#[test]
fn telegram_id_string_handles_extremes() {
    assert_eq!(TelegramChannelId(0).id_string().as_str(), "0");
    assert_eq!(TelegramChannelId(i64::MAX).id_string().as_str(), "9223372036854775807");
    assert_eq!(TelegramChannelId(i64::MIN).id_string().as_str(), "-9223372036854775808");
}

#[test]
fn pair_row_conversion_round_trip() {
    let row = Channel {
        id: 3,
        tg_channel_id: -100123,
        vk_public_id: "club1".to_owned(),
        poll_interval_secs: 30,
        last_poll_timestamp: Some(1000),
        last_post_timestamp: Some(900),
    };
    let info = ChannelInfo::from(row);
    assert_eq!(info.tg_channel, TelegramChannelId(-100123));
    assert_eq!(info.vk_public_id.0.as_str(), "club1");
    assert_eq!(info.poll_interval, 30);
    assert_eq!(info.last_poll_datetime, Some(1000));
    assert_eq!(info.last_post_datetime, Some(900));

    let row = NewChannel::from(info);
    assert_eq!(row.tg_channel_id, -100123);
    assert_eq!(row.vk_public_id.as_str(), "club1");
    assert_eq!(row.poll_interval_secs, 30);
    assert_eq!(row.last_poll_timestamp, Some(1000));
    assert_eq!(row.last_post_timestamp, Some(900));
}

#[test]
fn pair_row_conversion_pins_an_oversized_interval() {
    let info = ChannelInfo {
        tg_channel: TelegramChannelId(1),
        vk_public_id: VkId("w".to_owned()),
        poll_interval: i32::MAX as i64 + 1,
        last_poll_datetime: None,
        last_post_datetime: None,
    };
    let row = NewChannel::from(info);
    assert_eq!(row.poll_interval_secs, i32::MAX);
}

#[test]
fn escape_passes_other_unicode_through() {
    assert_eq!(escape_characters("привет, мир").as_str(), "привет, мир");
    assert_eq!(escape_characters("а.б").as_str(), "а\\.б");
}

#[test]
fn registry_replaces_the_handle_of_a_pair() {
    let mut registry = PollerRegistry::new();
    let first = CancellationToken::new();
    let second = CancellationToken::new();
    let first_watcher = first.clone();
    let second_watcher = second.clone();

    registry.register(ChannelEntryId(9), first);
    registry.register(ChannelEntryId(9), second);
    assert_eq!(registry.len(), 1);

    // Deleting the pair cancels the handle registered last.
    assert!(registry.cancel_and_remove(ChannelEntryId(9)));
    assert!(!first_watcher.is_cancelled());
    assert!(second_watcher.is_cancelled());
}

#[test]
fn registry_tracks_one_poller_per_pair() {
    let mut registry = PollerRegistry::new();
    assert_eq!(registry.len(), 0);

    let token = CancellationToken::new();
    let watcher = token.clone();
    registry.register(ChannelEntryId(1), token);
    assert!(registry.contains(ChannelEntryId(1)));
    assert!(!registry.contains(ChannelEntryId(2)));
    assert_eq!(registry.len(), 1);

    // Deleting the pair cancels its task's token and removes the entry.
    assert!(!watcher.is_cancelled());
    assert!(registry.cancel_and_remove(ChannelEntryId(1)));
    assert!(watcher.is_cancelled());
    assert!(!registry.contains(ChannelEntryId(1)));
    assert_eq!(registry.len(), 0);

    // A pair without a running poller reports a failed delete.
    assert!(!registry.cancel_and_remove(ChannelEntryId(1)));
}
