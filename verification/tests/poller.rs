use vk_mirror::domain::ChannelInfo;
use vk_mirror::domain::TelegramChannelId;
use vk_mirror::domain::VkId;
use vk_mirror::vk_api::Post;
use vk_mirror::vk_api::Type;
use vk_mirror::vk_poller::poller::apply_bootstrap;
use vk_mirror::vk_poller::poller::BootstrapOutcome;
use vk_mirror::vk_poller::poller::BootstrapScan;
use vk_mirror::vk_poller::poller::WallScan;
use vk_mirror::vk_poller::poller::WALL_PAGE_SIZE;

fn post(id: i64, date: i64, pinned: bool) -> Post {
    Post {
        id,
        from_id: 7,
        date,
        text: String::new(),
        reply_owner_id: None,
        reply_post_id: None,
        copyright: None,
        post_type: Type::Post,
        attachments: vec![],
        signer_id: None,
        is_pinned: if pinned { Some(1) } else { None },
    }
}

fn pair() -> ChannelInfo {
    ChannelInfo {
        tg_channel: TelegramChannelId(-100123),
        vk_public_id: VkId("club1".to_owned()),
        poll_interval: 2,
        last_poll_datetime: None,
        last_post_datetime: None,
    }
}

/// Checkpoint t2; one newest-first page [P5@t5, P4@t4, P3(pinned)@t3,
/// P2@t2, P1@t1]: the scan collects P5, P4 and P3 (P2 is not pinned and at
/// the checkpoint, so it halts the scan), the batch delivers them sorted
/// ascending, and the checkpoint ends at t5.
#[test]
fn steady_cycle_collects_sorts_and_delivers() {
    let page = vec![
        post(5, 5, false),
        post(4, 4, false),
        post(3, 3, true),
        post(2, 2, false),
        post(1, 1, false),
    ];
    let mut scan = WallScan::new(2);
    assert_eq!(scan.next_request(), Some((0, WALL_PAGE_SIZE)));
    scan.on_page(page);
    assert_eq!(scan.next_request(), None);

    let mut batch = scan.finish();
    let ids: Vec<i64> = batch.candidates.iter().map(|p| p.id).collect();
    assert_eq!(ids, vec![3, 4, 5]);

    let mut delivered = Vec::new();
    while let Some(p) = batch.current() {
        delivered.push(p.id);
        batch.on_delivered();
    }
    assert_eq!(delivered, vec![3, 4, 5]);
    assert_eq!(batch.checkpoint(), 5);
}

/// The same page, but P3 pinned at t0 before the checkpoint: it is
/// skipped — neither collected nor a stop signal — and the scan continues
/// past it to P2, which halts it.
#[test]
fn pinned_old_post_is_skipped_not_a_stop_signal() {
    let page = vec![
        post(5, 5, false),
        post(4, 4, false),
        post(3, 0, true),
        post(2, 2, false),
        post(1, 1, false),
    ];
    let mut scan = WallScan::new(2);
    scan.on_page(page);
    assert_eq!(scan.next_request(), None);

    let batch = scan.finish();
    let ids: Vec<i64> = batch.candidates.iter().map(|p| p.id).collect();
    assert_eq!(ids, vec![4, 5]);
}

/// A delivery failure at P4 after P3 succeeded: the checkpoint advances
/// only to t3 and the batch ends. The next cycle rediscovers P4 and P5 and
/// retries them; P3 (pinned, now at the checkpoint) is not redelivered.
#[test]
fn delivery_failure_stops_the_batch_and_is_retried() {
    let wall = || {
        vec![
            post(5, 5, false),
            post(4, 4, false),
            post(3, 3, true),
            post(2, 2, false),
            post(1, 1, false),
        ]
    };

    let mut scan = WallScan::new(2);
    scan.on_page(wall());
    let mut batch = scan.finish();

    // P3 is delivered, then delivering P4 fails.
    assert_eq!(batch.current().unwrap().id, 3);
    batch.on_delivered();
    assert_eq!(batch.current().unwrap().id, 4);
    batch.on_failed();
    assert!(batch.current().is_none());
    assert_eq!(batch.checkpoint(), 3);

    // The next cycle runs with checkpoint t3: it rediscovers P4 and P5 and
    // passes over the pinned P3 without collecting it again.
    let mut scan = WallScan::new(batch.checkpoint());
    scan.on_page(wall());
    let mut batch = scan.finish();
    let mut delivered = Vec::new();
    while let Some(p) = batch.current() {
        delivered.push(p.id);
        batch.on_delivered();
    }
    assert_eq!(delivered, vec![4, 5]);
    assert_eq!(batch.checkpoint(), 5);
}

/// Bootstrap over an empty wall leaves the checkpoint unset, and the next
/// cycle runs bootstrap again, not steady state.
#[test]
fn bootstrap_over_empty_wall_retries_bootstrap() {
    let mut info = pair();
    assert!(info.needs_bootstrap());

    let mut scan = BootstrapScan::new();
    assert_eq!(scan.next_request(), (0, WALL_PAGE_SIZE));
    let outcome = scan.on_page(vec![]);
    assert!(matches!(outcome, BootstrapOutcome::EndOfWall));

    apply_bootstrap(&mut info, &outcome);
    assert_eq!(info.last_post_datetime, None);
    assert!(info.needs_bootstrap());
}

/// Bootstrap walks past pages of pinned posts and starts the checkpoint at
/// the first non-pinned post, without delivering it.
#[test]
fn bootstrap_finds_the_first_non_pinned_post() {
    let mut info = pair();
    let mut scan = BootstrapScan::new();

    let outcome = scan.on_page(vec![post(9, 9, true), post(8, 8, true)]);
    assert!(matches!(outcome, BootstrapOutcome::KeepScanning));
    assert_eq!(scan.next_request(), (WALL_PAGE_SIZE, WALL_PAGE_SIZE));

    let outcome = scan.on_page(vec![post(7, 7, true), post(6, 6, false), post(5, 5, false)]);
    match &outcome {
        BootstrapOutcome::Found(p) => assert_eq!(p.id, 6),
        _ => panic!("expected the first non-pinned post"),
    }

    apply_bootstrap(&mut info, &outcome);
    assert_eq!(info.last_post_datetime, Some(6));
    assert!(!info.needs_bootstrap());
}

/// A steady-state scan paginates until a page comes back empty when no
/// post halts it, and delivers everything newer than the checkpoint in
/// publication order.
#[test]
fn steady_cycle_paginates_to_the_end_of_the_wall() {
    let mut scan = WallScan::new(0);
    scan.on_page(vec![
        post(10, 10, false),
        post(9, 9, false),
        post(8, 8, false),
        post(7, 7, false),
        post(6, 6, false),
    ]);
    assert_eq!(scan.next_request(), Some((WALL_PAGE_SIZE, WALL_PAGE_SIZE)));
    scan.on_page(vec![
        post(5, 5, false),
        post(4, 4, false),
        post(3, 3, false),
        post(2, 2, false),
        post(1, 1, false),
    ]);
    assert_eq!(scan.next_request(), Some((2 * WALL_PAGE_SIZE, WALL_PAGE_SIZE)));
    scan.on_page(vec![]);
    assert_eq!(scan.next_request(), None);

    let mut batch = scan.finish();
    let mut delivered = Vec::new();
    while let Some(p) = batch.current() {
        delivered.push(p.date);
        batch.on_delivered();
    }
    assert_eq!(delivered, (1..=10).collect::<Vec<i64>>());
    assert_eq!(batch.checkpoint(), 10);
}

/// A pinned post newer than the checkpoint is collected like any other
/// candidate, and the final sort restores publication order.
#[test]
fn pinned_new_post_is_collected_and_sorted_into_place() {
    // The wall surfaces the pinned post first although an older one
    // follows it.
    let page = vec![post(3, 3, true), post(5, 5, false), post(4, 4, false)];
    let mut scan = WallScan::new(2);
    scan.on_page(page);
    // Nothing halted the scan; the next page is empty.
    assert_eq!(scan.next_request(), Some((WALL_PAGE_SIZE, WALL_PAGE_SIZE)));
    scan.on_page(vec![]);

    let batch = scan.finish();
    let dates: Vec<i64> = batch.candidates.iter().map(|p| p.date).collect();
    assert_eq!(dates, vec![3, 4, 5]);
}

/// A page whose first post is non-pinned and at the checkpoint halts the
/// scan at once: nothing is collected and nothing is delivered.
#[test]
fn scan_with_nothing_new_collects_nothing() {
    let mut scan = WallScan::new(7);
    scan.on_page(vec![post(7, 7, false), post(6, 6, false)]);
    assert_eq!(scan.next_request(), None);

    let mut batch = scan.finish();
    assert!(batch.current().is_none());
    assert_eq!(batch.checkpoint(), 7);
}

/// The due check: a pair is due when never polled, or once the interval
/// has elapsed.
#[test]
fn poll_due_check() {
    let mut info = pair();
    assert!(info.is_due(0));
    info.record_poll(100);
    assert_eq!(info.last_poll_datetime, Some(100));
    assert!(!info.is_due(101));
    assert!(info.is_due(102));
    assert!(info.is_due(500));
}

/// The checkpoint only moves forward.
#[test]
fn checkpoint_advances_monotonically() {
    let mut info = pair();
    info.advance_checkpoint(5);
    assert_eq!(info.last_post_datetime, Some(5));
    info.advance_checkpoint(5);
    assert_eq!(info.last_post_datetime, Some(5));
    info.advance_checkpoint(9);
    assert_eq!(info.last_post_datetime, Some(9));
}
