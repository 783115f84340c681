//! The per-pair polling state machines.
//!
//! The wall offers no incremental read: only "fetch the newest N posts at
//! an offset". Steady-state cycles therefore scan newest-first pages
//! against the checkpoint ([`WallScan`]), sort what was collected into
//! publication order, and deliver oldest first, advancing the checkpoint
//! only past posts whose delivery was confirmed ([`DeliveryBatch`]).
//! A pair without a checkpoint first looks for the newest non-pinned post
//! and starts from there without delivering it ([`BootstrapScan`]).
//!
//! The caller owns the timer, the fetch and the delivery transport; it
//! feeds fetched pages and delivery outcomes into these machines.

use crate::domain::ChannelInfo;
use crate::vk_api::Post;
use vstd::prelude::*;

verus! {

/// Number of posts read per wall page.
pub const WALL_PAGE_SIZE: usize = 5;

/// A post that halts a steady-state scan: not pinned and published at or
/// before the checkpoint. Everything older than it was already seen.
pub open spec fn halts_scan(cp: int, p: Post) -> bool {
    !p.spec_is_pinned() && p.date <= cp
}

/// Index of the first post of the page that halts the scan, or
/// `page.len()` when none does.
pub open spec fn halt_index(cp: int, page: Seq<Post>) -> int
    decreases page.len(),
{
    if page.len() == 0 {
        0
    } else if halts_scan(cp, page.first()) {
        0
    } else {
        1 + halt_index(cp, page.drop_first())
    }
}

/// Whether some post of the page halts the scan.
pub open spec fn page_halts(cp: int, page: Seq<Post>) -> bool {
    halt_index(cp, page) < page.len()
}

/// The posts of the page that are newer than the checkpoint, in page
/// order.
pub open spec fn collect_newer(cp: int, page: Seq<Post>) -> Seq<Post>
    decreases page.len(),
{
    if page.len() == 0 {
        Seq::empty()
    } else {
        collect_newer(cp, page.drop_last()) + (if page.last().date > cp {
            seq![page.last()]
        } else {
            Seq::empty()
        })
    }
}

/// The delivery candidates of one page: every post newer than the
/// checkpoint standing before the halting post. A pinned post at or before
/// the checkpoint is skipped without halting the scan.
pub open spec fn page_candidates(cp: int, page: Seq<Post>) -> Seq<Post> {
    collect_newer(cp, page.take(halt_index(cp, page)))
}

/// The halt index is the first halting position: it is within bounds,
/// nothing before it halts, and it halts when it is within the page.
pub proof fn lemma_halt_index(cp: int, page: Seq<Post>)
    ensures
        0 <= halt_index(cp, page) <= page.len(),
        page_halts(cp, page) ==> halts_scan(cp, page[halt_index(cp, page)]),
        forall|j: int| 0 <= j < halt_index(cp, page) ==> !halts_scan(cp, #[trigger] page[j]),
    decreases page.len(),
{
    if page.len() > 0 && !halts_scan(cp, page.first()) {
        lemma_halt_index(cp, page.drop_first());
        assert(forall|j: int| 1 <= j < page.len() ==> page[j] == page.drop_first()[j - 1]);
    }
}

/// Everything `collect_newer` keeps is newer than the checkpoint and taken
/// from the page.
proof fn lemma_collect_newer(cp: int, page: Seq<Post>)
    ensures
        forall|i: int|
            0 <= i < collect_newer(cp, page).len() ==> (#[trigger] collect_newer(cp, page)[i]).date
                > cp,
        forall|i: int|
            0 <= i < collect_newer(cp, page).len() ==> page.contains(
                #[trigger] collect_newer(cp, page)[i],
            ),
    decreases page.len(),
{
    if page.len() > 0 {
        lemma_collect_newer(cp, page.drop_last());
        assert(forall|i: int|
            0 <= i < page.drop_last().len() ==> page.contains(#[trigger] page.drop_last()[i]));
    }
}

/// No post published at or before the checkpoint is ever collected: every
/// delivery candidate a page contributes is strictly newer than it.
pub proof fn lemma_candidates_newer(cp: int, page: Seq<Post>)
    ensures
        forall|i: int|
            0 <= i < page_candidates(cp, page).len() ==> (#[trigger] page_candidates(cp, page)[i]).date
                > cp,
{
    lemma_collect_newer(cp, page.take(halt_index(cp, page)));
}

/// A pinned post at or before the checkpoint never halts the scan; a
/// non-pinned post at or before it always halts it, at its position or
/// earlier.
pub proof fn lemma_halting(cp: int, page: Seq<Post>, i: int)
    requires
        0 <= i < page.len(),
    ensures
        page[i].spec_is_pinned() && page[i].date <= cp ==> halt_index(cp, page) != i,
        !page[i].spec_is_pinned() && page[i].date <= cp ==> page_halts(cp, page) && halt_index(
            cp,
            page,
        ) <= i,
{
    lemma_halt_index(cp, page);
}

/// Non-decreasing order of a sequence of timestamps.
pub open spec fn non_decreasing(s: Seq<int>) -> bool {
    forall|i: int, j: int| 0 <= i < j < s.len() ==> s[i] <= s[j]
}

/// Posts in non-decreasing publication order.
pub open spec fn sorted_by_date(s: Seq<Post>) -> bool {
    forall|i: int, j: int| 0 <= i < j < s.len() ==> s[i].date <= s[j].date
}

/// Relies on std's slice swap: exchanges the elements at `i` and `j`.
#[verifier::external_body]
fn swap_posts(v: &mut Vec<Post>, i: usize, j: usize)
    requires
        i < old(v)@.len(),
        j < old(v)@.len(),
    ensures
        final(v)@ == old(v)@.update(i as int, old(v)@[j as int]).update(
            j as int,
            old(v)@[i as int],
        ),
{
    v.swap(i, j);
}

proof fn lemma_swap_multiset(s: Seq<Post>, i: int, j: int)
    requires
        0 <= i < s.len(),
        0 <= j < s.len(),
    ensures
        s.update(i, s[j]).update(j, s[i]).to_multiset() == s.to_multiset(),
{
    broadcast use vstd::seq_lib::group_to_multiset_ensures;
    broadcast use vstd::seq_lib::to_multiset_update;

    assert(s.contains(s[i]));
    assert(s.contains(s[j]));
    let s1 = s.update(i, s[j]);
    assert(s1.contains(s1[j]));
    assert(s.update(i, s[j]).update(j, s[i]).to_multiset() =~= s.to_multiset());
}

/// Sorts the posts into non-decreasing publication order; the collection
/// of posts is unchanged.
fn sort_posts_by_date(v: &mut Vec<Post>)
    ensures
        sorted_by_date(final(v)@),
        final(v)@.to_multiset() == old(v)@.to_multiset(),
        final(v)@.len() == old(v)@.len(),
{
    let n = v.len();
    if n < 2 {
        return;
    }
    let mut i: usize = 1;
    while i < n
        invariant
            1 <= i <= n,
            n == v@.len(),
            v@.to_multiset() == old(v)@.to_multiset(),
            sorted_by_date(v@.take(i as int)),
        decreases n - i,
    {
        let mut j: usize = i;
        proof {
            assert forall|a: int, b: int| 0 <= a < b <= i && b != j implies v@[a].date
                <= v@[b].date by {
                assert(v@.take(i as int)[a] == v@[a]);
                assert(v@.take(i as int)[b] == v@[b]);
            }
        }
        while j > 0 && v[j - 1].date > v[j].date
            invariant
                j <= i < n,
                n == v@.len(),
                v@.to_multiset() == old(v)@.to_multiset(),
                forall|a: int, b: int|
                    0 <= a < b <= i && b != j ==> v@[a].date <= v@[b].date,
            decreases j,
        {
            proof {
                lemma_swap_multiset(v@, j - 1, j as int);
            }
            swap_posts(v, j - 1, j);
            j = j - 1;
        }
        i = i + 1;
    }
    proof {
        assert(v@.take(n as int) =~= v@);
    }
}

/// The steady-state pagination scan of one cycle: newest-first pages are
/// fed in until a non-pinned post at or before the checkpoint, or an empty
/// page, ends the scan.
pub struct WallScan {
    /// The checkpoint the scan runs against.
    pub checkpoint: i64,

    /// Offset of the next page to fetch.
    pub offset: usize,

    /// Delivery candidates collected so far, in page order.
    pub collected: Vec<Post>,

    /// Whether the scan reached its end.
    pub done: bool,
}

impl WallScan {
    /// Everything collected is newer than the checkpoint.
    pub open spec fn wf(&self) -> bool {
        forall|i: int|
            0 <= i < self.collected@.len() ==> (#[trigger] self.collected@[i]).date
                > self.checkpoint
    }

    /// Starts a scan against `checkpoint` at the top of the wall.
    pub fn new(checkpoint: i64) -> (r: Self)
        ensures
            r.wf(),
            r.checkpoint == checkpoint,
            r.offset == 0,
            r.collected@ == Seq::<Post>::empty(),
            !r.done,
    {
        WallScan { checkpoint, offset: 0, collected: Vec::new(), done: false }
    }

    /// The next page to fetch, as offset and size, or `None` when the scan
    /// is over.
    pub fn next_request(&self) -> (r: Option<(usize, usize)>)
        ensures
            match r {
                Some(t) => !self.done && t.0 == self.offset && t.1 == WALL_PAGE_SIZE,
                None => self.done,
            },
    {
        if self.done {
            None
        } else {
            Some((self.offset, WALL_PAGE_SIZE))
        }
    }

    /// Feeds one fetched page into the scan, in page order: a pinned post
    /// at or before the checkpoint is skipped, a non-pinned one at or
    /// before it ends the scan, everything newer is collected. An empty
    /// page ends the scan; otherwise a scan that goes on moves the offset
    /// one page further.
    pub fn on_page(&mut self, page: Vec<Post>)
        requires
            old(self).wf(),
            !old(self).done,
            old(self).offset + WALL_PAGE_SIZE <= usize::MAX,
        ensures
            final(self).wf(),
            final(self).checkpoint == old(self).checkpoint,
            ({
                let cp = old(self).checkpoint as int;
                if page@.len() == 0 {
                    &&& final(self).done
                    &&& final(self).collected@ == old(self).collected@
                    &&& final(self).offset == old(self).offset
                } else {
                    &&& final(self).done == page_halts(cp, page@)
                    &&& final(self).collected@ == old(self).collected@ + page_candidates(
                        cp,
                        page@,
                    )
                    &&& page_halts(cp, page@) ==> final(self).offset == old(self).offset
                    &&& !page_halts(cp, page@) ==> final(self).offset == old(self).offset
                        + WALL_PAGE_SIZE
                }
            }),
    {
        let ghost cp = self.checkpoint as int;
        let ghost page0 = page@;
        let ghost n = page0.len();
        proof {
            lemma_halt_index(cp, page0);
        }
        if page.len() == 0 {
            self.done = true;
            proof {
                assert(page0.take(0) =~= Seq::<Post>::empty());
            }
            return;
        }
        let page_len = page.len();
        let checkpoint = self.checkpoint;

        // First pass, read-only: find where the scan halts, if it does.
        let mut k: usize = 0;
        let mut halted = false;
        while k < page_len && !halted
            invariant
                n == page0.len(),
                page_len == n,
                k <= n,
                checkpoint as int == cp,
                page@ == page0,
                !halted ==> halt_index(cp, page0) >= k,
                halted ==> k < n && halt_index(cp, page0) == k,
                0 <= halt_index(cp, page0) <= n,
                page_halts(cp, page0) ==> halts_scan(cp, page0[halt_index(cp, page0)]),
                forall|j: int|
                    0 <= j < halt_index(cp, page0) ==> !halts_scan(cp, #[trigger] page0[j]),
            decreases n - k, (if halted { 0int } else { 1int }),
        {
            let p = &page[k];
            let pinned = p.is_pinned();
            if !pinned && p.date <= checkpoint {
                // A non-pinned post at or before the checkpoint: all older
                // posts were already seen, the scan halts here.
                proof {
                    assert(halts_scan(cp, page0[k as int]));
                    if halt_index(cp, page0) > k {
                        assert(!halts_scan(cp, page0[k as int]));
                    }
                }
                halted = true;
            } else {
                // Either a pinned post older than the checkpoint (skipped)
                // or a post newer than it (a candidate): scanning goes on.
                proof {
                    assert(!halts_scan(cp, page0[k as int]));
                    if halt_index(cp, page0) == k {
                        assert(halts_scan(cp, page0[k as int]));
                    }
                }
                k = k + 1;
            }
        }
        proof {
            if halted {
                assert(halt_index(cp, page0) == k);
            } else {
                assert(k == n);
                assert(halt_index(cp, page0) == n);
            }
        }

        // Second pass: move everything newer than the checkpoint that
        // stands before the halting post into the candidates.
        let ghost collected0 = self.collected@;
        let mut rest = page;
        let mut t: usize = 0;
        while t < k
            invariant
                n == page0.len(),
                t <= k <= n,
                self.checkpoint == old(self).checkpoint,
                self.offset == old(self).offset,
                self.done == old(self).done,
                checkpoint as int == cp,
                self.checkpoint as int == cp,
                rest@ == page0.skip(t as int),
                self.collected@ == collected0 + collect_newer(cp, page0.take(t as int)),
                forall|i: int|
                    0 <= i < self.collected@.len() ==> (#[trigger] self.collected@[i]).date > cp,
            decreases k - t,
        {
            let p = rest.remove(0);
            proof {
                assert(page0.skip(t as int)[0] == page0[t as int]);
                assert(p == page0[t as int]);
                assert(rest@ =~= page0.skip(t + 1));
                assert(page0.take(t + 1).drop_last() =~= page0.take(t as int));
                assert(page0.take(t + 1).last() == page0[t as int]);
            }
            if p.date > checkpoint {
                self.collected.push(p);
            }
            proof {
                assert(self.collected@ =~= collected0 + collect_newer(cp, page0.take(t + 1)));
            }
            t = t + 1;
        }
        if halted {
            self.done = true;
        } else {
            proof {
                assert(page0.take(n as int) =~= page0);
            }
            self.offset = self.offset + WALL_PAGE_SIZE;
        }
    }

    /// Ends the scan: sorts the candidates into publication order and
    /// hands them to a delivery batch that starts at this scan's
    /// checkpoint.
    pub fn finish(self) -> (b: DeliveryBatch)
        requires
            self.wf(),
            self.done,
        ensures
            b.wf(),
            b.scan_checkpoint == self.checkpoint,
            b.checkpoint == self.checkpoint,
            b.delivered == 0,
            !b.aborted,
            b.candidates@.to_multiset() == self.collected@.to_multiset(),
            sorted_by_date(b.candidates@),
    {
        let WallScan { checkpoint, offset: _, collected, done: _ } = self;
        let mut candidates = collected;
        sort_posts_by_date(&mut candidates);
        proof {
            broadcast use vstd::seq_lib::group_to_multiset_ensures;

            assert forall|i: int| 0 <= i < candidates@.len() implies (#[trigger] candidates@[i]).date
                > checkpoint by {
                assert(candidates@.contains(candidates@[i]));
                assert(candidates@.to_multiset().count(candidates@[i]) > 0);
            }
        }
        DeliveryBatch::new(checkpoint, candidates)
    }
}

/// The delivery half of one steady-state cycle: candidates sorted into
/// publication order, delivered oldest first. The checkpoint advances only
/// past a post whose delivery was confirmed; the first failure aborts the
/// rest of the batch, which the next cycle rediscovers.
pub struct DeliveryBatch {
    /// The checkpoint the scan that built this batch ran against.
    pub scan_checkpoint: i64,

    /// The current checkpoint: the publication time of the last post of
    /// this batch confirmed delivered, or `scan_checkpoint` before any.
    pub checkpoint: i64,

    /// The candidates, in non-decreasing publication order, all newer than
    /// `scan_checkpoint`.
    pub candidates: Vec<Post>,

    /// How many candidates were confirmed delivered.
    pub delivered: usize,

    /// Whether a failure ended the batch early.
    pub aborted: bool,
}

impl DeliveryBatch {
    pub open spec fn wf(&self) -> bool {
        &&& sorted_by_date(self.candidates@)
        &&& self.delivered <= self.candidates@.len()
        &&& forall|i: int|
            0 <= i < self.candidates@.len() ==> (#[trigger] self.candidates@[i]).date
                > self.scan_checkpoint
        &&& if self.delivered == 0 {
            self.checkpoint == self.scan_checkpoint
        } else {
            self.checkpoint == self.candidates@[self.delivered - 1].date
        }
    }

    /// Publication times of the posts of this batch confirmed delivered,
    /// in delivery order.
    pub open spec fn delivered_dates(&self) -> Seq<int> {
        self.candidates@.take(self.delivered as int).map_values(|p: Post| p.date as int)
    }

    /// Builds a batch over candidates sorted into publication order, all
    /// newer than the checkpoint.
    pub fn new(checkpoint: i64, candidates: Vec<Post>) -> (r: Self)
        requires
            sorted_by_date(candidates@),
            forall|i: int|
                0 <= i < candidates@.len() ==> (#[trigger] candidates@[i]).date > checkpoint,
        ensures
            r.wf(),
            r.scan_checkpoint == checkpoint,
            r.checkpoint == checkpoint,
            r.candidates@ == candidates@,
            r.delivered == 0,
            !r.aborted,
    {
        DeliveryBatch {
            scan_checkpoint: checkpoint,
            checkpoint,
            candidates,
            delivered: 0,
            aborted: false,
        }
    }

    /// The next post to deliver: the oldest candidate not yet confirmed,
    /// or `None` when the batch is exhausted or was aborted.
    pub fn current(&self) -> (r: Option<&Post>)
        requires
            self.wf(),
        ensures
            match r {
                Some(p) => !self.aborted && self.delivered < self.candidates@.len() && *p
                    == self.candidates@[self.delivered as int],
                None => self.aborted || self.delivered == self.candidates@.len(),
            },
    {
        if self.aborted || self.delivered >= self.candidates.len() {
            None
        } else {
            Some(&self.candidates[self.delivered])
        }
    }

    /// Confirms that the current post was delivered: the checkpoint moves
    /// to its publication time — never backwards — and the batch steps to
    /// the next candidate.
    pub fn on_delivered(&mut self)
        requires
            old(self).wf(),
            !old(self).aborted,
            old(self).delivered < old(self).candidates@.len(),
        ensures
            final(self).wf(),
            final(self).scan_checkpoint == old(self).scan_checkpoint,
            final(self).candidates == old(self).candidates,
            final(self).aborted == old(self).aborted,
            final(self).delivered == old(self).delivered + 1,
            final(self).checkpoint == old(self).candidates@[old(self).delivered as int].date,
            final(self).checkpoint >= old(self).checkpoint,
            final(self).delivered_dates() == old(self).delivered_dates().push(
                old(self).candidates@[old(self).delivered as int].date as int,
            ),
    {
        let n = self.candidates.len();
        self.checkpoint = self.candidates[self.delivered].date;
        self.delivered = self.delivered + 1;
        proof {
            assert(final(self).delivered_dates() =~= old(self).delivered_dates().push(
                old(self).candidates@[old(self).delivered as int].date as int,
            ));
        }
    }

    /// Records a conversion or delivery failure: the rest of the batch is
    /// abandoned; the checkpoint stays, so the next cycle rediscovers and
    /// retries everything not confirmed.
    pub fn on_failed(&mut self)
        requires
            old(self).wf(),
        ensures
            final(self).wf(),
            final(self).aborted,
            final(self).scan_checkpoint == old(self).scan_checkpoint,
            final(self).checkpoint == old(self).checkpoint,
            final(self).candidates == old(self).candidates,
            final(self).delivered == old(self).delivered,
            final(self).delivered_dates() == old(self).delivered_dates(),
    {
        self.aborted = true;
    }

    /// The checkpoint to persist after this batch.
    pub fn checkpoint(&self) -> (r: i64)
        ensures
            r == self.checkpoint,
    {
        self.checkpoint
    }
}

/// No post published at or before a checkpoint is ever delivered: every
/// post this batch confirmed is strictly newer than the checkpoint its
/// scan ran against — and hence newer than every earlier checkpoint of the
/// pair, since the checkpoint never decreases.
pub proof fn lemma_checkpoint_excludes_delivered(b: &DeliveryBatch)
    requires
        b.wf(),
    ensures
        forall|i: int|
            0 <= i < b.delivered_dates().len() ==> #[trigger] b.delivered_dates()[i]
                > b.scan_checkpoint,
{
    assert forall|i: int| 0 <= i < b.delivered_dates().len() implies #[trigger] b.delivered_dates()[i]
        > b.scan_checkpoint by {
        assert(b.delivered_dates()[i] == b.candidates@[i].date);
    }
}

/// Within one pair, posts are delivered in non-decreasing publication
/// order.
pub proof fn lemma_delivery_order(b: &DeliveryBatch)
    requires
        b.wf(),
    ensures
        non_decreasing(b.delivered_dates()),
{
    assert forall|i: int, j: int|
        0 <= i < j < b.delivered_dates().len() implies b.delivered_dates()[i]
        <= b.delivered_dates()[j] by {
        assert(b.delivered_dates()[i] == b.candidates@[i].date);
        assert(b.delivered_dates()[j] == b.candidates@[j].date);
    }
}

/// Delivery order survives a restart: a batch whose scan checkpoint is no
/// older than everything delivered before keeps the whole delivery history
/// of the pair in non-decreasing order.
pub proof fn lemma_delivery_order_across_restart(prior: Seq<int>, b: &DeliveryBatch)
    requires
        non_decreasing(prior),
        b.wf(),
        forall|i: int| 0 <= i < prior.len() ==> #[trigger] prior[i] <= b.scan_checkpoint,
    ensures
        non_decreasing(prior + b.delivered_dates()),
{
    lemma_delivery_order(b);
    lemma_checkpoint_excludes_delivered(b);
    let all = prior + b.delivered_dates();
    assert forall|i: int, j: int| 0 <= i < j < all.len() implies all[i] <= all[j] by {
        if j >= prior.len() {
            assert(all[j] == b.delivered_dates()[j - prior.len()]);
            assert(b.delivered_dates()[j - prior.len()] > b.scan_checkpoint);
        }
        if i >= prior.len() {
            assert(all[i] == b.delivered_dates()[i - prior.len()]);
        }
    }
}

/// The bootstrap scan of a pair without a checkpoint: pages are fed in
/// until one holds a non-pinned post (the newest truly chronological one)
/// or the wall ends.
pub struct BootstrapScan {
    /// Offset of the next page to fetch.
    pub offset: usize,
}

/// What one bootstrap page showed.
pub enum BootstrapOutcome {
    /// The first non-pinned post of the wall: the checkpoint starts at its
    /// publication time; it is not delivered.
    Found(Post),

    /// The wall is empty: the checkpoint stays unset and the next cycle
    /// runs bootstrap again.
    EndOfWall,

    /// Only pinned posts so far: fetch the next page.
    KeepScanning,
}

/// Index of the first non-pinned post of the page, or `page.len()` when
/// every post is pinned.
pub open spec fn first_unpinned_index(page: Seq<Post>) -> int
    decreases page.len(),
{
    if page.len() == 0 {
        0
    } else if !page.first().spec_is_pinned() {
        0
    } else {
        1 + first_unpinned_index(page.drop_first())
    }
}

/// The first-unpinned index is the first non-pinned position: within
/// bounds, everything before it pinned, and non-pinned when within the
/// page.
pub proof fn lemma_first_unpinned_index(page: Seq<Post>)
    ensures
        0 <= first_unpinned_index(page) <= page.len(),
        first_unpinned_index(page) < page.len() ==> !page[first_unpinned_index(
            page,
        )].spec_is_pinned(),
        forall|j: int|
            0 <= j < first_unpinned_index(page) ==> (#[trigger] page[j]).spec_is_pinned(),
    decreases page.len(),
{
    if page.len() > 0 && page.first().spec_is_pinned() {
        lemma_first_unpinned_index(page.drop_first());
        assert(forall|j: int| 1 <= j < page.len() ==> page[j] == page.drop_first()[j - 1]);
    }
}

impl BootstrapScan {
    /// Starts a bootstrap scan at the top of the wall.
    pub fn new() -> (r: Self)
        ensures
            r.offset == 0,
    {
        BootstrapScan { offset: 0 }
    }

    /// The next page to fetch, as offset and size.
    pub fn next_request(&self) -> (r: (usize, usize))
        ensures
            r.0 == self.offset,
            r.1 == WALL_PAGE_SIZE,
    {
        (self.offset, WALL_PAGE_SIZE)
    }

    /// Feeds one fetched page in: an empty page means the wall is empty;
    /// otherwise the first non-pinned post is the outcome, and a page of
    /// nothing but pinned posts moves the offset one page further.
    pub fn on_page(&mut self, page: Vec<Post>) -> (r: BootstrapOutcome)
        requires
            old(self).offset + WALL_PAGE_SIZE <= usize::MAX,
        ensures
            match r {
                BootstrapOutcome::Found(p) => page@.len() > 0 && first_unpinned_index(page@)
                    < page@.len() && p == page@[first_unpinned_index(page@)] && final(self).offset
                    == old(self).offset,
                BootstrapOutcome::EndOfWall => page@.len() == 0 && final(self).offset == old(
                    self,
                ).offset,
                BootstrapOutcome::KeepScanning => page@.len() > 0 && first_unpinned_index(page@)
                    == page@.len() && final(self).offset == old(self).offset + WALL_PAGE_SIZE,
            },
    {
        let ghost page0 = page@;
        let ghost n = page0.len();
        proof {
            lemma_first_unpinned_index(page0);
        }
        if page.len() == 0 {
            return BootstrapOutcome::EndOfWall;
        }
        let page_len = page.len();

        // First pass, read-only: find the first non-pinned post, if any.
        let mut k: usize = 0;
        let mut found = false;
        while k < page_len && !found
            invariant
                n == page0.len(),
                page_len == n,
                k <= n,
                page@ == page0,
                self.offset == old(self).offset,
                !found ==> first_unpinned_index(page0) >= k,
                found ==> k < n && first_unpinned_index(page0) == k,
                0 <= first_unpinned_index(page0) <= n,
                forall|j: int|
                    0 <= j < first_unpinned_index(page0) ==> (#[trigger] page0[j]).spec_is_pinned(),
            decreases n - k, (if found { 0int } else { 1int }),
        {
            if !page[k].is_pinned() {
                proof {
                    if first_unpinned_index(page0) > k {
                        assert(page0[k as int].spec_is_pinned());
                    }
                }
                found = true;
            } else {
                proof {
                    lemma_first_unpinned_index(page0);
                    if first_unpinned_index(page0) == k {
                        assert(!page0[k as int].spec_is_pinned());
                    }
                }
                k = k + 1;
            }
        }
        if found {
            let mut rest = page;
            let p = rest.remove(k);
            BootstrapOutcome::Found(p)
        } else {
            proof {
                assert(k == n);
            }
            self.offset = self.offset + WALL_PAGE_SIZE;
            BootstrapOutcome::KeepScanning
        }
    }
}

/// Applies a bootstrap outcome to a pair: only a found first non-pinned
/// post sets the checkpoint (the post itself is not delivered, it predates
/// the service). An empty wall, or a page of nothing but pinned posts,
/// changes nothing — in particular the checkpoint stays unset and the next
/// cycle runs bootstrap again, not steady state.
pub fn apply_bootstrap(info: &mut ChannelInfo, outcome: &BootstrapOutcome)
    requires
        old(info).wf(),
        old(info).last_post_datetime is None,
        *outcome matches BootstrapOutcome::Found(p) ==> p.date >= 0,
    ensures
        final(info).wf(),
        match outcome {
            BootstrapOutcome::Found(p) => {
                &&& final(info).last_post_datetime == Some(p.date)
                &&& final(info).tg_channel == old(info).tg_channel
                &&& final(info).vk_public_id == old(info).vk_public_id
                &&& final(info).poll_interval == old(info).poll_interval
                &&& final(info).last_poll_datetime == old(info).last_poll_datetime
            },
            _ => *final(info) == *old(info),
        },
{
    match outcome {
        BootstrapOutcome::Found(p) => {
            info.advance_checkpoint(p.date);
        },
        _ => {},
    }
}

} // verus!
