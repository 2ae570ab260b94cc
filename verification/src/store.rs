//! What is written to the cache, and in which order: the rows of a batch,
//! the steps of its transaction, and the snapshot kept with a favourite.

use crate::clock::{now_rfc3339, rfc3339_after_hours};
use crate::model::{count_i32, spec_count_i32, CachedVideo, Video};
use vstd::prelude::*;

verus! {

/// How long a cached video stays fresh, in hours.
pub const CACHE_HOURS: u32 = 24;

/// The filter mode that the history records for a batch.
pub const HISTORY_FILTER_MODE: &'static str = "balanced";

/// The platform that a video saved by itself is filed under.
pub const SINGLE_SAVE_PLATFORM: &'static str = "youtube";

/// How many history rows are read where the caller names no number.
pub const DEFAULT_HISTORY_LIMIT: i32 = 20;

/// A video ready to be written: its identifier and its serialized form.
#[derive(Debug, Clone)]
pub struct SerializedVideo {
    pub id: String,
    pub video_data: String,
}

/// One statement of a batch.
#[derive(Debug)]
pub enum WriteOp {
    /// Insert the row into the cache, in place of any row with its `id`.
    UpsertCache(CachedVideo),
    /// Append a row to the search history.
    AppendHistory {
        query: String,
        platform: String,
        filter_mode: String,
        results_count: i32,
        created_at: String,
    },
}

/// Whether `row` is the cache row of `video` for a search.
pub open spec fn is_cache_row(
    row: CachedVideo,
    video: SerializedVideo,
    query: Seq<char>,
    platform: Seq<char>,
    cached_at: Seq<char>,
    expires_at: Seq<char>,
) -> bool {
    &&& row.id == video.id
    &&& row.video_data == video.video_data
    &&& row.query@ == query
    &&& row.platform@ == platform
    &&& row.cached_at@ == cached_at
    &&& row.expires_at@ == expires_at
}

/// Whether `plan` is the batch that saves `videos` for a search: one cache
/// row for each video, in their order, and after them exactly one history
/// row that records how many videos there were. A batch without videos
/// still has its history row.
pub open spec fn is_batch_plan(
    plan: Seq<WriteOp>,
    videos: Seq<SerializedVideo>,
    query: Seq<char>,
    platform: Seq<char>,
    cached_at: Seq<char>,
    expires_at: Seq<char>,
) -> bool {
    &&& plan.len() == videos.len() + 1
    &&& forall|i: int|
        0 <= i < videos.len() ==> (#[trigger] plan[i] matches WriteOp::UpsertCache(row)
            && is_cache_row(row, videos[i], query, platform, cached_at, expires_at))
    &&& plan[videos.len() as int] matches WriteOp::AppendHistory {
        query: q,
        platform: p,
        filter_mode,
        results_count,
        created_at,
    } && q@ == query && p@ == platform && filter_mode@ == HISTORY_FILTER_MODE@ && results_count
        == spec_count_i32(videos.len()) && created_at@ == cached_at
}

/// Plans the batch that saves `videos` for the search `query` on
/// `platform`, with the given time stamps.
pub fn plan_batch_save(
    videos: &Vec<SerializedVideo>,
    query: &str,
    platform: &str,
    cached_at: &str,
    expires_at: &str,
) -> (plan: Vec<WriteOp>)
    ensures
        is_batch_plan(plan@, videos@, query@, platform@, cached_at@, expires_at@),
{
    let mut plan: Vec<WriteOp> = Vec::new();
    let mut i: usize = 0;
    while i < videos.len()
        invariant
            i <= videos.len(),
            plan@.len() == i,
            forall|j: int|
                0 <= j < i ==> (#[trigger] plan@[j] matches WriteOp::UpsertCache(row)
                    && is_cache_row(row, videos@[j], query@, platform@, cached_at@, expires_at@)),
        decreases videos.len() - i,
    {
        plan.push(
            WriteOp::UpsertCache(
                CachedVideo {
                    id: videos[i].id.clone(),
                    query: String::from_str(query),
                    platform: String::from_str(platform),
                    video_data: videos[i].video_data.clone(),
                    cached_at: String::from_str(cached_at),
                    expires_at: String::from_str(expires_at),
                },
            ),
        );
        i = i + 1;
    }
    let results_count: i32 = count_i32(videos.len());
    plan.push(
        WriteOp::AppendHistory {
            query: String::from_str(query),
            platform: String::from_str(platform),
            filter_mode: String::from_str(HISTORY_FILTER_MODE),
            results_count,
            created_at: String::from_str(cached_at),
        },
    );
    plan
}

/// A batch together with the time stamps that its rows carry.
#[derive(Debug)]
pub struct StampedPlan {
    pub cached_at: String,
    pub expires_at: String,
    pub statements: Vec<WriteOp>,
}

/// Plans the batch that saves `videos`, cached at `cached_at`, given the end
/// of its freshness as the clock wrote it down. Where the clock could not
/// write that end down there is no plan; else there is one, it carries the
/// two time stamps as they were given, and its statements are those of
/// [`plan_batch_save`].
pub fn plan_batch_save_until(
    videos: &Vec<SerializedVideo>,
    query: &str,
    platform: &str,
    cached_at: String,
    expires_at: Option<String>,
) -> (r: Option<StampedPlan>)
    ensures
        expires_at is None ==> r is None,
        expires_at matches Some(end) ==> (r matches Some(plan) && plan.cached_at == cached_at
            && plan.expires_at == end && is_batch_plan(
            plan.statements@,
            videos@,
            query@,
            platform@,
            cached_at@,
            end@,
        )),
{
    match expires_at {
        Some(end) => {
            let statements = plan_batch_save(
                videos,
                query,
                platform,
                cached_at.as_str(),
                end.as_str(),
            );
            Some(StampedPlan { cached_at, expires_at: end, statements })
        },
        None => None,
    }
}

/// Plans the batch that saves `videos` now: cached at the current time and
/// fresh for [`CACHE_HOURS`] hours. There is no plan where the end of that
/// time cannot be written down. What comes of each reading of the clock is
/// said by [`plan_batch_save_until`].
pub fn plan_batch_save_now(videos: &Vec<SerializedVideo>, query: &str, platform: &str) -> (r:
    Option<StampedPlan>)
    ensures
        r matches Some(plan) ==> is_batch_plan(
            plan.statements@,
            videos@,
            query@,
            platform@,
            plan.cached_at@,
            plan.expires_at@,
        ),
{
    let cached_at = now_rfc3339();
    let expires_at = rfc3339_after_hours(CACHE_HOURS);
    plan_batch_save_until(videos, query, platform, cached_at, expires_at)
}

/// Plans the row of a video that is saved by itself, cached at `cached_at`,
/// given the end of its freshness as the clock wrote it down. Where the
/// clock could not write that end down there is no row; else there is the
/// row of [`single_save_row`] with the two time stamps as they were given.
pub fn single_save_row_until(
    video: &SerializedVideo,
    title: &str,
    cached_at: &str,
    expires_at: Option<String>,
) -> (r: Option<CachedVideo>)
    ensures
        expires_at is None ==> r is None,
        expires_at matches Some(end) ==> (r matches Some(row) && is_cache_row(
            row,
            *video,
            title@,
            SINGLE_SAVE_PLATFORM@,
            cached_at@,
            end@,
        )),
{
    match expires_at {
        Some(end) => Some(single_save_row(video, title, cached_at, end.as_str())),
        None => None,
    }
}

/// Plans the row of a video that is saved by itself now: cached at the
/// current time and fresh for [`CACHE_HOURS`] hours. There is no row where
/// the end of that time cannot be written down. What comes of each reading
/// of the clock is said by [`single_save_row_until`].
pub fn single_save_row_now(video: &SerializedVideo, title: &str) -> (r: Option<CachedVideo>)
    ensures
        r matches Some(row) ==> is_cache_row(
            row,
            *video,
            title@,
            SINGLE_SAVE_PLATFORM@,
            row.cached_at@,
            row.expires_at@,
        ),
{
    let cached_at = now_rfc3339();
    let expires_at = rfc3339_after_hours(CACHE_HOURS);
    single_save_row_until(video, title, cached_at.as_str(), expires_at)
}

/// The cache row of a video that is saved by itself: filed under its own
/// title and the platform [`SINGLE_SAVE_PLATFORM`].
pub fn single_save_row(video: &SerializedVideo, title: &str, cached_at: &str, expires_at: &str) -> (row:
    CachedVideo)
    ensures
        is_cache_row(row, *video, title@, SINGLE_SAVE_PLATFORM@, cached_at@, expires_at@),
{
    CachedVideo {
        id: video.id.clone(),
        query: String::from_str(title),
        platform: String::from_str(SINGLE_SAVE_PLATFORM),
        video_data: video.video_data.clone(),
        cached_at: String::from_str(cached_at),
        expires_at: String::from_str(expires_at),
    }
}

/// How many history rows are read: the number the caller names, or
/// [`DEFAULT_HISTORY_LIMIT`].
pub fn history_limit(limit: Option<i32>) -> (r: i32)
    ensures
        r == match limit {
            Some(n) => n,
            None => DEFAULT_HISTORY_LIMIT,
        },
{
    match limit {
        Some(n) => n,
        None => DEFAULT_HISTORY_LIMIT,
    }
}

/// Where the transaction of a batch stands.
#[derive(Debug, Clone, Copy, PartialEq, Eq, Structural)]
pub enum TxState {
    /// The transaction is to be opened.
    Opening,
    /// The statement at this position of the plan is to be executed.
    Writing(usize),
    /// Every statement has been executed; the transaction is to be
    /// committed.
    Committing,
    /// A statement failed; the transaction is to be rolled back.
    RollingBack,
    /// The transaction is over: committed, or not.
    Finished(bool),
}

/// What the caller does for the transaction next.
#[derive(Debug, Clone, Copy, PartialEq, Eq, Structural)]
pub enum TxAction {
    Open,
    Execute(usize),
    Commit,
    RollBack,
    /// Nothing more: the batch is saved, or nothing of it is.
    Report(bool),
}

/// What a state asks the caller to do.
pub open spec fn spec_action(state: TxState) -> TxAction {
    match state {
        TxState::Opening => TxAction::Open,
        TxState::Writing(i) => TxAction::Execute(i),
        TxState::Committing => TxAction::Commit,
        TxState::RollingBack => TxAction::RollBack,
        TxState::Finished(saved) => TxAction::Report(saved),
    }
}

/// The state after the caller has done what `state` asked for, with or
/// without success, in the transaction of a plan of `statements`
/// statements. Statements are executed in their order. The first failure
/// ends the writing: the transaction is rolled back and never committed.
pub open spec fn spec_next_state(state: TxState, succeeded: bool, statements: nat) -> TxState {
    match state {
        TxState::Opening => if !succeeded {
            TxState::Finished(false)
        } else if statements > 0 {
            TxState::Writing(0)
        } else {
            TxState::Committing
        },
        TxState::Writing(i) => if !succeeded {
            TxState::RollingBack
        } else if i + 1 < statements {
            TxState::Writing((i + 1) as usize)
        } else {
            TxState::Committing
        },
        TxState::Committing => TxState::Finished(succeeded),
        TxState::RollingBack => TxState::Finished(false),
        TxState::Finished(saved) => TxState::Finished(saved),
    }
}

/// What a state asks the caller to do.
pub fn action_of(state: TxState) -> (r: TxAction)
    ensures
        r == spec_action(state),
{
    match state {
        TxState::Opening => TxAction::Open,
        TxState::Writing(i) => TxAction::Execute(i),
        TxState::Committing => TxAction::Commit,
        TxState::RollingBack => TxAction::RollBack,
        TxState::Finished(saved) => TxAction::Report(saved),
    }
}

/// The state after the caller has done what `state` asked for.
pub fn next_state(state: TxState, succeeded: bool, statements: usize) -> (r: TxState)
    ensures
        r == spec_next_state(state, succeeded, statements as nat),
{
    match state {
        TxState::Opening => if !succeeded {
            TxState::Finished(false)
        } else if statements > 0 {
            TxState::Writing(0)
        } else {
            TxState::Committing
        },
        TxState::Writing(i) => if !succeeded {
            TxState::RollingBack
        } else if i < statements && i + 1 < statements {
            TxState::Writing(i + 1)
        } else {
            TxState::Committing
        },
        TxState::Committing => TxState::Finished(succeeded),
        TxState::RollingBack => TxState::Finished(false),
        TxState::Finished(saved) => TxState::Finished(saved),
    }
}

/// The state of a transaction after the caller has reported `outcomes`,
/// one for each thing it was asked to do.
pub open spec fn state_after(outcomes: Seq<bool>, statements: nat) -> TxState
    decreases outcomes.len(),
{
    if outcomes.len() == 0 {
        TxState::Opening
    } else {
        spec_next_state(state_after(outcomes.drop_last(), statements), outcomes.last(), statements)
    }
}

/// While nothing fails, a transaction opens, executes its statements one
/// by one in their order, commits and reports success.
pub proof fn lemma_all_succeed(outcomes: Seq<bool>, statements: nat)
    requires
        forall|i: int| 0 <= i < outcomes.len() ==> outcomes[i],
        statements < usize::MAX,
    ensures
        outcomes.len() == 0 ==> state_after(outcomes, statements) == TxState::Opening,
        1 <= outcomes.len() <= statements ==> state_after(outcomes, statements) == TxState::Writing(
            (outcomes.len() - 1) as usize,
        ),
        outcomes.len() == statements + 1 ==> state_after(outcomes, statements)
            == TxState::Committing,
        outcomes.len() > statements + 1 ==> state_after(outcomes, statements) == TxState::Finished(
            true,
        ),
    decreases outcomes.len(),
{
    if outcomes.len() > 0 {
        lemma_all_succeed(outcomes.drop_last(), statements);
    }
}

/// Once opening the transaction, one of its statements or its commit has
/// failed, the transaction never executes another statement and is never
/// committed: it is rolled back if a statement failed, and reports that
/// nothing was saved. The outcome at position 0 is that of opening, those
/// at positions 1 to `statements` are those of the statements, and the one
/// after them is that of the commit.
pub proof fn lemma_failure_is_final(outcomes: Seq<bool>, statements: nat)
    requires
        exists|i: int| 0 <= i < outcomes.len() && i <= statements + 1 && !outcomes[i],
        statements < usize::MAX,
    ensures
        state_after(outcomes, statements) == TxState::RollingBack || state_after(
            outcomes,
            statements,
        ) == TxState::Finished(false),
    decreases outcomes.len(),
{
    let before = outcomes.drop_last();
    if exists|i: int| 0 <= i < before.len() && i <= statements + 1 && !before[i] {
        lemma_failure_is_final(before, statements);
    } else {
        let i = choose|i: int| 0 <= i < outcomes.len() && i <= statements + 1 && !outcomes[i];
        if i < before.len() {
            assert(!before[i]);
        }
        assert(i == outcomes.len() - 1);
        assert forall|j: int| 0 <= j < before.len() implies before[j] by {
            if !before[j] {
                assert(j <= statements + 1);
            }
        }
        lemma_all_succeed(before, statements);
    }
}

/// The outcomes of a transaction that opens, executes its first `k`
/// statements and fails at the next one.
pub open spec fn failing_at(k: nat) -> Seq<bool> {
    Seq::new(k + 2, |i: int| i <= k)
}

/// A batch is saved as a whole or not at all. When the statement at
/// position `k` fails after all before it have succeeded, the statements up
/// to it are the only ones that were asked for, the transaction is rolled
/// back, and whatever is reported after that, no further statement is
/// executed and the transaction is never committed. With `k` the last
/// video of a batch, the history row is among what is never written.
pub proof fn lemma_failed_write_rolls_back(statements: nat, k: nat, later: Seq<bool>)
    requires
        k < statements < usize::MAX,
    ensures
        forall|j: int|
            0 <= j <= k ==> #[trigger] state_after(failing_at(k).take(j + 1), statements)
                == TxState::Writing(j as usize),
        state_after(failing_at(k), statements) == TxState::RollingBack,
        state_after(failing_at(k) + later, statements) == TxState::RollingBack || state_after(
            failing_at(k) + later,
            statements,
        ) == TxState::Finished(false),
{
    let outcomes = failing_at(k);
    assert forall|j: int| 0 <= j <= k implies #[trigger] state_after(
        outcomes.take(j + 1),
        statements,
    ) == TxState::Writing(j as usize) by {
        lemma_all_succeed(outcomes.take(j + 1), statements);
    }
    assert(outcomes.drop_last() =~= outcomes.take(k as int + 1));
    assert(!outcomes.last());
    assert(state_after(outcomes.take(k as int + 1), statements) == TxState::Writing(k as usize));
    let all = outcomes + later;
    assert(!all[k as int + 1]);
    lemma_failure_is_final(all, statements);
    assert(outcomes + Seq::<bool>::empty() =~= outcomes);
    lemma_failure_is_final(outcomes, statements);
}

/// The title that marks a video of which nothing but its identifier is
/// known.
pub const UNKNOWN_TITLE: &'static str = "Unknown Video";

/// Whether `video` stands in for the video `video_id` of which nothing
/// else is known.
pub open spec fn is_placeholder(video: Video, video_id: Seq<char>, cached_at: Seq<char>) -> bool {
    &&& video.id@ == video_id
    &&& video.title@ == UNKNOWN_TITLE@
    &&& video.description is None
    &&& video.thumbnail_url is None
    &&& video.duration is None
    &&& video.channel_title is None
    &&& video.published_at is None
    &&& video.view_count is None
    &&& video.like_count is None
    &&& video.unclassified()
    &&& video.tags is None
    &&& video.cached_at matches Some(stamp) && stamp@ == cached_at
    &&& video.subtitles is None
}

/// The record that stands in for the video `video_id` of which nothing
/// else is known.
pub fn placeholder_video(video_id: &str, cached_at: &str) -> (r: Video)
    ensures
        is_placeholder(r, video_id@, cached_at@),
        r.wf(),
{
    Video {
        id: String::from_str(video_id),
        title: String::from_str(UNKNOWN_TITLE),
        description: None,
        thumbnail_url: None,
        duration: None,
        channel_title: None,
        published_at: None,
        view_count: None,
        like_count: None,
        ai_score: None,
        education_score: None,
        safety_score: None,
        age_appropriate: None,
        tags: None,
        cached_at: Some(String::from_str(cached_at)),
        subtitles: None,
    }
}

/// What is kept with a favourite as its snapshot of the video.
#[derive(Debug)]
pub enum Snapshot {
    /// The serialized video as the cache holds it.
    Cached(String),
    /// A stand-in, still to be serialized, for a video that the cache does
    /// not hold.
    Placeholder(Video),
}

/// Chooses the snapshot of a favourite: the cached form of the video where
/// the cache holds one, and else a stand-in with the video's identifier,
/// stamped with the current time. Either way there is a snapshot, so a
/// video can become a favourite whether it is cached or not.
pub fn favorite_snapshot(video_id: &str, cached: Option<String>) -> (r: Snapshot)
    ensures
        cached matches Some(data) ==> r == Snapshot::Cached(data),
        cached is None ==> (r matches Snapshot::Placeholder(video) && is_placeholder(
            video,
            video_id@,
            video.cached_at->0@,
        )),
{
    match cached {
        Some(data) => Snapshot::Cached(data),
        None => {
            let stamp = now_rfc3339();
            Snapshot::Placeholder(placeholder_video(video_id, stamp.as_str()))
        },
    }
}

} // verus!
