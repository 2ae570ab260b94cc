//! Cutting a batch of videos into requests of bounded size, the output
//! budget of a request, and the account of what the requests bring back.

use crate::model::Video;
use crate::text::same_text;
use vstd::prelude::*;

verus! {

/// The most videos that one request describes.
pub const MAX_VIDEOS_PER_BATCH: usize = 5;

/// How many units of output a request for `video_count` videos asks for:
/// 500 and 300 more for each video, but never more than 8000.
pub open spec fn spec_required_tokens(video_count: nat) -> nat {
    if 500 + 300 * video_count <= 8000 {
        500 + 300 * video_count
    } else {
        8000
    }
}

/// How many units of output a request for `video_count` videos asks for.
pub fn calculate_required_tokens(video_count: usize) -> (r: u32)
    ensures
        r == spec_required_tokens(video_count as nat),
{
    if video_count >= 25 {
        8000
    } else {
        500 + 300 * (video_count as u32)
    }
}

/// The classification services that can be asked.
#[derive(Debug, Clone, Copy, PartialEq, Eq, Structural)]
pub enum Provider {
    OpenAI,
    Anthropic,
}

/// The service that a name stands for: `anthropic` for the second, any
/// other name for the first.
pub open spec fn spec_provider(name: Seq<char>) -> Provider {
    if name == "anthropic"@ {
        Provider::Anthropic
    } else {
        Provider::OpenAI
    }
}

/// The service that a name stands for.
pub fn provider_of(name: &str) -> (r: Provider)
    ensures
        r == spec_provider(name@),
{
    if same_text(name, "anthropic") {
        Provider::Anthropic
    } else {
        Provider::OpenAI
    }
}

/// How many requests a batch of `total` videos takes: `total` divided by
/// the size of a request, rounded up.
pub open spec fn chunk_count(total: nat) -> nat {
    (total + MAX_VIDEOS_PER_BATCH - 1) as nat / MAX_VIDEOS_PER_BATCH as nat
}

/// Where the request number `k`, counted from zero, begins in a batch of
/// `total` videos.
pub open spec fn chunk_start(total: nat, k: nat) -> nat {
    if k * MAX_VIDEOS_PER_BATCH <= total {
        (k * MAX_VIDEOS_PER_BATCH) as nat
    } else {
        total
    }
}

/// Where the request number `k`, counted from zero, ends in a batch of
/// `total` videos.
pub open spec fn chunk_end(total: nat, k: nat) -> nat {
    chunk_start(total, k + 1)
}

/// The videos of a request, or none where the request failed.
pub open spec fn outcome_videos(outcome: Option<Vec<Video>>) -> Seq<Video> {
    match outcome {
        Some(videos) => videos@,
        None => Seq::empty(),
    }
}

/// The account of one batch: how far the requests have come and what they
/// have brought back.
pub struct BatchRun {
    total: usize,
    position: usize,
    requests: usize,
    failed: bool,
    collected: Vec<Video>,
}

impl BatchRun {
    #[verifier::type_invariant]
    spec fn inv(self) -> bool {
        &&& self.position <= self.total
        &&& self.position == chunk_start(self.total as nat, self.requests as nat)
        &&& self.requests <= chunk_count(self.total as nat)
    }

    /// How many videos the batch holds.
    pub closed spec fn total(self) -> nat {
        self.total as nat
    }

    /// How many requests have been accounted for.
    pub closed spec fn requests(self) -> nat {
        self.requests as nat
    }

    /// Whether the batch as a whole has failed.
    pub closed spec fn failed(self) -> bool {
        self.failed
    }

    /// The videos brought back so far, in the order of the requests.
    pub closed spec fn collected(self) -> Seq<Video> {
        self.collected@
    }

    /// The account of a batch of `total` videos before its first request.
    pub fn new(total: usize) -> (r: Self)
        ensures
            r.total() == total,
            r.requests() == 0,
            !r.failed(),
            r.collected() == Seq::<Video>::empty(),
    {
        BatchRun { total, position: 0, requests: 0, failed: false, collected: Vec::new() }
    }

    /// The videos that the next request describes, as a range of positions
    /// in the batch, or none when every video has been asked about.
    pub fn next_chunk(&self) -> (r: Option<(usize, usize)>)
        ensures
            self.requests() < chunk_count(self.total()) ==> r == Some(
                (
                    chunk_start(self.total(), self.requests()) as usize,
                    chunk_end(self.total(), self.requests()) as usize,
                ),
            ),
            self.requests() >= chunk_count(self.total()) ==> r is None,
    {
        proof {
            use_type_invariant(self);
            lemma_chunks(self.total as nat, self.requests as nat);
        }
        if self.position < self.total {
            let end: usize = if self.total - self.position > MAX_VIDEOS_PER_BATCH {
                self.position + MAX_VIDEOS_PER_BATCH
            } else {
                self.total
            };
            Some((self.position, end))
        } else {
            None
        }
    }

    /// Accounts for the outcome of the request that [`BatchRun::next_chunk`]
    /// named: the videos it let through, or none if it failed. A failed
    /// request brings nothing back. The batch as a whole fails only when it
    /// is a single request and that request fails. When every video has
    /// been asked about, nothing changes.
    pub fn record(&mut self, outcome: Option<Vec<Video>>)
        ensures
            final(self).total() == old(self).total(),
            old(self).requests() < chunk_count(old(self).total()) ==> {
                &&& final(self).requests() == old(self).requests() + 1
                &&& final(self).collected() == old(self).collected() + outcome_videos(outcome)
                &&& final(self).failed() == (old(self).failed() || (outcome is None
                    && chunk_count(old(self).total()) == 1))
            },
            old(self).requests() >= chunk_count(old(self).total()) ==> *final(self) == *old(self),
    {
        proof {
            use_type_invariant(&*self);
            lemma_chunks(self.total as nat, self.requests as nat);
            lemma_chunks(self.total as nat, (self.requests + 1) as nat);
        }
        if self.position >= self.total {
            return;
        }
        let end: usize = if self.total - self.position > MAX_VIDEOS_PER_BATCH {
            self.position + MAX_VIDEOS_PER_BATCH
        } else {
            self.total
        };
        let single: bool = self.total <= MAX_VIDEOS_PER_BATCH;
        let mut failed: bool = self.failed;
        let mut collected: Vec<Video> = Vec::new();
        std::mem::swap(&mut collected, &mut self.collected);
        match outcome {
            Some(mut videos) => {
                collected.append(&mut videos);
            },
            None => {
                proof {
                    assert(collected@ + Seq::<Video>::empty() =~= collected@);
                }
                if single {
                    failed = true;
                }
            },
        }
        *self = BatchRun {
            total: self.total,
            position: end,
            requests: self.requests + 1,
            failed,
            collected,
        };
    }

    /// What the batch brought back once it is over: the videos of all
    /// requests in order, or none if the batch as a whole failed.
    pub fn finish(self) -> (r: Option<Vec<Video>>)
        ensures
            self.failed() ==> r is None,
            !self.failed() ==> (r matches Some(v) && v@ == self.collected()),
    {
        if self.failed {
            None
        } else {
            Some(self.collected)
        }
    }
}

/// The requests of a batch follow each other without gap or overlap, each
/// describes at least one and at most five videos, and the last one ends
/// where the batch ends: request `k` exists exactly when `k` is below the
/// number of requests.
pub proof fn lemma_chunks(total: nat, k: nat)
    ensures
        chunk_start(total, 0) == 0,
        chunk_start(total, k) <= chunk_end(total, k) <= total,
        chunk_end(total, k) - chunk_start(total, k) <= MAX_VIDEOS_PER_BATCH,
        k < chunk_count(total) <==> chunk_start(total, k) < total,
        k < chunk_count(total) ==> chunk_start(total, k) < chunk_end(total, k),
        k < chunk_count(total) ==> chunk_start(total, k) == k * MAX_VIDEOS_PER_BATCH,
        k >= chunk_count(total) ==> chunk_start(total, k) == total,
        chunk_count(total) * MAX_VIDEOS_PER_BATCH >= total,
        total > 0 ==> (chunk_count(total) - 1) * MAX_VIDEOS_PER_BATCH < total,
        total <= MAX_VIDEOS_PER_BATCH ==> chunk_count(total) <= 1,
{
}

/// Whether `at` names, for each video of `out`, a place in `source` that
/// holds the same video but for the verdict, the places rising strictly.
pub open spec fn placed(out: Seq<Video>, source: Seq<Video>, at: Seq<int>) -> bool {
    &&& at.len() == out.len()
    &&& forall|i: int|
        0 <= i < at.len() ==> 0 <= #[trigger] at[i] < source.len() && out[i].without_verdict()
            == source[at[i]].without_verdict()
    &&& forall|i: int, j: int| 0 <= i < j < at.len() ==> at[i] < at[j]
}

/// Whether `out` holds videos of `source`, each at most once and in the
/// order of `source`, with or without a verdict.
pub open spec fn in_source_order(out: Seq<Video>, source: Seq<Video>) -> bool {
    exists|at: Seq<int>| placed(out, source, at)
}

/// The first `k` of `outputs`, one after the other.
pub open spec fn joined(outputs: Seq<Seq<Video>>, k: nat) -> Seq<Video>
    decreases k,
{
    if k == 0 {
        Seq::empty()
    } else {
        joined(outputs, (k - 1) as nat) + outputs[k - 1]
    }
}

/// The videos that request number `k` of a batch describes.
pub open spec fn chunk_of(videos: Seq<Video>, k: nat) -> Seq<Video> {
    videos.subrange(chunk_start(videos.len(), k) as int, chunk_end(videos.len(), k) as int)
}

proof fn lemma_places_rise(at: Seq<int>, i: int)
    requires
        forall|a: int, b: int| 0 <= a < b < at.len() ==> at[a] < at[b],
        at.len() > 0 ==> at[0] >= 0,
        0 <= i < at.len(),
    ensures
        at[i] >= i,
    decreases i,
{
    if i > 0 {
        lemma_places_rise(at, i - 1);
    }
}

/// What is in source order is no longer than the source.
pub proof fn lemma_in_source_order_length(out: Seq<Video>, source: Seq<Video>)
    requires
        in_source_order(out, source),
    ensures
        out.len() <= source.len(),
{
    let at = choose|at: Seq<int>| placed(out, source, at);
    if at.len() > 0 {
        lemma_places_rise(at, at.len() - 1);
    }
}

/// A list is in its own order, and so is the empty list in any.
pub proof fn lemma_in_source_order_trivial(source: Seq<Video>)
    ensures
        in_source_order(source, source),
        in_source_order(Seq::empty(), source),
{
    let identity = Seq::new(source.len(), |i: int| i);
    assert(placed(source, source, identity));
    assert(placed(Seq::empty(), source, Seq::<int>::empty()));
}

/// Two outputs in the order of their sources are, one after the other, in
/// the order of the two sources one after the other.
pub proof fn lemma_in_source_order_concat(
    out1: Seq<Video>,
    source1: Seq<Video>,
    out2: Seq<Video>,
    source2: Seq<Video>,
)
    requires
        in_source_order(out1, source1),
        in_source_order(out2, source2),
    ensures
        in_source_order(out1 + out2, source1 + source2),
{
    let at1 = choose|at: Seq<int>| placed(out1, source1, at);
    let at2 = choose|at: Seq<int>| placed(out2, source2, at);
    let moved = Seq::new(at2.len(), |i: int| at2[i] + source1.len());
    let at = at1 + moved;
    let out = out1 + out2;
    let source = source1 + source2;
    assert forall|i: int| 0 <= i < at.len() implies 0 <= #[trigger] at[i] < source.len()
        && out[i].without_verdict() == source[at[i]].without_verdict() by {
        if i < at1.len() {
            assert(at[i] == at1[i]);
            assert(out[i] == out1[i]);
            assert(source[at1[i]] == source1[at1[i]]);
        } else {
            let j = i - at1.len();
            assert(at[i] == at2[j] + source1.len());
            assert(out[i] == out2[j]);
            assert(source[at2[j] + source1.len()] == source2[at2[j]]);
        }
    }
    assert forall|i: int, j: int| 0 <= i < j < at.len() implies at[i] < at[j] by {
        if j < at1.len() {
            assert(at[i] == at1[i] && at[j] == at1[j]);
        } else if i < at1.len() {
            assert(at[i] == at1[i]);
            assert(at[j] == at2[j - at1.len()] + source1.len());
        } else {
            assert(at[i] == at2[i - at1.len()] + source1.len());
            assert(at[j] == at2[j - at1.len()] + source1.len());
        }
    }
    assert(placed(out, source, at));
}

proof fn lemma_joined_in_order(videos: Seq<Video>, outputs: Seq<Seq<Video>>, k: nat)
    requires
        k <= outputs.len(),
        forall|j: nat| j < outputs.len() ==> in_source_order(#[trigger] outputs[j as int], chunk_of(videos, j)),
    ensures
        in_source_order(joined(outputs, k), videos.take(chunk_start(videos.len(), k) as int)),
    decreases k,
{
    lemma_chunks(videos.len(), k);
    if k == 0 {
        lemma_in_source_order_trivial(videos.take(0));
    } else {
        let before = (k - 1) as nat;
        lemma_chunks(videos.len(), before);
        lemma_joined_in_order(videos, outputs, before);
        assert(in_source_order(outputs[before as int], chunk_of(videos, before)));
        lemma_in_source_order_concat(
            joined(outputs, before),
            videos.take(chunk_start(videos.len(), before) as int),
            outputs[before as int],
            chunk_of(videos, before),
        );
        assert(videos.take(chunk_start(videos.len(), before) as int) + chunk_of(videos, before)
            =~= videos.take(chunk_start(videos.len(), k) as int));
    }
}

/// A batch of N videos takes N / 5 requests, rounded up, which between
/// them describe every video once and in order. If what each request
/// brings back is in the order of the videos it describes, then all that
/// the requests bring back, one after the other, is in the order of the
/// batch and holds at most N videos.
pub proof fn lemma_batch_keeps_order(videos: Seq<Video>, outputs: Seq<Seq<Video>>)
    requires
        outputs.len() == chunk_count(videos.len()),
        forall|j: nat| j < outputs.len() ==> in_source_order(#[trigger] outputs[j as int], chunk_of(videos, j)),
    ensures
        in_source_order(joined(outputs, outputs.len()), videos),
        joined(outputs, outputs.len()).len() <= videos.len(),
        chunk_start(videos.len(), outputs.len()) == videos.len(),
{
    lemma_joined_in_order(videos, outputs, outputs.len());
    lemma_chunks(videos.len(), outputs.len());
    assert(videos.take(videos.len() as int) =~= videos);
    lemma_in_source_order_length(joined(outputs, outputs.len()), videos);
}

} // verus!
