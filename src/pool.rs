use vstd::multiset::Multiset;
use vstd::prelude::*;

use crate::status::WorkResult;

verus! {

/// The URLs of `urls`, counted with their repetitions.
pub open spec fn input_bag(urls: Seq<String>) -> Multiset<Seq<char>> {
    urls.map_values(|u: String| u@).to_multiset()
}

/// The URLs of the records of `rs`, counted with their repetitions.
pub open spec fn url_bag(rs: Seq<WorkResult>) -> Multiset<Seq<char>> {
    rs.map_values(|r: WorkResult| r.url@).to_multiset()
}

/// The URLs among the first `k` of `urls` whose results have not arrived.
pub open spec fn pending_bag(urls: Seq<String>, collected: Seq<bool>, k: nat) -> Multiset<Seq<char>>
    decreases k,
{
    if k == 0 {
        Multiset::empty()
    } else {
        let rest = pending_bag(urls, collected, (k - 1) as nat);
        if collected[k - 1] {
            rest
        } else {
            rest.insert(urls[k - 1]@)
        }
    }
}

/// One claimed item of the work source: the position of a URL in the input
/// and the URL itself.
#[derive(Debug, Clone, PartialEq, Eq)]
pub struct Job {
    pub index: usize,
    pub url: String,
}

/// The shared, ordered source of work. Each claim hands out the next URL
/// exactly once; URLs that repeat in the input are separate items.
#[derive(Debug, Clone)]
pub struct WorkQueue {
    pub urls: Vec<String>,
    /// How many URLs have been claimed: the claimed ones are a prefix.
    pub next: usize,
}

impl WorkQueue {
    pub open spec fn wf(&self) -> bool {
        self.next <= self.urls.len()
    }

    /// A queue holding `urls`, none of them claimed.
    pub fn new(urls: Vec<String>) -> (q: Self)
        ensures
            q.wf(),
            q.urls@ == urls@,
            q.next == 0,
    {
        WorkQueue { urls, next: 0 }
    }

    /// Claims the next unclaimed URL, or returns `None` once all are claimed.
    pub fn claim(&mut self) -> (job: Option<Job>)
        requires
            old(self).wf(),
        ensures
            final(self).wf(),
            final(self).urls@ == old(self).urls@,
            old(self).next < old(self).urls.len() ==> job == Some(
                Job { index: old(self).next, url: old(self).urls@[old(self).next as int] },
            ) && final(self).next == old(self).next + 1,
            old(self).next == old(self).urls.len() ==> job is None && final(self).next
                == old(self).next,
    {
        if self.next < self.urls.len() {
            let index = self.next;
            let url = self.urls[index].clone();
            self.next = index + 1;
            Some(Job { index, url })
        } else {
            None
        }
    }
}

/// Why the collector turned a result away.
#[derive(Debug, Clone, Copy, PartialEq, Eq)]
pub enum CollectError {
    /// The job index lies outside the run's input.
    UnknownJob,
    /// A result for this job has already arrived.
    AlreadyCollected,
    /// The result names another URL than the job's.
    UrlMismatch,
}

/// Gathers the results of a run, one per input URL, in arrival order.
#[derive(Debug, Clone)]
pub struct Collector {
    /// The run's input, in order.
    pub urls: Vec<String>,
    /// For each input position, whether its result has arrived.
    pub collected: Vec<bool>,
    /// The results in the order they arrived.
    pub results: Vec<WorkResult>,
}

impl Collector {
    /// Every input URL is either among the results or still pending, and
    /// each only once.
    pub open spec fn wf(&self) -> bool {
        &&& self.collected.len() == self.urls.len()
        &&& url_bag(self.results@).add(
            pending_bag(self.urls@, self.collected@, self.urls.len() as nat),
        ) == input_bag(self.urls@)
    }

    /// All results have arrived.
    pub open spec fn complete(&self) -> bool {
        self.results.len() == self.urls.len()
    }

    /// A collector for a run over `urls`, with no result yet.
    pub fn new(urls: Vec<String>) -> (c: Self)
        ensures
            c.wf(),
            c.urls@ == urls@,
            c.results@.len() == 0,
            forall|i: int| 0 <= i < urls.len() ==> !#[trigger] c.collected@[i],
    {
        let mut collected: Vec<bool> = Vec::new();
        let mut i: usize = 0;
        while i < urls.len()
            invariant
                i <= urls.len(),
                collected@.len() == i,
                forall|j: int| 0 <= j < i ==> !#[trigger] collected@[j],
            decreases urls.len() - i,
        {
            collected.push(false);
            i = i + 1;
        }
        let results: Vec<WorkResult> = Vec::new();
        proof {
            lemma_pending_none_collected(urls@, collected@, urls.len() as nat);
            assert(urls@.subrange(0, urls.len() as int) =~= urls@);
            assert(url_bag(results@) =~= Multiset::empty()) by {
                assert(results@.map_values(|r: WorkResult| r.url@) =~= Seq::empty());
                Seq::<Seq<char>>::empty().to_multiset_ensures();
                vstd::multiset::lemma_multiset_empty_len(url_bag(results@));
            }
            assert(url_bag(results@).add(pending_bag(urls@, collected@, urls.len() as nat))
                =~= input_bag(urls@));
        }
        Collector { urls, collected, results }
    }

    /// Whether every result has arrived.
    pub fn is_complete(&self) -> (r: bool)
        ensures
            r == self.complete(),
    {
        self.results.len() == self.urls.len()
    }

    /// Takes in the result of job `index`. It is turned away if the index is
    /// outside the input, if that job's result has already arrived, or if it
    /// names another URL; otherwise it is appended to the results.
    pub fn accept(&mut self, index: usize, result: WorkResult) -> (r: Result<(), CollectError>)
        requires
            old(self).wf(),
        ensures
            final(self).wf(),
            final(self).urls@ == old(self).urls@,
            r == (if index >= old(self).urls.len() {
                Err(CollectError::UnknownJob)
            } else if old(self).collected@[index as int] {
                Err(CollectError::AlreadyCollected)
            } else if result.url@ != old(self).urls@[index as int]@ {
                Err(CollectError::UrlMismatch)
            } else {
                Ok(())
            }),
            r is Ok ==> final(self).results@ == old(self).results@.push(result)
                && final(self).collected@ == old(self).collected@.update(index as int, true),
            r is Err ==> *final(self) == *old(self),
    {
        if index >= self.urls.len() {
            return Err(CollectError::UnknownJob);
        }
        if self.collected[index] {
            return Err(CollectError::AlreadyCollected);
        }
        if result.url != self.urls[index] {
            return Err(CollectError::UrlMismatch);
        }
        let ghost old_results = self.results@;
        let ghost old_collected = self.collected@;
        self.collected.set(index, true);
        self.results.push(result);
        proof {
            let n = self.urls.len() as nat;
            lemma_pending_collect(self.urls@, old_collected, index as int, n);
            lemma_url_bag_push(old_results, result);
            assert(url_bag(self.results@).add(pending_bag(self.urls@, self.collected@, n))
                =~= url_bag(old_results).add(pending_bag(self.urls@, old_collected, n)));
        }
        Ok(())
    }

    /// Hands over the finished report: every result, in arrival order.
    pub fn finish(self) -> (report: Vec<WorkResult>)
        requires
            self.wf(),
            self.complete(),
        ensures
            report@ == self.results@,
            report.len() == self.urls.len(),
            url_bag(report@) == input_bag(self.urls@),
    {
        proof {
            lemma_complete_report_covers_input(self);
        }
        self.results
    }
}

/// With nothing collected, the pending URLs are exactly the first `k` ones.
proof fn lemma_pending_none_collected(urls: Seq<String>, collected: Seq<bool>, k: nat)
    requires
        k <= urls.len(),
        k <= collected.len(),
        forall|j: int| 0 <= j < k ==> !#[trigger] collected[j],
    ensures
        pending_bag(urls, collected, k) == input_bag(urls.subrange(0, k as int)),
    decreases k,
{
    let pre = urls.subrange(0, k as int).map_values(|u: String| u@);
    if k == 0 {
        assert(pre =~= Seq::empty());
        Seq::<Seq<char>>::empty().to_multiset_ensures();
        vstd::multiset::lemma_multiset_empty_len(input_bag(urls.subrange(0, 0)));
        assert(input_bag(urls.subrange(0, 0)) =~= Multiset::empty());
    } else {
        lemma_pending_none_collected(urls, collected, (k - 1) as nat);
        let shorter = urls.subrange(0, k - 1).map_values(|u: String| u@);
        assert(pre =~= shorter.push(urls[k - 1]@));
        shorter.to_multiset_ensures();
    }
}

/// Marking the not yet collected position `j` as collected takes its URL out
/// of the pending ones.
proof fn lemma_pending_collect(urls: Seq<String>, collected: Seq<bool>, j: int, k: nat)
    requires
        0 <= j < collected.len(),
        k <= collected.len(),
        k <= urls.len(),
        !collected[j],
    ensures
        pending_bag(urls, collected.update(j, true), k).add(
            if j < k {
                Multiset::singleton(urls[j]@)
            } else {
                Multiset::empty()
            },
        ) == pending_bag(urls, collected, k),
    decreases k,
{
    let after = collected.update(j, true);
    if k == 0 {
        assert(Multiset::<Seq<char>>::empty().add(Multiset::empty()) =~= Multiset::empty());
    } else {
        lemma_pending_collect(urls, collected, j, (k - 1) as nat);
        let before_rest = pending_bag(urls, collected, (k - 1) as nat);
        let after_rest = pending_bag(urls, after, (k - 1) as nat);
        if j == k - 1 {
            assert(after_rest.add(Multiset::empty()) =~= after_rest);
            assert(after_rest.add(Multiset::singleton(urls[j]@)) =~= before_rest.insert(urls[j]@));
        } else if j < k - 1 {
            assert(after[k - 1] == collected[k - 1]);
            if !collected[k - 1] {
                assert(after_rest.insert(urls[k - 1]@).add(Multiset::singleton(urls[j]@))
                    =~= after_rest.add(Multiset::singleton(urls[j]@)).insert(urls[k - 1]@));
            }
        } else {
            assert(after[k - 1] == collected[k - 1]);
            assert(after_rest.add(Multiset::empty()) =~= after_rest);
            assert(pending_bag(urls, after, k).add(Multiset::empty()) =~= pending_bag(urls, after, k));
        }
    }
}

/// Appending a record adds its URL to the URLs of the records.
proof fn lemma_url_bag_push(rs: Seq<WorkResult>, r: WorkResult)
    ensures
        url_bag(rs.push(r)) == url_bag(rs).insert(r.url@),
{
    let urls = rs.map_values(|x: WorkResult| x.url@);
    assert(rs.push(r).map_values(|x: WorkResult| x.url@) =~= urls.push(r.url@));
    urls.to_multiset_ensures();
}

/// With every one of the first `k` positions collected, none of them is pending.
proof fn lemma_pending_all_collected(urls: Seq<String>, collected: Seq<bool>, k: nat)
    requires
        k <= collected.len(),
        forall|j: int| 0 <= j < k ==> #[trigger] collected[j],
    ensures
        pending_bag(urls, collected, k) == Multiset::<Seq<char>>::empty(),
    decreases k,
{
    if k > 0 {
        lemma_pending_all_collected(urls, collected, (k - 1) as nat);
    }
}

/// Once the result of every job has been taken in, whatever the order of
/// arrival, the run is complete.
pub proof fn lemma_all_jobs_reported_completes(c: Collector)
    requires
        c.wf(),
        forall|i: int| 0 <= i < c.urls.len() ==> #[trigger] c.collected@[i],
    ensures
        c.complete(),
{
    let pending = pending_bag(c.urls@, c.collected@, c.urls.len() as nat);
    lemma_pending_all_collected(c.urls@, c.collected@, c.urls.len() as nat);
    assert(url_bag(c.results@).add(pending) =~= url_bag(c.results@));
    c.results@.map_values(|r: WorkResult| r.url@).to_multiset_ensures();
    c.urls@.map_values(|u: String| u@).to_multiset_ensures();
}

/// Once every result has arrived, the report holds exactly the input URLs,
/// each as often as the input repeats it, and one record per input URL.
pub proof fn lemma_complete_report_covers_input(c: Collector)
    requires
        c.wf(),
        c.complete(),
    ensures
        c.results.len() == c.urls.len(),
        url_bag(c.results@) == input_bag(c.urls@),
{
    let pending = pending_bag(c.urls@, c.collected@, c.urls.len() as nat);
    c.results@.map_values(|r: WorkResult| r.url@).to_multiset_ensures();
    c.urls@.map_values(|u: String| u@).to_multiset_ensures();
    assert(pending.len() == 0);
    vstd::multiset::lemma_multiset_empty_len(pending);
    assert(url_bag(c.results@).add(pending) =~= url_bag(c.results@));
}

} // verus!
