//! Orchestrator state: the agents, the memory log of published texts, and
//! the deduplication set of handled notifications.  The two cycles that the
//! surrounding program runs — publish a post, answer mentions — take every
//! decision through the functions here; only the remote calls themselves
//! happen outside.

use vstd::prelude::*;

use crate::agent::Agent;

verus! {

/// An inbound mention: the platform's identifier and the message text.
pub struct Notification {
    pub id: String,
    pub text: String,
}

/// The set of identifiers that a sequence of identifier strings denotes.
pub open spec fn id_set(ids: Seq<String>) -> Set<Seq<char>> {
    Set::new(|s: Seq<char>| exists|i: int| 0 <= i < ids.len() && ids[i]@ == s)
}

/// Deduplication record of the notifications already handled.
pub struct ProcessedNotifications {
    tweet_ids: Vec<String>,
}

impl View for ProcessedNotifications {
    type V = Set<Seq<char>>;

    closed spec fn view(&self) -> Set<Seq<char>> {
        id_set(self.tweet_ids@)
    }
}

impl ProcessedNotifications {
    /// No identifier is recorded twice.
    pub closed spec fn wf(&self) -> bool {
        forall|i: int, j: int|
            0 <= i < j < self.tweet_ids@.len() ==> self.tweet_ids@[i]@ != self.tweet_ids@[j]@
    }

    /// How many identifiers are recorded.
    pub closed spec fn count(&self) -> nat {
        self.tweet_ids@.len()
    }

    pub fn new() -> (p: ProcessedNotifications)
        ensures
            p.wf(),
            p.count() == 0,
            p@ == Set::<Seq<char>>::empty(),
    {
        let p = ProcessedNotifications { tweet_ids: Vec::new() };
        proof {
            assert(p@ =~= Set::<Seq<char>>::empty());
        }
        p
    }

    pub fn len(&self) -> (n: usize)
        ensures
            n == self.count(),
    {
        self.tweet_ids.len()
    }

    /// The recorded identifiers, in the order they were recorded; for
    /// handing to the persistence layer.
    pub fn ids(&self) -> (ids: &Vec<String>)
        ensures
            ids@.len() == self.count(),
            id_set(ids@) == self@,
    {
        &self.tweet_ids
    }

    /// Whether an identifier was recorded before.
    pub fn contains(&self, id: &str) -> (r: bool)
        ensures
            r == self@.contains(id@),
    {
        let id_string = id.to_owned();
        let n = self.tweet_ids.len();
        let mut k: usize = 0;
        while k < n
            invariant
                n == self.tweet_ids@.len(),
                k <= n,
                id_string@ == id@,
                forall|j: int| 0 <= j < k ==> self.tweet_ids@[j]@ != id@,
            decreases n - k,
        {
            if self.tweet_ids[k] == id_string {
                proof {
                    assert(self.tweet_ids@[k as int]@ == id@);
                }
                return true;
            }
            k = k + 1;
        }
        proof {
            assert(!self@.contains(id@));
        }
        false
    }

    /// Record an identifier.  Recording one that is already present leaves
    /// the set, and in particular its size, unchanged.
    pub fn insert(&mut self, id: String)
        requires
            old(self).wf(),
        ensures
            final(self).wf(),
            final(self)@ == old(self)@.insert(id@),
            old(self)@.contains(id@) ==> final(self).count() == old(self).count(),
            !old(self)@.contains(id@) ==> final(self).count() == old(self).count() + 1,
    {
        if !self.contains(id.as_str()) {
            let ghost pre = self.tweet_ids@;
            self.tweet_ids.push(id);
            proof {
                assert forall|s: Seq<char>| self@.contains(s) implies old(
                    self,
                )@.insert(id@).contains(s) by {
                    let i = choose|i: int|
                        0 <= i < self.tweet_ids@.len() && (#[trigger] self.tweet_ids@[i])@ == s;
                    if i < pre.len() {
                        assert(pre[i]@ == s);
                    }
                }
                assert forall|s: Seq<char>| old(self)@.insert(id@).contains(s) implies self@.contains(
                    s,
                ) by {
                    if s == id@ {
                        assert(self.tweet_ids@[pre.len() as int]@ == s);
                    } else {
                        let i = choose|i: int| 0 <= i < pre.len() && (#[trigger] pre[i])@ == s;
                        assert(self.tweet_ids@[i]@ == s);
                    }
                }
                assert(self@ =~= old(self)@.insert(id@));
            }
        } else {
            proof {
                assert(self@ =~= old(self)@.insert(id@));
            }
        }
    }

    /// Rebuild the record from a stored list of identifiers, dropping any
    /// duplicate entries the list may hold.
    pub fn from_ids(ids: Vec<String>) -> (p: ProcessedNotifications)
        ensures
            p.wf(),
            p@ == id_set(ids@),
    {
        let mut p = ProcessedNotifications::new();
        let n = ids.len();
        let mut k: usize = 0;
        while k < n
            invariant
                n == ids@.len(),
                k <= n,
                p.wf(),
                p@ == id_set(ids@.take(k as int)),
            decreases n - k,
        {
            let id = ids[k].clone();
            p.insert(id);
            proof {
                lemma_id_set_take_step(ids@, k as int);
            }
            k = k + 1;
        }
        proof {
            assert(ids@.take(n as int) =~= ids@);
        }
        p
    }
}

impl Default for ProcessedNotifications {
    fn default() -> (p: ProcessedNotifications)
        ensures
            p.wf(),
            p.count() == 0,
            p@ == Set::<Seq<char>>::empty(),
    {
        ProcessedNotifications::new()
    }
}

/// Taking one more identifier into the denoted set adds exactly that
/// identifier.
proof fn lemma_id_set_take_step(ids: Seq<String>, k: int)
    requires
        0 <= k < ids.len(),
    ensures
        id_set(ids.take(k + 1)) == id_set(ids.take(k)).insert(ids[k]@),
{
    assert forall|s: Seq<char>| id_set(ids.take(k + 1)).contains(s) implies id_set(
        ids.take(k),
    ).insert(ids[k]@).contains(s) by {
        let i = choose|i: int| 0 <= i < ids.take(k + 1).len() && (#[trigger] ids.take(k + 1)[i])@ == s;
        if i < k {
            assert(ids.take(k)[i]@ == s);
        }
    }
    assert forall|s: Seq<char>| id_set(ids.take(k)).insert(ids[k]@).contains(s) implies id_set(
        ids.take(k + 1),
    ).contains(s) by {
        if s == ids[k]@ {
            assert(ids.take(k + 1)[k]@ == s);
        } else {
            let i = choose|i: int| 0 <= i < ids.take(k).len() && (#[trigger] ids.take(k)[i])@ == s;
            assert(ids.take(k + 1)[i]@ == s);
        }
    }
    assert(id_set(ids.take(k + 1)) =~= id_set(ids.take(k)).insert(ids[k]@));
}

/// Recording the same identifier twice leaves the set as recording it once:
/// the record never holds duplicates.
pub proof fn lemma_record_idempotent(processed: Set<Seq<char>>, id: Seq<char>)
    ensures
        processed.insert(id).insert(id) == processed.insert(id),
        processed.insert(id).contains(id),
{
    assert(processed.insert(id).insert(id) =~= processed.insert(id));
}

/// How many of the pending notifications one cycle takes on.
pub open spec fn spec_batch_len(available: int) -> int {
    if available < 5 {
        available
    } else {
        5
    }
}

/// However many notifications are pending, a single cycle takes on at most
/// five of them.
pub proof fn lemma_cycle_bounded(notifications: Seq<Notification>)
    ensures
        notifications.take(spec_batch_len(notifications.len() as int)).len() <= 5,
{
}

/// Relies on rand: `Rng::gen_range` over `0..n` on the thread-local
/// generator returns a value of that range; it panics only on an empty
/// range, which `n > 0` rules out.  Nothing more is assumed of the draw.
#[verifier::external_body]
fn pick_index(n: usize) -> (r: usize)
    requires
        n > 0,
    ensures
        r < n,
{
    rand::Rng::gen_range(&mut rand::thread_rng(), 0..n)
}

/// The bot's state between cycles.
pub struct Runtime {
    agents: Vec<Agent>,
    memory: Vec<String>,
    processed_tweets: ProcessedNotifications,
}

impl Runtime {
    /// The persona texts of the agents, in the order they were added.
    pub closed spec fn personas(&self) -> Seq<Seq<char>> {
        Seq::new(self.agents@.len(), |i: int| self.agents@[i].persona())
    }

    /// The memory log: every text published so far, oldest first.
    pub closed spec fn mem(&self) -> Seq<Seq<char>> {
        self.memory.deep_view()
    }

    /// The identifiers of the notifications already handled.
    pub closed spec fn processed(&self) -> Set<Seq<char>> {
        self.processed_tweets@
    }

    /// How many notification identifiers are recorded.
    pub closed spec fn processed_count(&self) -> nat {
        self.processed_tweets.count()
    }

    pub closed spec fn wf(&self) -> bool {
        self.processed_tweets.wf()
    }

    /// A fresh runtime around state loaded from disk; it starts with no
    /// agents.
    pub fn new(memory: Vec<String>, processed_tweets: ProcessedNotifications) -> (rt: Runtime)
        requires
            processed_tweets.wf(),
        ensures
            rt.wf(),
            rt.personas() == Seq::<Seq<char>>::empty(),
            rt.mem() == memory.deep_view(),
            rt.processed() == processed_tweets@,
            rt.processed_count() == processed_tweets.count(),
    {
        let rt = Runtime { agents: Vec::new(), memory, processed_tweets };
        proof {
            assert(rt.personas() =~= Seq::<Seq<char>>::empty());
        }
        rt
    }

    /// Add an agent with the given persona.
    pub fn add_agent(&mut self, prompt: &str)
        requires
            old(self).wf(),
        ensures
            final(self).wf(),
            final(self).personas() == old(self).personas().push(prompt@),
            final(self).mem() == old(self).mem(),
            final(self).processed() == old(self).processed(),
            final(self).processed_count() == old(self).processed_count(),
    {
        let agent = Agent::new(prompt);
        self.agents.push(agent);
        proof {
            assert(self.personas() =~= old(self).personas().push(prompt@));
        }
    }

    pub fn agents_count(&self) -> (n: usize)
        ensures
            n == self.personas().len(),
    {
        self.agents.len()
    }

    /// Whether a cycle can run at all.
    pub fn has_agents(&self) -> (r: bool)
        ensures
            r == (self.personas().len() > 0),
    {
        self.agents.len() > 0
    }

    /// The agent at a given position.
    pub fn agent(&self, i: usize) -> (a: &Agent)
        requires
            i < self.personas().len(),
        ensures
            a.persona() == self.personas()[i as int],
    {
        &self.agents[i]
    }

    /// Draw the agent for this cycle.  Which one comes out is up to the
    /// random generator; it is always a valid position.
    pub fn select_agent_index(&self) -> (i: usize)
        requires
            self.personas().len() > 0,
        ensures
            i < self.personas().len(),
    {
        pick_index(self.agents.len())
    }

    /// Append a successfully published text to the memory log: the log grows
    /// by exactly that one text.
    pub fn record_post(&mut self, text: &str)
        requires
            old(self).wf(),
        ensures
            final(self).wf(),
            final(self).mem() == old(self).mem().push(text@),
            final(self).mem().len() == old(self).mem().len() + 1,
            final(self).mem().last() == text@,
            final(self).personas() == old(self).personas(),
            final(self).processed() == old(self).processed(),
            final(self).processed_count() == old(self).processed_count(),
    {
        self.memory.push(text.to_owned());
        proof {
            assert(self.mem() =~= old(self).mem().push(text@));
            assert(self.personas() =~= old(self).personas());
        }
    }

    /// A borrowed view of the memory log.
    pub fn memory(&self) -> (m: &Vec<String>)
        ensures
            m.deep_view() == self.mem(),
    {
        &self.memory
    }

    /// Whether a notification was already handled in an earlier cycle.
    pub fn is_processed(&self, id: &str) -> (r: bool)
        ensures
            r == self.processed().contains(id@),
    {
        self.processed_tweets.contains(id)
    }

    /// Record a notification as handled, whatever came of the reply to it.
    pub fn mark_processed(&mut self, id: &str)
        requires
            old(self).wf(),
        ensures
            final(self).wf(),
            final(self).processed() == old(self).processed().insert(id@),
            old(self).processed().contains(id@) ==> final(self).processed_count() == old(
                self,
            ).processed_count(),
            !old(self).processed().contains(id@) ==> final(self).processed_count() == old(
                self,
            ).processed_count() + 1,
            final(self).mem() == old(self).mem(),
            final(self).personas() == old(self).personas(),
    {
        self.processed_tweets.insert(id.to_owned());
        proof {
            assert(self.personas() =~= old(self).personas());
        }
    }

    /// A borrowed view of the processed-notification record.
    pub fn processed_ids(&self) -> (p: &ProcessedNotifications)
        ensures
            p@ == self.processed(),
            p.count() == self.processed_count(),
    {
        &self.processed_tweets
    }

    /// The slice of the pending notifications that one cycle takes on: the
    /// first of them, at most five.
    pub fn notification_batch(notifications: Vec<Notification>) -> (batch: Vec<Notification>)
        ensures
            batch@ == notifications@.take(spec_batch_len(notifications@.len() as int)),
            batch@.len() <= 5,
    {
        let mut batch = notifications;
        if batch.len() > 5 {
            batch.truncate(5);
        } else {
            proof {
                assert(batch@.take(batch@.len() as int) =~= batch@);
            }
        }
        batch
    }
}

} // verus!
