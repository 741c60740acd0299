//! The table of running bots, and what the supervisor of one bot does when
//! a session ends.

use crate::text::{same, texts};
use vstd::prelude::*;
use vstd::string::StringExecFns;

verus! {

/// How long the supervisor waits before it connects again, in seconds.
pub const RETRY_DELAY_SECS: u64 = 5;

/// What a request to run a bot came to.
#[derive(Clone, Copy, Debug, PartialEq, Eq)]
pub enum StartOutcome {
    /// The name was new: it is in the table now, and its supervisor is to
    /// be started.
    Started,
    /// A bot of this name is running already: nothing is to be done.
    AlreadyRunning,
}

/// How a session of a bot ended.
#[derive(Clone, Copy, Debug, PartialEq, Eq)]
pub enum SessionEnd {
    /// The bot left of its own will, or the server closed the session in
    /// good order.
    Clean,
    /// The connection failed or broke.
    Failed,
}

/// What the supervisor of a bot does next.
#[derive(Clone, Copy, Debug, PartialEq, Eq)]
pub enum Supervision {
    /// End the supervision: the bot is not started again.
    Stop,
    /// Wait this many seconds, then connect again.
    RetryAfter(u64),
}

/// What follows a session that ended in `end`.
pub open spec fn supervision_after(end: SessionEnd) -> Supervision {
    match end {
        SessionEnd::Clean => Supervision::Stop,
        SessionEnd::Failed => Supervision::RetryAfter(RETRY_DELAY_SECS),
    }
}

/// Decides what follows a session: a clean end stops the supervision, and a
/// failure is followed by another attempt after the fixed delay, however
/// many failures came before.
pub fn after_session(end: SessionEnd) -> (r: Supervision)
    ensures
        r == supervision_after(end),
{
    match end {
        SessionEnd::Clean => Supervision::Stop,
        SessionEnd::Failed => Supervision::RetryAfter(RETRY_DELAY_SECS),
    }
}

/// What a request to run `identity` comes to when the bots of `running`
/// run.
pub open spec fn start_outcome(running: Set<Seq<char>>, identity: Seq<char>) -> StartOutcome {
    if running.contains(identity) {
        StartOutcome::AlreadyRunning
    } else {
        StartOutcome::Started
    }
}

/// Of two requests to run a bot that is not running, one after the other,
/// the first is answered with `Started` and the second with
/// `AlreadyRunning`, and the second changes nothing: the bot is started
/// once.
pub proof fn lemma_started_once(running: Set<Seq<char>>, identity: Seq<char>)
    requires
        !running.contains(identity),
    ensures
        start_outcome(running, identity) == StartOutcome::Started,
        start_outcome(running.insert(identity), identity) == StartOutcome::AlreadyRunning,
        running.insert(identity).insert(identity) == running.insert(identity),
{
    assert(running.insert(identity).insert(identity) =~= running.insert(identity));
}

/// A request for a bot that runs already changes nothing, however often
/// it is made.
pub proof fn lemma_request_is_idempotent(running: Set<Seq<char>>, identity: Seq<char>)
    requires
        running.contains(identity),
    ensures
        start_outcome(running, identity) == StartOutcome::AlreadyRunning,
        running.insert(identity) == running,
{
    assert(running.insert(identity) =~= running);
}

/// The names of `known` that are to be started when the names in `running`
/// run already: each name that is not in `running`, once, where it first
/// stands in `known`.
pub open spec fn to_start(running: Set<Seq<char>>, known: Seq<Seq<char>>) -> Seq<Seq<char>>
    decreases known.len(),
{
    if known.len() == 0 {
        Seq::empty()
    } else {
        let before = known.drop_last();
        let name = known.last();
        if running.contains(name) || before.contains(name) {
            to_start(running, before)
        } else {
            to_start(running, before).push(name)
        }
    }
}

/// The names of the bots that are running or being connected again.
#[derive(Debug)]
pub struct RunningSet {
    names: Vec<String>,
}

impl View for RunningSet {
    type V = Set<Seq<char>>;

    closed spec fn view(&self) -> Set<Seq<char>> {
        texts(self.names@).to_set()
    }
}

impl RunningSet {
    /// No name stands in the table twice.
    #[verifier::type_invariant]
    closed spec fn distinct(&self) -> bool {
        texts(self.names@).no_duplicates()
    }

    /// The table with no bot running.
    pub fn new() -> (r: RunningSet)
        ensures
            r@ == Set::<Seq<char>>::empty(),
    {
        let r = RunningSet { names: Vec::new() };
        proof {
            assert(texts(r.names@) =~= Seq::<Seq<char>>::empty());
            assert(r@ =~= Set::<Seq<char>>::empty());
        }
        r
    }

    /// Where `identity` stands in the table, if it does.
    fn position(&self, identity: &str) -> (r: Option<usize>)
        ensures
            match r {
                Some(i) => i < self.names@.len() && self.names@[i as int]@ == identity@,
                None => !self@.contains(identity@),
            },
    {
        let mut i: usize = 0;
        while i < self.names.len()
            invariant
                i <= self.names@.len(),
                forall|j: int| 0 <= j < i ==> self.names@[j]@ != identity@,
            decreases self.names@.len() - i,
        {
            if same(self.names[i].as_str(), identity) {
                return Some(i);
            }
            i = i + 1;
        }
        proof {
            let t = texts(self.names@);
            assert forall|j: int| 0 <= j < t.len() implies t[j] != identity@ by {
                assert(t[j] == self.names@[j]@);
            }
        }
        None
    }

    /// Tells whether a bot of this name is running.
    pub fn contains(&self, identity: &str) -> (r: bool)
        ensures
            r == self@.contains(identity@),
    {
        match self.position(identity) {
            Some(i) => {
                proof {
                    let t = texts(self.names@);
                    assert(t[i as int] == identity@);
                }
                true
            },
            None => false,
        }
    }

    /// How many bots are running.
    pub fn len(&self) -> (r: usize)
        ensures
            r == self@.len(),
            self@.finite(),
    {
        proof {
            use_type_invariant(self);
            texts(self.names@).unique_seq_to_set();
        }
        self.names.len()
    }

    /// Makes sure that a bot of this name is in the table, and tells
    /// whether it was there before. Of any number of requests for one name
    /// only the first is answered with `Started`.
    pub fn ensure_running(&mut self, identity: &str) -> (r: StartOutcome)
        ensures
            final(self)@ == old(self)@.insert(identity@),
            r == start_outcome(old(self)@, identity@),
    {
        if self.contains(identity) {
            proof {
                assert(self@.insert(identity@) =~= self@);
            }
            return StartOutcome::AlreadyRunning;
        }
        proof {
            use_type_invariant(&*self);
        }
        let ghost before = texts(self.names@);
        let mut taken = RunningSet::new();
        core::mem::swap(self, &mut taken);
        let mut names = taken.names;
        names.push(String::from_str(identity));
        proof {
            let after = texts(names@);
            assert(after =~= before.push(identity@));
            assert(!before.contains(identity@));
            assert(after.no_duplicates());
            assert(after.to_set() =~= before.to_set().insert(identity@)) by {
                assert forall|x: Seq<char>|
                    after.to_set().contains(x) <==> before.to_set().insert(identity@).contains(
                        x,
                    ) by {
                    if after.contains(x) {
                        let k = choose|k: int| 0 <= k < after.len() && after[k] == x;
                        if k < before.len() {
                            assert(before[k] == x);
                        }
                    }
                    if before.contains(x) {
                        let k = choose|k: int| 0 <= k < before.len() && before[k] == x;
                        assert(after[k] == x);
                    }
                    if x == identity@ {
                        assert(after[before.len() as int] == x);
                    }
                }
            }
        }
        *self = RunningSet { names };
        StartOutcome::Started
    }

    /// Takes a bot out of the table when its supervision has ended, so that
    /// the table holds the bots that are supervised and no others.
    pub fn release(&mut self, identity: &str)
        ensures
            final(self)@ == old(self)@.remove(identity@),
    {
        match self.position(identity) {
            None => {
                proof {
                    assert(self@.remove(identity@) =~= self@);
                }
            },
            Some(i) => {
                proof {
                    use_type_invariant(&*self);
                }
                let ghost before = texts(self.names@);
                let mut taken = RunningSet::new();
                core::mem::swap(self, &mut taken);
                let mut names = taken.names;
                names.remove(i);
                proof {
                    let after = texts(names@);
                    assert(after =~= before.remove(i as int));
                    assert(before[i as int] == identity@);
                    assert forall|a: int, b: int|
                        0 <= a < after.len() && 0 <= b < after.len() && a != b implies after[a]
                        != after[b] by {
                        let x = if a < i { a } else { a + 1 };
                        let y = if b < i { b } else { b + 1 };
                        assert(after[a] == before[x]);
                        assert(after[b] == before[y]);
                    }
                    assert forall|x: Seq<char>|
                        after.to_set().contains(x) <==> before.to_set().remove(identity@).contains(
                            x,
                        ) by {
                        if after.contains(x) {
                            let k = choose|k: int| 0 <= k < after.len() && after[k] == x;
                            let j = if k < i { k } else { k + 1 };
                            assert(before[j] == x);
                            assert(j != i);
                        }
                        if before.contains(x) && x != identity@ {
                            let k = choose|k: int| 0 <= k < before.len() && before[k] == x;
                            let j = if k < i { k } else { k - 1 };
                            assert(after[j] == x);
                        }
                    }
                    assert(after.to_set() =~= before.to_set().remove(identity@));
                }
                *self = RunningSet { names };
            },
        }
    }

    /// Makes sure that every bot of `known` is in the table, and returns
    /// the names of those whose supervisors are to be started: the names
    /// that were not running, each once, in the order of `known`.
    pub fn replay(&mut self, known: &Vec<String>) -> (r: Vec<String>)
        ensures
            final(self)@ == old(self)@.union(texts(known@).to_set()),
            texts(r@) == to_start(old(self)@, texts(known@)),
    {
        let mut started: Vec<String> = Vec::new();
        let ghost all = texts(known@);
        let mut i: usize = 0;
        proof {
            assert(all.take(0) =~= Seq::<Seq<char>>::empty());
            assert(texts(started@) =~= to_start(self@, all.take(0)));
            assert(self@ =~= self@.union(all.take(0).to_set()));
        }
        while i < known.len()
            invariant
                i <= known@.len(),
                all == texts(known@),
                self@ == old(self)@.union(all.take(i as int).to_set()),
                texts(started@) == to_start(old(self)@, all.take(i as int)),
            decreases known@.len() - i,
        {
            let ghost prefix = all.take(i as int);
            let ghost next = all.take(i + 1);
            let outcome = self.ensure_running(known[i].as_str());
            proof {
                assert(all[i as int] == known@[i as int]@);
                assert(next.drop_last() =~= prefix);
                assert(next.last() == all[i as int]);
                assert(next.to_set() =~= prefix.to_set().insert(all[i as int])) by {
                    assert forall|x: Seq<char>|
                        next.to_set().contains(x) <==> prefix.to_set().insert(
                            all[i as int],
                        ).contains(x) by {
                        if next.contains(x) {
                            let k = choose|k: int| 0 <= k < next.len() && next[k] == x;
                            if k < i {
                                assert(prefix[k] == x);
                            }
                        }
                        if prefix.contains(x) {
                            let k = choose|k: int| 0 <= k < prefix.len() && prefix[k] == x;
                            assert(next[k] == x);
                        }
                        if x == all[i as int] {
                            assert(next[i as int] == x);
                        }
                    }
                }
                assert(self@ =~= old(self)@.union(next.to_set()));
            }
            match outcome {
                StartOutcome::Started => {
                    let ghost before = texts(started@);
                    started.push(String::from_str(known[i].as_str()));
                    proof {
                        assert(texts(started@) =~= before.push(all[i as int]));
                    }
                },
                StartOutcome::AlreadyRunning => {},
            }
            i = i + 1;
        }
        proof {
            assert(all.take(i as int) =~= all);
        }
        started
    }
}

} // verus!
