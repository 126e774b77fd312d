//! The shared run log, modeled as a single-consumer sink of whole messages.
//!
//! Many tasks produce output concurrently, but only one consumer ever appends
//! to the log. That consumer is modeled here: an append-only sequence of
//! whole messages. Appending never splits, merges or reorders messages, which
//! is the integrity guarantee the one-writer discipline exists to provide.
//! The surrounding program drains the sink to the log file on disk.

use vstd::multiset::Multiset;
use vstd::prelude::*;

verus! {

/// An append-only sink of log messages. Its view is the sequence of messages
/// appended so far, each one whole.
pub struct LogSink {
    lines: Vec<String>,
}

impl View for LogSink {
    type V = Seq<Seq<char>>;

    closed spec fn view(&self) -> Seq<Seq<char>> {
        self.lines@.map_values(|l: String| l@)
    }
}

impl LogSink {
    /// An empty log.
    pub fn new() -> (r: Self)
        ensures
            r@ == Seq::<Seq<char>>::empty(),
    {
        let r = LogSink { lines: Vec::new() };
        proof {
            assert(r@ =~= Seq::<Seq<char>>::empty());
        }
        r
    }

    /// Append one message, whole: the log afterwards is the log before with
    /// exactly this message at the end.
    pub fn append(&mut self, msg: String)
        ensures
            final(self)@ == old(self)@.push(msg@),
    {
        self.lines.push(msg);
        proof {
            assert(self@ =~= old(self)@.push(msg@));
        }
    }

    /// The number of messages appended so far.
    pub fn len(&self) -> (n: usize)
        ensures
            n == self@.len(),
    {
        self.lines.len()
    }

    /// The message at position `i`.
    pub fn get(&self, i: usize) -> (r: &String)
        requires
            i < self@.len(),
        ensures
            r@ == self@[i as int],
    {
        &self.lines[i]
    }

    /// Hand every buffered message to the caller, in order, and empty the
    /// sink: how the on-disk writer drains it.
    pub fn drain(&mut self) -> (r: Vec<String>)
        ensures
            r@.map_values(|l: String| l@) == old(self)@,
            final(self)@ == Seq::<Seq<char>>::empty(),
    {
        let mut out: Vec<String> = Vec::new();
        core::mem::swap(&mut out, &mut self.lines);
        proof {
            assert(self@ =~= Seq::<Seq<char>>::empty());
        }
        out
    }
}

/// Being a prefix is transitive.
pub proof fn lemma_prefix_trans<T>(a: Seq<T>, b: Seq<T>, c: Seq<T>)
    requires
        a.is_prefix_of(b),
        b.is_prefix_of(c),
    ensures
        a.is_prefix_of(c),
{
    assert(a =~= c.subrange(0, a.len() as int));
}

/// Everything the tasks emit, taken together, with the order forgotten:
/// the messages that reach the consumer in some interleaving.
pub open spec fn total_messages(tasks: Seq<Seq<Seq<char>>>) -> Multiset<Seq<char>>
    decreases tasks.len(),
{
    if tasks.len() == 0 {
        Multiset::<Seq<char>>::empty()
    } else {
        total_messages(tasks.drop_last()).add(tasks.last().to_multiset())
    }
}

proof fn lemma_total_messages_len(tasks: Seq<Seq<Seq<char>>>, m: nat)
    requires
        forall|t: int| 0 <= t < tasks.len() ==> (#[trigger] tasks[t]).len() == m,
    ensures
        total_messages(tasks).len() == tasks.len() * m,
    decreases tasks.len(),
{
    broadcast use vstd::seq_lib::group_to_multiset_ensures;
    broadcast use vstd::multiset::group_multiset_axioms;

    if tasks.len() > 0 {
        assert forall|t: int| 0 <= t < tasks.drop_last().len() implies (#[trigger] tasks.drop_last()[
            t
        ]).len() == m by {
            assert(tasks.drop_last()[t] == tasks[t]);
        }
        lemma_total_messages_len(tasks.drop_last(), m);
        assert(tasks[tasks.len() - 1].len() == m);
        assert(tasks.last().to_multiset().len() == m);
        assert((tasks.len() - 1) * m + m == tasks.len() * m) by (nonlinear_arith);
    }
}

proof fn lemma_total_messages_member(tasks: Seq<Seq<Seq<char>>>, x: Seq<char>)
    requires
        total_messages(tasks).contains(x),
    ensures
        exists|t: int| 0 <= t < tasks.len() && (#[trigger] tasks[t]).contains(x),
    decreases tasks.len(),
{
    broadcast use vstd::seq_lib::group_to_multiset_ensures;
    broadcast use vstd::multiset::group_multiset_axioms;

    if tasks.len() == 0 {
    } else if tasks.last().to_multiset().count(x) > 0 {
        assert(tasks.last().contains(x));
        assert(tasks[tasks.len() - 1].contains(x));
    } else {
        assert(total_messages(tasks.drop_last()).contains(x));
        lemma_total_messages_member(tasks.drop_last(), x);
        let t = choose|t: int|
            0 <= t < tasks.drop_last().len() && (#[trigger] tasks.drop_last()[t]).contains(x);
        assert(tasks.drop_last()[t] == tasks[t]);
        assert(tasks[t].contains(x));
    }
}

/// Log integrity under concurrency: when `n` tasks each emit `m` whole
/// messages and the consumer appends every delivered message whole — in
/// whatever order the interleaving delivers them — the log grows by
/// exactly `n * m` lines, and every new line is one task's message,
/// unchanged: never a fragment, never the concatenation of two tasks'
/// output.
pub proof fn lemma_log_integrity(
    before: Seq<Seq<char>>,
    delivered: Seq<Seq<char>>,
    after: Seq<Seq<char>>,
    tasks: Seq<Seq<Seq<char>>>,
    m: nat,
)
    requires
        forall|t: int| 0 <= t < tasks.len() ==> (#[trigger] tasks[t]).len() == m,
        delivered.to_multiset() == total_messages(tasks),
        after == before + delivered,
    ensures
        after.len() == before.len() + tasks.len() * m,
        forall|i: int|
            before.len() <= i < after.len() ==> exists|t: int|
                0 <= t < tasks.len() && tasks[t].contains(#[trigger] after[i]),
{
    broadcast use vstd::seq_lib::group_to_multiset_ensures;
    broadcast use vstd::multiset::group_multiset_axioms;

    lemma_total_messages_len(tasks, m);
    assert(delivered.len() == delivered.to_multiset().len());
    assert forall|i: int| before.len() <= i < after.len() implies exists|t: int|
        0 <= t < tasks.len() && tasks[t].contains(#[trigger] after[i]) by {
        let x = after[i];
        assert(delivered[i - before.len()] == x);
        assert(delivered.contains(x));
        assert(delivered.to_multiset().count(x) > 0);
        lemma_total_messages_member(tasks, x);
        let t = choose|t: int| 0 <= t < tasks.len() && (#[trigger] tasks[t]).contains(x);
        assert(tasks[t].contains(after[i]));
    }
}

} // verus!
