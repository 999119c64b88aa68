//! The ordered, append-only record of one execution's output, and the
//! readers that follow it.

use vstd::prelude::*;
use crate::logs::NormalizedEntry;

verus! {

/// One message of an execution's record.
#[derive(Clone, Debug, PartialEq, Eq)]
pub enum LogMsg {
    /// A piece of raw standard output.
    Stdout(String),
    /// A line of raw standard error.
    Stderr(String),
    /// A structured entry under its index.
    Entry { index: usize, entry: NormalizedEntry },
    /// The execution has ended.
    Finished,
}

impl LogMsg {
    /// A copy of the message.
    pub fn duplicate(&self) -> (r: LogMsg)
        ensures
            r == *self,
    {
        match self {
            LogMsg::Stdout(s) => LogMsg::Stdout(s.clone()),
            LogMsg::Stderr(s) => LogMsg::Stderr(s.clone()),
            LogMsg::Entry { index, entry } => LogMsg::Entry {
                index: *index,
                entry: entry.duplicate(),
            },
            LogMsg::Finished => LogMsg::Finished,
        }
    }
}

/// The indices of the entries of a record, in the order of the record.
pub open spec fn entry_indices(history: Seq<LogMsg>) -> Seq<usize>
    decreases history.len(),
{
    if history.len() == 0 {
        Seq::empty()
    } else {
        let before = entry_indices(history.drop_last());
        match history.last() {
            LogMsg::Entry { index, entry } => before.push(index),
            _ => before,
        }
    }
}

/// What a reader that has been handed `seen` messages has not been handed
/// yet.
pub open spec fn unseen(history: Seq<LogMsg>, seen: nat) -> Seq<LogMsg> {
    if seen <= history.len() {
        history.subrange(seen as int, history.len() as int)
    } else {
        Seq::empty()
    }
}

/// The indices count up from zero, one by one.
pub open spec fn counts_up(indices: Seq<usize>) -> bool {
    forall|i: int| 0 <= i < indices.len() ==> #[trigger] indices[i] == i
}

/// A record holds no more entries than messages.
pub proof fn lemma_entries_bounded(history: Seq<LogMsg>)
    ensures
        entry_indices(history).len() <= history.len(),
    decreases history.len(),
{
    if history.len() > 0 {
        lemma_entries_bounded(history.drop_last());
    }
}

/// Hands out the indices of a record's entries, each one once, counting up.
#[derive(Debug, PartialEq, Eq)]
pub struct EntryIndexProvider {
    next: usize,
}

impl EntryIndexProvider {
    /// The index that is handed out next.
    pub closed spec fn spec_current(self) -> nat {
        self.next as nat
    }

    /// A provider that starts at zero.
    pub fn new() -> (r: Self)
        ensures
            r.spec_current() == 0,
    {
        EntryIndexProvider { next: 0 }
    }

    /// A provider that goes on where the record stands: above every index
    /// that the record holds.
    pub fn start_from(store: &MsgStore) -> (r: Self)
        ensures
            r.spec_current() == store.entry_count(),
            forall|i: int|
                0 <= i < entry_indices(store@).len() ==> (#[trigger] entry_indices(store@)[i])
                    < r.spec_current(),
    {
        proof {
            use_type_invariant(store);
        }
        EntryIndexProvider { next: store.provider.next }
    }

    pub fn current(&self) -> (r: usize)
        ensures
            r == self.spec_current(),
    {
        self.next
    }

    /// Hands out the next index.
    pub fn next(&mut self) -> (r: usize)
        requires
            old(self).spec_current() < usize::MAX,
        ensures
            r == old(self).spec_current(),
            final(self).spec_current() == old(self).spec_current() + 1,
    {
        let index = self.next;
        self.next = self.next + 1;
        index
    }
}

/// The record of one execution: raw output and structured entries in the
/// order in which they were published. Nothing is ever taken out or moved,
/// and the entries carry the indices 0, 1, 2, ... in that order.
#[derive(Debug, PartialEq, Eq)]
pub struct MsgStore {
    history: Vec<LogMsg>,
    provider: EntryIndexProvider,
}

/// A reader of a record. It is handed every message once, in the record's
/// order, from the first message on, whenever it attached.
#[derive(Debug, PartialEq, Eq)]
pub struct Subscriber {
    cursor: usize,
}

impl Subscriber {
    /// How many messages the reader has been handed.
    pub closed spec fn seen(self) -> nat {
        self.cursor as nat
    }
}

impl View for MsgStore {
    type V = Seq<LogMsg>;

    closed spec fn view(&self) -> Seq<LogMsg> {
        self.history@
    }
}

impl MsgStore {
    #[verifier::type_invariant]
    spec fn consistent(self) -> bool {
        &&& counts_up(entry_indices(self.history@))
        &&& self.provider.next == entry_indices(self.history@).len()
    }

    /// How many entries the record holds: the index of the next one.
    pub open spec fn entry_count(self) -> nat {
        entry_indices(self@).len()
    }

    /// An empty record.
    pub fn new() -> (r: Self)
        ensures
            r@ == Seq::<LogMsg>::empty(),
    {
        MsgStore { history: Vec::new(), provider: EntryIndexProvider::new() }
    }

    /// The messages published so far.
    pub fn get_history(&self) -> (r: &Vec<LogMsg>)
        ensures
            r@ == self@,
            counts_up(entry_indices(self@)),
    {
        proof {
            use_type_invariant(self);
        }
        &self.history
    }

    /// The number of entries published so far.
    pub fn high_water_mark(&self) -> (r: usize)
        ensures
            r == self.entry_count(),
    {
        proof {
            use_type_invariant(self);
        }
        self.provider.current()
    }

    /// Takes the record apart, leaving an empty one behind.
    fn take_parts(&mut self) -> (r: (Vec<LogMsg>, EntryIndexProvider))
        ensures
            r.0@ == old(self)@,
            counts_up(entry_indices(r.0@)),
            r.1.next == entry_indices(r.0@).len(),
    {
        proof {
            use_type_invariant(&*self);
        }
        let mut taken = MsgStore::new();
        core::mem::swap(self, &mut taken);
        let MsgStore { history, provider } = taken;
        (history, provider)
    }

    /// Appends a message that is no entry.
    fn push_raw(&mut self, msg: LogMsg)
        requires
            !(msg is Entry),
        ensures
            final(self)@ == old(self)@.push(msg),
    {
        let (mut history, provider) = self.take_parts();
        proof {
            assert(history@.push(msg).drop_last() =~= history@);
        }
        history.push(msg);
        *self = MsgStore { history, provider };
    }

    /// Publishes a piece of raw standard output.
    pub fn push_stdout(&mut self, chunk: String)
        ensures
            final(self)@ == old(self)@.push(LogMsg::Stdout(chunk)),
    {
        self.push_raw(LogMsg::Stdout(chunk));
    }

    /// Publishes a line of raw standard error.
    pub fn push_stderr(&mut self, line: String)
        ensures
            final(self)@ == old(self)@.push(LogMsg::Stderr(line)),
    {
        self.push_raw(LogMsg::Stderr(line));
    }

    /// Marks the end of the execution.
    pub fn push_finished(&mut self)
        ensures
            final(self)@ == old(self)@.push(LogMsg::Finished),
    {
        self.push_raw(LogMsg::Finished);
    }

    /// Publishes a structured entry under the next index, which is handed
    /// back.
    pub fn publish(&mut self, entry: NormalizedEntry) -> (index: usize)
        ensures
            index == old(self).entry_count(),
            final(self)@ == old(self)@.push(LogMsg::Entry { index, entry }),
            final(self).entry_count() == old(self).entry_count() + 1,
            counts_up(entry_indices(final(self)@)),
    {
        let (mut history, mut provider) = self.take_parts();
        let index = provider.current();
        let ghost before = history@;
        let ghost msg = LogMsg::Entry { index, entry };
        history.push(LogMsg::Entry { index, entry });
        // The record's length fits a `usize`, so the count of its entries
        // does, and the provider can step on.
        let grown: usize = history.len();
        proof {
            assert(before.push(msg).drop_last() =~= before);
            lemma_entries_bounded(before);
            assert(entry_indices(before.push(msg)) == entry_indices(before).push(index));
        }
        provider.next();
        *self = MsgStore { history, provider };
        index
    }

    /// A reader that has been handed nothing yet: its first poll brings the
    /// whole backlog.
    pub fn subscribe(&self) -> (r: Subscriber)
        ensures
            r.seen() == 0,
    {
        Subscriber { cursor: 0 }
    }

    /// Lets the reader pass over what it has not been handed yet.
    pub fn skip_to_end(&self, reader: &mut Subscriber)
        ensures
            final(reader).seen() == self@.len(),
    {
        reader.cursor = self.history.len();
    }

    /// Hands the reader the messages that it has not been handed yet, in
    /// the record's order.
    pub fn poll(&self, reader: &mut Subscriber) -> (r: Vec<LogMsg>)
        ensures
            r@ == unseen(self@, old(reader).seen()),
            final(reader).seen() == self@.len(),
            counts_up(entry_indices(self@)),
    {
        proof {
            use_type_invariant(self);
        }
        let n: usize = self.history.len();
        let mut out: Vec<LogMsg> = Vec::new();
        let mut i: usize = reader.cursor;
        let ghost from: int = reader.cursor as int;
        if i > n {
            reader.cursor = n;
            return out;
        }
        assert(out@ =~= self.history@.subrange(from, i as int));
        while i < n
            invariant
                n == self.history@.len(),
                0 <= from <= i <= n,
                out@ == self.history@.subrange(from, i as int),
            decreases n - i,
        {
            out.push(self.history[i].duplicate());
            assert(self.history@.subrange(from, i as int).push(self.history@[i as int])
                =~= self.history@.subrange(from, i + 1));
            i += 1;
        }
        reader.cursor = n;
        out
    }
}

/// Indices that count up from zero are strictly increasing, without a gap
/// and without a duplicate. Every record's entries carry such indices.
pub proof fn law_indices_count_up(indices: Seq<usize>)
    requires
        counts_up(indices),
    ensures
        forall|i: int, j: int| 0 <= i < j < indices.len() ==> indices[i] < indices[j],
        forall|i: int|
            0 <= i < indices.len() - 1 ==> #[trigger] indices[i] + 1 == indices[i + 1],
        indices.no_duplicates(),
{
}

/// A reader loses nothing and sees nothing twice: what it is handed at one
/// poll and at the next, put together, is what it would have been handed
/// at the second alone, for a record that only grew in between.
pub proof fn law_polls_add_up(earlier: Seq<LogMsg>, later: Seq<LogMsg>, seen: nat)
    requires
        earlier.is_prefix_of(later),
        seen <= earlier.len(),
    ensures
        unseen(earlier, seen) + unseen(later, earlier.len()) == unseen(later, seen),
{
    assert(unseen(earlier, seen) + unseen(later, earlier.len()) =~= unseen(later, seen));
}

/// The entries of two stretches of a record put together are the entries
/// of the one followed by the entries of the other.
pub proof fn lemma_entries_of_both(first: Seq<LogMsg>, second: Seq<LogMsg>)
    ensures
        entry_indices(first + second) == entry_indices(first) + entry_indices(second),
    decreases second.len(),
{
    if second.len() == 0 {
        assert(first + second =~= first);
        assert(entry_indices(first) + entry_indices(second) =~= entry_indices(first));
    } else {
        lemma_entries_of_both(first, second.drop_last());
        assert((first + second).drop_last() =~= first + second.drop_last());
        assert((first + second).last() == second.last());
        match second.last() {
            LogMsg::Entry { index, entry } => {
                assert(entry_indices(first + second) =~= entry_indices(first) + entry_indices(
                    second,
                ));
            },
            _ => {},
        }
    }
}

/// Whatever number of polls a reader takes, the entries that it is handed
/// are the record's entries in the record's order: poll by poll they carry
/// on where the last poll ended, and from the first poll on they carry the
/// indices 0, 1, 2, ... without a gap or a duplicate.
pub proof fn law_entries_observed_in_order(earlier: Seq<LogMsg>, later: Seq<LogMsg>)
    requires
        earlier.is_prefix_of(later),
        counts_up(entry_indices(later)),
    ensures
        entry_indices(unseen(earlier, 0)) + entry_indices(unseen(later, earlier.len()))
            == entry_indices(later),
        counts_up(entry_indices(unseen(earlier, 0))),
        forall|k: int|
            0 <= k < entry_indices(unseen(later, earlier.len())).len() ==> #[trigger] entry_indices(
                unseen(later, earlier.len()),
            )[k] == entry_indices(earlier).len() + k,
{
    let rest = unseen(later, earlier.len());
    assert(unseen(earlier, 0) =~= earlier);
    assert(earlier + rest =~= later);
    lemma_entries_of_both(earlier, rest);
    assert forall|k: int| 0 <= k < entry_indices(rest).len() implies #[trigger] entry_indices(
        rest,
    )[k] == entry_indices(earlier).len() + k by {
        assert(entry_indices(later)[entry_indices(earlier).len() + k] == entry_indices(rest)[k]);
    }
    assert forall|i: int| 0 <= i < entry_indices(earlier).len() implies #[trigger] entry_indices(
        earlier,
    )[i] == i by {
        assert(entry_indices(later)[i] == entry_indices(earlier)[i]);
    }
}

/// A reader that attaches late is handed the whole backlog and then what
/// follows: over two polls it has been handed exactly what a reader
/// attached from the start has been handed, the record as it stands, in
/// the record's order.
pub proof fn law_late_subscriber(at_attach: Seq<LogMsg>, earlier: Seq<LogMsg>, later: Seq<LogMsg>)
    requires
        at_attach.is_prefix_of(earlier),
        earlier.is_prefix_of(later),
    ensures
        unseen(earlier, 0) + unseen(later, earlier.len()) == later,
        unseen(at_attach, 0) + unseen(earlier, at_attach.len()) + unseen(later, earlier.len())
            == later,
{
    assert(unseen(earlier, 0) + unseen(later, earlier.len()) =~= later);
    assert(unseen(at_attach, 0) + unseen(earlier, at_attach.len()) + unseen(later, earlier.len())
        =~= later);
}

} // verus!
