//! The pipeline from raw output to structured entries: it reads the raw
//! messages of a record in their order and publishes, into the same record,
//! an error entry for each line of standard error and an assistant entry
//! for each line of standard output.

use vstd::prelude::*;
use crate::executor::RalphExecutor;
use crate::logs::{
    ansi_stripped,
    complete_lines,
    error_entry,
    lemma_single_line,
    open_line,
    stdout_entries,
    NormalizedEntry,
    NormalizedEntryType,
    PlainTextLogProcessor,
};
use crate::text::no_line_feed;
use crate::msg_store::{counts_up, entry_indices, unseen, LogMsg, MsgStore, Subscriber};

verus! {

/// The kinds and contents of the entries made of complete lines of
/// standard output.
pub open spec fn made_of_lines(lines: Seq<Seq<char>>) -> Seq<(NormalizedEntryType, Seq<char>)> {
    Seq::new(
        lines.len(),
        |i: int| (NormalizedEntryType::AssistantMessage, ansi_stripped(lines[i])),
    )
}

/// The kinds and contents of the entries that one message gives rise to,
/// where `pending` is the line of standard output in progress.
pub open spec fn made_by(msg: LogMsg, pending: Seq<char>) -> Seq<(NormalizedEntryType, Seq<char>)> {
    match msg {
        LogMsg::Stdout(chunk) => made_of_lines(complete_lines(pending + chunk@)),
        LogMsg::Stderr(line) => seq![(NormalizedEntryType::ErrorMessage, line@)],
        LogMsg::Finished => if pending.len() > 0 {
            seq![(NormalizedEntryType::AssistantMessage, ansi_stripped(pending))]
        } else {
            Seq::empty()
        },
        LogMsg::Entry { index, entry } => Seq::empty(),
    }
}

/// The line of standard output in progress after one message.
pub open spec fn pending_after(msg: LogMsg, pending: Seq<char>) -> Seq<char> {
    match msg {
        LogMsg::Stdout(chunk) => open_line(pending + chunk@),
        LogMsg::Finished => Seq::empty(),
        _ => pending,
    }
}

/// The line of standard output in progress after a run of messages.
pub open spec fn pending_at_end(msgs: Seq<LogMsg>, pending: Seq<char>) -> Seq<char>
    decreases msgs.len(),
{
    if msgs.len() == 0 {
        pending
    } else {
        pending_after(msgs.last(), pending_at_end(msgs.drop_last(), pending))
    }
}

/// The kinds and contents of the entries that a run of messages gives rise
/// to, in the order of the messages.
pub open spec fn normalized(msgs: Seq<LogMsg>, pending: Seq<char>) -> Seq<
    (NormalizedEntryType, Seq<char>),
>
    decreases msgs.len(),
{
    if msgs.len() == 0 {
        Seq::empty()
    } else {
        normalized(msgs.drop_last(), pending) + made_by(
            msgs.last(),
            pending_at_end(msgs.drop_last(), pending),
        )
    }
}

/// `tail` holds entries and nothing else: bare messages of the given kinds
/// and contents, under the indices from `first` on.
pub open spec fn published(
    tail: Seq<LogMsg>,
    first: nat,
    made: Seq<(NormalizedEntryType, Seq<char>)>,
) -> bool {
    &&& tail.len() == made.len()
    &&& forall|k: int|
        0 <= k < tail.len() ==> match #[trigger] tail[k] {
            LogMsg::Entry { index, entry } => index == first + k && entry.is_message(
                made[k].0,
                made[k].1,
            ),
            _ => false,
        }
}

/// The state of the pipeline for one record: how far it has read, and the
/// line of standard output in progress.
#[derive(Debug, PartialEq, Eq)]
pub struct LogNormalizer {
    reader: Subscriber,
    stdout: PlainTextLogProcessor,
}

impl LogNormalizer {
    /// How many messages of the record have been read.
    pub closed spec fn seen(self) -> nat {
        self.reader.seen()
    }

    /// The line of standard output in progress.
    pub closed spec fn pending(self) -> Seq<char> {
        self.stdout.pending()
    }

    /// A pipeline that has read nothing of the record yet.
    pub fn new(store: &MsgStore) -> (r: Self)
        ensures
            r.seen() == 0,
            r.pending() == Seq::<char>::empty(),
    {
        LogNormalizer { reader: store.subscribe(), stdout: PlainTextLogProcessor::new() }
    }

    /// Reads the messages that came since the last step and publishes the
    /// entries that they give rise to at the end of the record, in the
    /// order of the messages that they come from. Nothing that was in the
    /// record is changed.
    pub fn step(&mut self, store: &mut MsgStore)
        ensures
            old(store)@.is_prefix_of(final(store)@),
            published(
                final(store)@.skip(old(store)@.len() as int),
                old(store).entry_count(),
                normalized(unseen(old(store)@, old(self).seen()), old(self).pending()),
            ),
            final(self).pending() == pending_at_end(
                unseen(old(store)@, old(self).seen()),
                old(self).pending(),
            ),
            final(self).seen() == final(store)@.len(),
            counts_up(entry_indices(final(store)@)),
    {
        let ghost base = store@;
        let ghost first = store.entry_count();
        let ghost pending = self.stdout.pending();
        let raw = store.poll(&mut self.reader);
        let ghost mut made: Seq<(NormalizedEntryType, Seq<char>)> = Seq::empty();
        let ghost mut tail: Seq<LogMsg> = Seq::empty();
        let mut i: usize = 0;
        proof {
            assert(store@ =~= base + tail);
            assert(raw@.take(0) =~= Seq::<LogMsg>::empty());
        }
        while i < raw.len()
            invariant
                i <= raw.len(),
                store@ == base + tail,
                published(tail, first, made),
                store.entry_count() == first + made.len(),
                counts_up(entry_indices(store@)),
                made == normalized(raw@.take(i as int), pending),
                self.stdout.pending() == pending_at_end(raw@.take(i as int), pending),
            decreases raw.len() - i,
        {
            let ghost before = raw@.take(i as int);
            let ghost now = raw@.take(i + 1);
            let ghost held = self.stdout.pending();
            proof {
                assert(now.drop_last() =~= before);
                assert(now.last() == raw@[i as int]);
            }
            match &raw[i] {
                LogMsg::Stdout(chunk) => {
                    let entries = self.stdout.process(chunk.as_str());
                    let ghost lines = complete_lines(held + chunk@);
                    let ghost made_before = made;
                    let mut k: usize = 0;
                    proof {
                        assert(made =~= made_before + made_of_lines(lines).take(0));
                    }
                    while k < entries.len()
                        invariant
                            k <= entries.len(),
                            stdout_entries(entries@, lines),
                            store@ == base + tail,
                            published(tail, first, made),
                            store.entry_count() == first + made.len(),
                            counts_up(entry_indices(store@)),
                            made == made_before + made_of_lines(lines).take(k as int),
                        decreases entries.len() - k,
                    {
                        let entry = entries[k].duplicate();
                        let index = store.publish(entry);
                        proof {
                            let item = (
                                NormalizedEntryType::AssistantMessage,
                                ansi_stripped(lines[k as int]),
                            );
                            assert(made_of_lines(lines).take(k + 1) =~= made_of_lines(lines).take(
                                k as int,
                            ).push(item));
                            assert(made_before + made_of_lines(lines).take(k + 1) =~= made.push(
                                item,
                            ));
                            made = made.push(item);
                            assert(base + tail.push(LogMsg::Entry { index, entry }) =~= (base
                                + tail).push(LogMsg::Entry { index, entry }));
                            tail = tail.push(LogMsg::Entry { index, entry });
                        }
                        k += 1;
                    }
                    proof {
                        assert(made_of_lines(lines).take(entries.len() as int) =~= made_of_lines(
                            lines,
                        ));
                    }
                },
                LogMsg::Stderr(line) => {
                    let entry = error_entry(line.clone());
                    let index = store.publish(entry);
                    proof {
                        let item = (NormalizedEntryType::ErrorMessage, line@);
                        assert(made + seq![item] =~= made.push(item));
                        made = made.push(item);
                        assert(base + tail.push(LogMsg::Entry { index, entry }) =~= (base
                            + tail).push(LogMsg::Entry { index, entry }));
                        tail = tail.push(LogMsg::Entry { index, entry });
                    }
                },
                LogMsg::Finished => {
                    match self.stdout.finish() {
                        Some(entry) => {
                            let index = store.publish(entry);
                            proof {
                                let item = (
                                    NormalizedEntryType::AssistantMessage,
                                    ansi_stripped(held),
                                );
                                assert(made + seq![item] =~= made.push(item));
                                made = made.push(item);
                                assert(base + tail.push(LogMsg::Entry { index, entry }) =~= (base
                                    + tail).push(LogMsg::Entry { index, entry }));
                                tail = tail.push(LogMsg::Entry { index, entry });
                            }
                        },
                        None => {
                            assert(made + Seq::<(NormalizedEntryType, Seq<char>)>::empty()
                                =~= made);
                        },
                    }
                },
                LogMsg::Entry { index, entry } => {
                    assert(made + Seq::<(NormalizedEntryType, Seq<char>)>::empty() =~= made);
                },
            }
            i += 1;
        }
        proof {
            assert(raw@.take(raw.len() as int) =~= raw@);
            assert((base + tail).skip(base.len() as int) =~= tail);
        }
        store.skip_to_end(&mut self.reader);
    }
}

/// The messages of several stretches of a record, one stretch after the
/// other.
pub open spec fn flattened(chunks: Seq<Seq<LogMsg>>) -> Seq<LogMsg>
    decreases chunks.len(),
{
    if chunks.len() == 0 {
        Seq::empty()
    } else {
        flattened(chunks.drop_last()) + chunks.last()
    }
}

/// The line of standard output in progress after as many steps as there
/// are stretches, each step reading one stretch.
pub open spec fn pending_stepwise(chunks: Seq<Seq<LogMsg>>, pending: Seq<char>) -> Seq<char>
    decreases chunks.len(),
{
    if chunks.len() == 0 {
        pending
    } else {
        pending_at_end(chunks.last(), pending_stepwise(chunks.drop_last(), pending))
    }
}

/// What as many steps as there are stretches publish, each step reading
/// one stretch and going on from the line that the step before left.
pub open spec fn stepwise(chunks: Seq<Seq<LogMsg>>, pending: Seq<char>) -> Seq<
    (NormalizedEntryType, Seq<char>),
>
    decreases chunks.len(),
{
    if chunks.len() == 0 {
        Seq::empty()
    } else {
        stepwise(chunks.drop_last(), pending) + normalized(
            chunks.last(),
            pending_stepwise(chunks.drop_last(), pending),
        )
    }
}

/// Two stretches read one after the other give what the two read as one
/// give: the same entries in the same order, and the same line left in
/// progress.
pub proof fn law_two_steps_are_one(first: Seq<LogMsg>, second: Seq<LogMsg>, pending: Seq<char>)
    ensures
        normalized(first + second, pending) == normalized(first, pending) + normalized(
            second,
            pending_at_end(first, pending),
        ),
        pending_at_end(first + second, pending) == pending_at_end(
            second,
            pending_at_end(first, pending),
        ),
    decreases second.len(),
{
    let after = pending_at_end(first, pending);
    if second.len() == 0 {
        assert(first + second =~= first);
        assert(normalized(first, pending) + normalized(second, after) =~= normalized(
            first,
            pending,
        ));
    } else {
        law_two_steps_are_one(first, second.drop_last(), pending);
        assert((first + second).drop_last() =~= first + second.drop_last());
        assert((first + second).last() == second.last());
        assert(normalized(first + second, pending) =~= normalized(first, pending) + normalized(
            second,
            after,
        ));
    }
}

/// However the raw output is cut into stretches, and however many steps
/// read it, the entries published are those of the whole: the backlog that
/// the first step found and what each later step found, in their order,
/// nothing lost and nothing made twice.
pub proof fn law_any_number_of_steps(chunks: Seq<Seq<LogMsg>>, pending: Seq<char>)
    ensures
        stepwise(chunks, pending) == normalized(flattened(chunks), pending),
        pending_stepwise(chunks, pending) == pending_at_end(flattened(chunks), pending),
    decreases chunks.len(),
{
    if chunks.len() > 0 {
        law_any_number_of_steps(chunks.drop_last(), pending);
        law_two_steps_are_one(flattened(chunks.drop_last()), chunks.last(), pending);
    }
}

/// Entries that stand in a record among the raw output give rise to
/// nothing: a pipeline that reads what it or another pipeline published
/// makes no entry of it and keeps its line in progress.
pub proof fn law_entries_make_nothing(msgs: Seq<LogMsg>, pending: Seq<char>)
    requires
        forall|i: int| 0 <= i < msgs.len() ==> #[trigger] msgs[i] is Entry,
    ensures
        normalized(msgs, pending) == Seq::<(NormalizedEntryType, Seq<char>)>::empty(),
        pending_at_end(msgs, pending) == pending,
    decreases msgs.len(),
{
    if msgs.len() > 0 {
        law_entries_make_nothing(msgs.drop_last(), pending);
        assert(msgs.last() == msgs[msgs.len() - 1]);
        assert(normalized(msgs, pending) =~= Seq::<(NormalizedEntryType, Seq<char>)>::empty());
    }
}

/// What a pipeline published into the record between two stretches of raw
/// output changes nothing of what the raw output gives rise to.
pub proof fn law_published_entries_change_nothing(
    first: Seq<LogMsg>,
    entries: Seq<LogMsg>,
    second: Seq<LogMsg>,
    pending: Seq<char>,
)
    requires
        forall|i: int| 0 <= i < entries.len() ==> #[trigger] entries[i] is Entry,
    ensures
        normalized(first + entries + second, pending) == normalized(first + second, pending),
        pending_at_end(first + entries + second, pending) == pending_at_end(
            first + second,
            pending,
        ),
{
    let after = pending_at_end(first, pending);
    law_two_steps_are_one(first, entries, pending);
    law_entries_make_nothing(entries, after);
    law_two_steps_are_one(first + entries, second, pending);
    law_two_steps_are_one(first, second, pending);
    assert(normalized(first, pending) + Seq::<(NormalizedEntryType, Seq<char>)>::empty()
        =~= normalized(first, pending));
}

/// The messages are pieces of standard output, one for each line: the line
/// with its line feed behind it.
pub open spec fn line_by_line(msgs: Seq<LogMsg>, lines: Seq<Seq<char>>) -> bool {
    &&& msgs.len() == lines.len()
    &&& forall|i: int|
        0 <= i < lines.len() ==> match #[trigger] msgs[i] {
            LogMsg::Stdout(chunk) => chunk@ == lines[i].push('\n'),
            _ => false,
        }
    &&& forall|i: int| 0 <= i < lines.len() ==> no_line_feed(#[trigger] lines[i])
}

/// Standard output that arrives line by line gives one assistant entry for
/// each line, in the order of the lines, with the line's escape sequences
/// taken out; no line is left in progress.
pub proof fn law_one_entry_per_line(msgs: Seq<LogMsg>, lines: Seq<Seq<char>>)
    requires
        line_by_line(msgs, lines),
    ensures
        normalized(msgs, Seq::empty()) == made_of_lines(lines),
        pending_at_end(msgs, Seq::empty()) == Seq::<char>::empty(),
    decreases msgs.len(),
{
    let nothing = Seq::<char>::empty();
    if msgs.len() == 0 {
        assert(made_of_lines(lines) =~= normalized(msgs, nothing));
    } else {
        let last = lines.len() - 1;
        assert(line_by_line(msgs.drop_last(), lines.drop_last())) by {
            assert forall|i: int| 0 <= i < lines.drop_last().len() implies match #[trigger] msgs.drop_last()[i] {
                LogMsg::Stdout(chunk) => chunk@ == lines.drop_last()[i].push('\n'),
                _ => false,
            } by {
                assert(msgs.drop_last()[i] == msgs[i]);
                assert(lines.drop_last()[i] == lines[i]);
            }
            assert forall|i: int| 0 <= i < lines.drop_last().len() implies no_line_feed(
                #[trigger] lines.drop_last()[i],
            ) by {
                assert(lines.drop_last()[i] == lines[i]);
            }
        }
        law_one_entry_per_line(msgs.drop_last(), lines.drop_last());
        assert(msgs.last() == msgs[last]);
        lemma_single_line(lines[last]);
        match msgs.last() {
            LogMsg::Stdout(chunk) => {
                assert(nothing + chunk@ =~= lines[last].push('\n'));
                assert(made_of_lines(seq![lines[last]]) =~= seq![
                    (NormalizedEntryType::AssistantMessage, ansi_stripped(lines[last])),
                ]);
                assert(made_of_lines(lines.drop_last()) + made_of_lines(seq![lines[last]])
                    =~= made_of_lines(lines));
            },
            _ => {},
        }
    }
}

impl RalphExecutor {
    /// Starts the pipeline for a record: what the record holds of raw
    /// output is made into entries at once, and the pipeline that comes
    /// back takes up what is published later, step by step. Standard error
    /// becomes error entries as it is; standard output becomes assistant
    /// entries, line by line, without its escape sequences.
    pub fn normalize_logs(&self, store: &mut MsgStore) -> (r: LogNormalizer)
        ensures
            old(store)@.is_prefix_of(final(store)@),
            published(
                final(store)@.skip(old(store)@.len() as int),
                old(store).entry_count(),
                normalized(old(store)@, Seq::empty()),
            ),
            r.pending() == pending_at_end(old(store)@, Seq::empty()),
            r.seen() == final(store)@.len(),
            counts_up(entry_indices(final(store)@)),
    {
        let mut pipeline = LogNormalizer::new(store);
        assert(unseen(store@, 0) =~= store@);
        pipeline.step(store);
        pipeline
    }
}

} // verus!
