//! Structured log entries and the processors that make them from raw
//! output: standard error line by line as it is, standard output line by
//! line with terminal escape sequences taken out.

use vstd::prelude::*;
use vstd::string::StringExecFns;
use crate::text::{chars_of, clone_opt_text, no_line_feed};

verus! {

/// What kind of message an entry holds.
#[derive(Clone, Copy, Debug, PartialEq, Eq, Structural)]
pub enum NormalizedEntryType {
    AssistantMessage,
    ErrorMessage,
}

/// One structured unit of agent output.
#[derive(Clone, Debug, PartialEq, Eq)]
pub struct NormalizedEntry {
    pub timestamp: Option<String>,
    pub entry_type: NormalizedEntryType,
    pub content: String,
    pub metadata: Option<String>,
}

/// What `strip_ansi_escapes::strip_str` makes of a text: the text without
/// its terminal escape sequences and control characters, line feeds kept.
pub uninterp spec fn ansi_stripped(text: Seq<char>) -> Seq<char>;

/// `strip_ansi_escapes::strip_str`: runs the text through a terminal parser
/// and keeps what the parser prints, and the line feeds. The result depends
/// on the text alone.
#[verifier::external_body]
fn strip_ansi(text: &str) -> (r: String)
    ensures
        r@ == ansi_stripped(text@),
{
    strip_ansi_escapes::strip_str(text)
}

impl NormalizedEntry {
    /// Whether the entry is a bare message of the given kind and content.
    pub open spec fn is_message(self, entry_type: NormalizedEntryType, content: Seq<char>) -> bool {
        &&& self.timestamp is None
        &&& self.entry_type == entry_type
        &&& self.content@ == content
        &&& self.metadata is None
    }

    /// A copy of the entry.
    pub fn duplicate(&self) -> (r: NormalizedEntry)
        ensures
            r == *self,
    {
        NormalizedEntry {
            timestamp: clone_opt_text(&self.timestamp),
            entry_type: self.entry_type,
            content: self.content.clone(),
            metadata: clone_opt_text(&self.metadata),
        }
    }
}

/// The entry for a line of standard output whose escape sequences were
/// taken out already: an assistant message with that content.
pub fn assistant_entry(content: String) -> (r: NormalizedEntry)
    ensures
        r.is_message(NormalizedEntryType::AssistantMessage, content@),
        r.content == content,
{
    NormalizedEntry {
        timestamp: None,
        entry_type: NormalizedEntryType::AssistantMessage,
        content,
        metadata: None,
    }
}

/// The entry for a line of standard error: an error message with the line
/// as it is.
pub fn error_entry(line: String) -> (r: NormalizedEntry)
    ensures
        r.is_message(NormalizedEntryType::ErrorMessage, line@),
        r.content == line,
{
    NormalizedEntry {
        timestamp: None,
        entry_type: NormalizedEntryType::ErrorMessage,
        content: line,
        metadata: None,
    }
}

/// The entry for a line of standard output: an assistant message with the
/// line's escape sequences taken out.
pub fn stdout_entry(line: &str) -> (r: NormalizedEntry)
    ensures
        r.is_message(NormalizedEntryType::AssistantMessage, ansi_stripped(line@)),
{
    assistant_entry(strip_ansi(line))
}

/// The lines of `s` that a line feed ends, from position `i` on, where the
/// line in progress began at `start`. The line feeds are dropped.
pub open spec fn ended_lines(s: Seq<char>, i: int, start: int) -> Seq<Seq<char>>
    decreases s.len() - i,
{
    if i >= s.len() {
        Seq::empty()
    } else if s[i] == '\n' {
        seq![s.subrange(start, i)] + ended_lines(s, i + 1, i + 1)
    } else {
        ended_lines(s, i + 1, start)
    }
}

/// Where the line begins that no line feed has ended yet.
pub open spec fn open_line_start(s: Seq<char>, i: int, start: int) -> int
    decreases s.len() - i,
{
    if i >= s.len() {
        start
    } else if s[i] == '\n' {
        open_line_start(s, i + 1, i + 1)
    } else {
        open_line_start(s, i + 1, start)
    }
}

/// The complete lines of a text.
pub open spec fn complete_lines(s: Seq<char>) -> Seq<Seq<char>> {
    ended_lines(s, 0, 0)
}

/// What follows the last line feed of a text.
pub open spec fn open_line(s: Seq<char>) -> Seq<char> {
    s.subrange(open_line_start(s, 0, 0), s.len() as int)
}

/// The entries are assistant messages, one for each line, each with the
/// line's escape sequences taken out.
pub open spec fn stdout_entries(entries: Seq<NormalizedEntry>, lines: Seq<Seq<char>>) -> bool {
    &&& entries.len() == lines.len()
    &&& forall|i: int|
        0 <= i < lines.len() ==> (#[trigger] entries[i]).is_message(
            NormalizedEntryType::AssistantMessage,
            ansi_stripped(lines[i]),
        )
}

/// Makes entries of standard output that arrives in pieces: a line becomes
/// an entry once its line feed has been seen; what is left when the stream
/// closes is flushed as a last line.
#[derive(Debug, PartialEq, Eq)]
pub struct PlainTextLogProcessor {
    buffer: String,
}

impl PlainTextLogProcessor {
    #[verifier::type_invariant]
    spec fn no_line_feed_pending(self) -> bool {
        forall|j: int| 0 <= j < self.buffer@.len() ==> self.buffer@[j] != '\n'
    }

    /// The line in progress.
    pub closed spec fn pending(self) -> Seq<char> {
        self.buffer@
    }

    pub fn new() -> (r: Self)
        ensures
            r.pending() == Seq::<char>::empty(),
    {
        PlainTextLogProcessor { buffer: String::new() }
    }

    /// Takes a piece of output. The lines that it completes come back as
    /// entries, in their order; the rest waits for its line feed.
    pub fn process(&mut self, chunk: &str) -> (r: Vec<NormalizedEntry>)
        ensures
            stdout_entries(r@, complete_lines(old(self).pending() + chunk@)),
            final(self).pending() == open_line(old(self).pending() + chunk@),
    {
        let ghost whole = self.buffer@ + chunk@;
        let ghost held = self.buffer@.len() as int;
        let chars = chars_of(chunk);
        let n: usize = chars.len();
        let mut out: Vec<NormalizedEntry> = Vec::new();
        let mut line = String::new();
        line.append(self.buffer.as_str());
        let mut i: usize = 0;
        let ghost mut start: int = 0;
        let ghost mut done: Seq<Seq<char>> = Seq::empty();
        proof {
            use_type_invariant(&*self);
            lemma_no_break_scan(whole, 0, 0, held);
            assert(line@ =~= whole.subrange(0, held));
        }
        while i < n
            invariant
                chars@ == chunk@,
                n == chars@.len(),
                whole == old(self).pending() + chunk@,
                held + n == whole.len(),
                0 <= start <= held + i,
                i <= n,
                line@ == whole.subrange(start, held + i),
                stdout_entries(out@, done),
                done + ended_lines(whole, held + i, start) == complete_lines(whole),
                open_line_start(whole, held + i, start) == open_line_start(whole, 0, 0),
                forall|j: int| start <= j < held + i ==> whole[j] != '\n',
            decreases n - i,
        {
            let c = chars[i];
            assert(whole[held + i] == c);
            if c == '\n' {
                let entry = stdout_entry(line.as_str());
                out.push(entry);
                proof {
                    assert(done.push(line@) + ended_lines(whole, held + i + 1, held + i + 1)
                        =~= done + ended_lines(whole, held + i, start));
                    done = done.push(line@);
                    start = held + i + 1;
                }
                line = String::new();
                assert(line@ =~= whole.subrange(start, held + i + 1));
            } else {
                line.push(c);
                assert(line@ =~= whole.subrange(start, held + i + 1));
            }
            i += 1;
        }
        assert(done =~= complete_lines(whole));
        self.buffer = line;
        out
    }

    /// Closes the stream: what is left of the last line comes back as an
    /// entry, unless nothing is left.
    pub fn finish(&mut self) -> (r: Option<NormalizedEntry>)
        ensures
            final(self).pending() == Seq::<char>::empty(),
            old(self).pending().len() == 0 ==> r is None,
            old(self).pending().len() > 0 ==> r is Some && r->0.is_message(
                NormalizedEntryType::AssistantMessage,
                ansi_stripped(old(self).pending()),
            ),
    {
        if self.buffer.as_str().unicode_len() == 0 {
            assert(self.buffer@ =~= Seq::<char>::empty());
            return None;
        }
        let entry = stdout_entry(self.buffer.as_str());
        self.buffer = String::new();
        Some(entry)
    }
}

/// A stretch without a line feed ends no line and opens none.
pub proof fn lemma_no_break_scan(s: Seq<char>, i: int, start: int, to: int)
    requires
        0 <= i <= to <= s.len(),
        forall|j: int| i <= j < to ==> s[j] != '\n',
    ensures
        ended_lines(s, i, start) == ended_lines(s, to, start),
        open_line_start(s, i, start) == open_line_start(s, to, start),
    decreases to - i,
{
    if i < to {
        lemma_no_break_scan(s, i + 1, start, to);
    }
}

/// A line with its line feed behind it is one complete line and leaves
/// nothing pending.
pub proof fn lemma_single_line(line: Seq<char>)
    requires
        no_line_feed(line),
    ensures
        complete_lines(line.push('\n')) == seq![line],
        open_line(line.push('\n')) == Seq::<char>::empty(),
{
    let s = line.push('\n');
    let n = line.len() as int;
    lemma_no_break_scan(s, 0, 0, n);
    assert(s[n] == '\n');
    assert(s.subrange(0, n) =~= line);
    assert(ended_lines(s, n + 1, n + 1) =~= Seq::<Seq<char>>::empty());
    assert(ended_lines(s, n, 0) =~= seq![line]);
    assert(open_line_start(s, n + 1, n + 1) == n + 1);
    assert(open_line(s) =~= Seq::<char>::empty());
}

} // verus!
