//! Character and string primitives shared by the rest of the crate.

use vstd::prelude::*;
use vstd::string::StringExecFns;

verus! {

/// `String::push` appends exactly one character at the end.
pub assume_specification[ String::push ](s: &mut String, ch: char)
    ensures
        final(s)@ == old(s)@.push(ch),
;

/// The code points with the Unicode `White_Space` property.
pub open spec fn is_space(c: char) -> bool {
    let n = c as u32;
    ||| 0x09 <= n <= 0x0D
    ||| n == 0x20
    ||| n == 0x85
    ||| n == 0xA0
    ||| n == 0x1680
    ||| 0x2000 <= n <= 0x200A
    ||| n == 0x2028
    ||| n == 0x2029
    ||| n == 0x202F
    ||| n == 0x205F
    ||| n == 0x3000
}

/// A text is blank when it holds nothing but white space.
pub open spec fn blank(s: Seq<char>) -> bool {
    forall|i: int| 0 <= i < s.len() ==> is_space(#[trigger] s[i])
}

pub fn is_space_char(c: char) -> (r: bool)
    ensures
        r == is_space(c),
{
    let n: u32 = c as u32;
    (0x09 <= n && n <= 0x0D) || n == 0x20 || n == 0x85 || n == 0xA0 || n == 0x1680 || (0x2000 <= n
        && n <= 0x200A) || n == 0x2028 || n == 0x2029 || n == 0x202F || n == 0x205F || n == 0x3000
}

pub fn is_blank(s: &str) -> (r: bool)
    ensures
        r == blank(s@),
{
    let n: usize = s.unicode_len();
    let mut i: usize = 0;
    while i < n
        invariant
            n == s@.len(),
            i <= n,
            forall|j: int| 0 <= j < i ==> is_space(#[trigger] s@[j]),
        decreases n - i,
    {
        if !is_space_char(s.get_char(i)) {
            return false;
        }
        i += 1;
    }
    true
}

/// The characters of a text, one by one.
pub fn chars_of(s: &str) -> (r: Vec<char>)
    ensures
        r@ == s@,
{
    let mut out: Vec<char> = Vec::new();
    for c in it: s.chars()
        invariant
            it.seq() == s@,
            out@ == it.seq().take(it.index()),
    {
        out.push(c);
    }
    assert(out@ =~= s@);
    out
}

/// `base` with `part` put behind it: a separator is put between the two
/// unless `base` is empty or ends in one, and a `part` that starts at the
/// root stands alone.
pub open spec fn spec_join_path(base: Seq<char>, part: Seq<char>) -> Seq<char> {
    if part.len() > 0 && part[0] == '/' {
        part
    } else if base.len() == 0 || base.last() == '/' {
        base + part
    } else {
        base + seq!['/'] + part
    }
}

/// Puts one path component behind a path.
pub fn join_path(base: &str, part: &str) -> (r: String)
    ensures
        r@ == spec_join_path(base@, part@),
{
    let base_len: usize = base.unicode_len();
    if part.unicode_len() > 0 && part.get_char(0) == '/' {
        return part.to_owned();
    }
    let mut out = base.to_owned();
    if base_len > 0 && base.get_char(base_len - 1) != '/' {
        out.push('/');
    }
    out.append(part);
    assert(out@ =~= spec_join_path(base@, part@));
    out
}

/// `head` with `tail` behind it.
pub fn prefixed(head: &str, tail: &str) -> (r: String)
    ensures
        r@ == head@ + tail@,
{
    let mut out = head.to_owned();
    out.append(tail);
    out
}

/// `r` is `s` without the white space at its two ends.
pub open spec fn is_trim_of(r: Seq<char>, s: Seq<char>) -> bool {
    exists|a: int, b: int|
        {
            &&& 0 <= a <= b <= s.len()
            &&& #[trigger] s.subrange(a, b) == r
            &&& forall|j: int| 0 <= j < a ==> is_space(#[trigger] s[j])
            &&& forall|j: int| b <= j < s.len() ==> is_space(#[trigger] s[j])
            &&& a < b ==> !is_space(s[a]) && !is_space(s[b - 1])
        }
}

/// The first position from `i` on that holds no white space; the length
/// where there is none.
pub open spec fn first_kept(s: Seq<char>, i: int) -> int
    decreases s.len() - i,
{
    if i >= s.len() {
        s.len() as int
    } else if !is_space(s[i]) {
        i
    } else {
        first_kept(s, i + 1)
    }
}

/// The end of what is kept of `s` between `from` and `to`: behind the last
/// position before `to` that holds no white space; `from` where there is
/// none.
pub open spec fn last_kept(s: Seq<char>, from: int, to: int) -> int
    decreases to - from,
{
    if to <= from {
        from
    } else if !is_space(s[to - 1]) {
        to
    } else {
        last_kept(s, from, to - 1)
    }
}

/// A text without the white space at its two ends.
pub open spec fn spec_trim(s: Seq<char>) -> Seq<char> {
    let from = first_kept(s, 0);
    s.subrange(from, last_kept(s, from, s.len() as int))
}

/// Takes the white space off the two ends of a text.
pub fn trim(s: &str) -> (r: &str)
    ensures
        r@ == spec_trim(s@),
        is_trim_of(r@, s@),
        blank(s@) ==> r@.len() == 0,
{
    let n: usize = s.unicode_len();
    let mut a: usize = 0;
    while a < n && is_space_char(s.get_char(a))
        invariant
            n == s@.len(),
            a <= n,
            forall|j: int| 0 <= j < a ==> is_space(#[trigger] s@[j]),
            first_kept(s@, a as int) == first_kept(s@, 0),
        decreases n - a,
    {
        a += 1;
    }
    let mut b: usize = n;
    while b > a && is_space_char(s.get_char(b - 1))
        invariant
            n == s@.len(),
            a <= b <= n,
            forall|j: int| b <= j < n ==> is_space(#[trigger] s@[j]),
            last_kept(s@, a as int, b as int) == last_kept(s@, a as int, n as int),
        decreases b - a,
    {
        b -= 1;
    }
    let r = s.substring_char(a, b);
    assert(is_trim_of(r@, s@)) by {
        assert(s@.subrange(a as int, b as int) == r@);
    }
    r
}

/// `needle` stands in `s` at position `i`.
pub open spec fn occurs_at(s: Seq<char>, needle: Seq<char>, i: int) -> bool {
    &&& 0 <= i
    &&& i + needle.len() <= s.len()
    &&& s.subrange(i, i + needle.len()) == needle
}

/// `needle` stands somewhere in `s`.
pub open spec fn spec_contains(s: Seq<char>, needle: Seq<char>) -> bool {
    exists|i: int| occurs_at(s, needle, i)
}

/// The first of the lines that holds `needle`.
pub open spec fn first_holding(lines: Seq<Seq<char>>, needle: Seq<char>) -> Option<Seq<char>>
    decreases lines.len(),
{
    if lines.len() == 0 {
        None
    } else if spec_contains(lines[0], needle) {
        Some(lines[0])
    } else {
        first_holding(lines.drop_first(), needle)
    }
}

/// Whether one text stands somewhere in another.
pub fn contains(s: &str, needle: &str) -> (r: bool)
    ensures
        r == spec_contains(s@, needle@),
{
    let hay = chars_of(s);
    let pat = chars_of(needle);
    if pat.len() > hay.len() {
        assert(forall|i: int| !occurs_at(s@, needle@, i));
        return false;
    }
    let last: usize = hay.len() - pat.len();
    let mut i: usize = 0;
    while i <= last
        invariant
            hay@ == s@,
            pat@ == needle@,
            last + pat.len() == hay.len(),
            i <= last + 1,
            forall|k: int| 0 <= k < i ==> !occurs_at(s@, needle@, k),
        decreases last + 1 - i,
    {
        let mut j: usize = 0;
        while j < pat.len() && hay[i + j] == pat[j]
            invariant
                hay@ == s@,
                pat@ == needle@,
                i + pat.len() <= hay.len(),
                j <= pat.len(),
                forall|k: int| 0 <= k < j ==> hay@[i + k] == pat@[k],
            decreases pat.len() - j,
        {
            j += 1;
        }
        if j == pat.len() {
            assert(s@.subrange(i as int, i + needle@.len()) =~= needle@);
            assert(occurs_at(s@, needle@, i as int));
            return true;
        }
        assert(!occurs_at(s@, needle@, i as int)) by {
            if occurs_at(s@, needle@, i as int) {
                assert(s@.subrange(i as int, i + needle@.len())[j as int] == needle@[j as int]);
            }
        }
        i += 1;
    }
    assert(forall|k: int| !occurs_at(s@, needle@, k));
    false
}

/// The first line of a text that holds `needle`.
pub fn line_holding(text: &str, needle: &str) -> (r: Option<String>)
    ensures
        opt_text(r) == first_holding(lines_of(text@), needle@),
{
    let found = lines(text);
    let mut i: usize = 0;
    assert(texts(found@).skip(0) =~= texts(found@));
    while i < found.len()
        invariant
            i <= found.len(),
            texts(found@) == lines_of(text@),
            first_holding(texts(found@).skip(i as int), needle@) == first_holding(
                lines_of(text@),
                needle@,
            ),
        decreases found.len() - i,
    {
        let ghost rest = texts(found@).skip(i as int);
        assert(rest[0] == found@[i as int]@);
        assert(rest.drop_first() =~= texts(found@).skip(i + 1));
        if contains(found[i].as_str(), needle) {
            return Some(found[i].clone());
        }
        i += 1;
    }
    None
}

/// The character of a digit below sixteen, letters in lower case.
pub open spec fn spec_digit(d: nat) -> char {
    if d == 0 {
        '0'
    } else if d == 1 {
        '1'
    } else if d == 2 {
        '2'
    } else if d == 3 {
        '3'
    } else if d == 4 {
        '4'
    } else if d == 5 {
        '5'
    } else if d == 6 {
        '6'
    } else if d == 7 {
        '7'
    } else if d == 8 {
        '8'
    } else if d == 9 {
        '9'
    } else if d == 10 {
        'a'
    } else if d == 11 {
        'b'
    } else if d == 12 {
        'c'
    } else if d == 13 {
        'd'
    } else if d == 14 {
        'e'
    } else {
        'f'
    }
}

/// A number in decimal notation, without leading zeros.
pub open spec fn spec_decimal(n: nat) -> Seq<char>
    decreases n,
{
    if n < 10 {
        seq![spec_digit(n)]
    } else {
        spec_decimal(n / 10).push(spec_digit(n % 10))
    }
}

/// The last `width` hexadecimal digits of a number, zeros in front.
pub open spec fn spec_hex(n: nat, width: nat) -> Seq<char>
    decreases width,
{
    if width == 0 {
        Seq::empty()
    } else {
        spec_hex(n / 16, (width - 1) as nat).push(spec_digit(n % 16))
    }
}

fn digit(d: u64) -> (r: char)
    requires
        d < 16,
    ensures
        r == spec_digit(d as nat),
{
    if d == 0 {
        '0'
    } else if d == 1 {
        '1'
    } else if d == 2 {
        '2'
    } else if d == 3 {
        '3'
    } else if d == 4 {
        '4'
    } else if d == 5 {
        '5'
    } else if d == 6 {
        '6'
    } else if d == 7 {
        '7'
    } else if d == 8 {
        '8'
    } else if d == 9 {
        '9'
    } else if d == 10 {
        'a'
    } else if d == 11 {
        'b'
    } else if d == 12 {
        'c'
    } else if d == 13 {
        'd'
    } else if d == 14 {
        'e'
    } else {
        'f'
    }
}

/// Writes a number in decimal notation.
pub fn decimal(n: u64) -> (r: String)
    ensures
        r@ == spec_decimal(n as nat),
    decreases n,
{
    if n < 10 {
        let mut out = String::new();
        out.push(digit(n));
        assert(out@ =~= seq![spec_digit(n as nat)]);
        out
    } else {
        let mut out = decimal(n / 10);
        out.push(digit(n % 10));
        out
    }
}

/// Writes the last `width` hexadecimal digits of a number.
pub fn hex(n: u64, width: usize) -> (r: String)
    ensures
        r@ == spec_hex(n as nat, width as nat),
        r@.len() == width,
    decreases width,
{
    if width == 0 {
        String::new()
    } else {
        let mut out = hex(n / 16, width - 1);
        out.push(digit(n % 16));
        out
    }
}

/// The view of a text that may be absent.
pub open spec fn opt_text(o: Option<String>) -> Option<Seq<char>> {
    match o {
        Some(s) => Some(s@),
        None => None,
    }
}

/// A copy of a text that may be absent.
pub fn clone_opt_text(o: &Option<String>) -> (r: Option<String>)
    ensures
        r == *o,
        opt_text(r) == opt_text(*o),
{
    match o {
        Some(s) => Some(s.clone()),
        None => None,
    }
}

/// The views of a list of texts.
pub open spec fn texts(v: Seq<String>) -> Seq<Seq<char>> {
    Seq::new(v.len(), |i: int| v[i]@)
}

/// A line without the carriage return that may precede its line feed.
pub open spec fn without_cr(line: Seq<char>) -> Seq<char> {
    if line.len() > 0 && line.last() == '\r' {
        line.drop_last()
    } else {
        line
    }
}

/// The lines of `s` from position `i` on, where the line in progress began
/// at `start`. A line ends at a line feed, which is dropped together with
/// one carriage return before it; what follows the last line feed is a line
/// of its own unless it is empty.
pub open spec fn lines_from(s: Seq<char>, i: int, start: int) -> Seq<Seq<char>>
    decreases s.len() - i,
{
    if i >= s.len() {
        if start < s.len() {
            seq![s.subrange(start, s.len() as int)]
        } else {
            Seq::empty()
        }
    } else if s[i] == '\n' {
        seq![without_cr(s.subrange(start, i))] + lines_from(s, i + 1, i + 1)
    } else {
        lines_from(s, i + 1, start)
    }
}

/// The lines of a text.
pub open spec fn lines_of(s: Seq<char>) -> Seq<Seq<char>> {
    lines_from(s, 0, 0)
}

/// The lines put together again, with one line feed between neighbours.
pub open spec fn joined(lines: Seq<Seq<char>>) -> Seq<char>
    decreases lines.len(),
{
    if lines.len() == 0 {
        Seq::empty()
    } else if lines.len() == 1 {
        lines[0]
    } else {
        joined(lines.drop_last()) + seq!['\n'] + lines.last()
    }
}

/// The text holds no line feed.
pub open spec fn no_line_feed(line: Seq<char>) -> bool {
    forall|j: int| 0 <= j < line.len() ==> line[j] != '\n'
}

/// How many line feeds a text holds from position `i` on.
pub open spec fn feeds_from(s: Seq<char>, i: int) -> nat
    decreases s.len() - i,
{
    if i >= s.len() {
        0
    } else if s[i] == '\n' {
        1 + feeds_from(s, i + 1)
    } else {
        feeds_from(s, i + 1)
    }
}

/// A text has at most one line more than it has line feeds.
pub proof fn lemma_lines_bounded(s: Seq<char>, i: int, start: int)
    requires
        0 <= i,
    ensures
        lines_from(s, i, start).len() <= feeds_from(s, i) + 1,
    decreases s.len() - i,
{
    if i < s.len() {
        lemma_lines_bounded(s, i + 1, i + 1);
        lemma_lines_bounded(s, i + 1, start);
    }
}

/// No line of a text holds a line feed.
pub proof fn lemma_lines_hold_no_feed(s: Seq<char>, i: int, start: int)
    requires
        0 <= start <= i <= s.len(),
        forall|j: int| start <= j < i ==> s[j] != '\n',
    ensures
        forall|k: int|
            0 <= k < lines_from(s, i, start).len() ==> no_line_feed(
                #[trigger] lines_from(s, i, start)[k],
            ),
    decreases s.len() - i,
{
    if i >= s.len() {
        if start < s.len() {
            let rest = s.subrange(start, s.len() as int);
            assert(no_line_feed(rest));
            assert(lines_from(s, i, start) =~= seq![rest]);
            assert(lines_from(s, i, start)[0] == rest);
        }
    } else if s[i] == '\n' {
        lemma_lines_hold_no_feed(s, i + 1, i + 1);
        let first = without_cr(s.subrange(start, i));
        assert(no_line_feed(s.subrange(start, i)));
        assert(no_line_feed(first));
        assert forall|k: int| 0 <= k < lines_from(s, i, start).len() implies no_line_feed(
            #[trigger] lines_from(s, i, start)[k],
        ) by {
            if k > 0 {
                assert(lines_from(s, i, start)[k] == lines_from(s, i + 1, i + 1)[k - 1]);
            } else {
                assert(lines_from(s, i, start)[0] == first);
            }
        }
    } else {
        lemma_lines_hold_no_feed(s, i + 1, start);
        assert(lines_from(s, i, start) == lines_from(s, i + 1, start));
        assert forall|k: int| 0 <= k < lines_from(s, i, start).len() implies no_line_feed(
            #[trigger] lines_from(s, i, start)[k],
        ) by {
            assert(lines_from(s, i, start)[k] == lines_from(s, i + 1, start)[k]);
        }
    }
}

/// What stands before a stretch of a text adds nothing to the line feeds
/// counted in the stretch.
proof fn lemma_feeds_shift(a: Seq<char>, b: Seq<char>, j: int)
    requires
        0 <= j <= b.len(),
    ensures
        feeds_from(a + b, a.len() + j) == feeds_from(b, j),
    decreases b.len() - j,
{
    if j < b.len() {
        lemma_feeds_shift(a, b, j + 1);
        assert((a + b)[a.len() + j] == b[j]);
    }
}

/// The line feeds of two texts put together are those of the one and
/// those of the other.
pub proof fn lemma_feeds_of_both(a: Seq<char>, b: Seq<char>, i: int)
    requires
        0 <= i <= a.len(),
    ensures
        feeds_from(a + b, i) == feeds_from(a, i) + feeds_from(b, 0),
    decreases a.len() - i,
{
    if i < a.len() {
        lemma_feeds_of_both(a, b, i + 1);
        assert((a + b)[i] == a[i]);
    } else {
        lemma_feeds_shift(a, b, 0);
    }
}

proof fn lemma_no_feeds(line: Seq<char>, i: int)
    requires
        0 <= i,
        no_line_feed(line),
    ensures
        feeds_from(line, i) == 0,
    decreases line.len() - i,
{
    if i < line.len() {
        lemma_no_feeds(line, i + 1);
    }
}

/// Lines without line feeds, joined, hold one line feed fewer than there
/// are lines.
pub proof fn lemma_feeds_of_joined(lines: Seq<Seq<char>>)
    requires
        lines.len() > 0,
        forall|k: int| 0 <= k < lines.len() ==> no_line_feed(#[trigger] lines[k]),
    ensures
        feeds_from(joined(lines), 0) == lines.len() - 1,
    decreases lines.len(),
{
    if lines.len() == 1 {
        lemma_no_feeds(lines[0], 0);
    } else {
        let before = lines.drop_last();
        assert forall|k: int| 0 <= k < before.len() implies no_line_feed(#[trigger] before[k]) by {
            assert(before[k] == lines[k]);
        }
        lemma_feeds_of_joined(before);
        let head = joined(before) + seq!['\n'];
        lemma_feeds_of_both(joined(before), seq!['\n'], 0);
        assert(feeds_from(seq!['\n'], 0) == 1) by {
            assert(feeds_from(seq!['\n'], 1) == 0);
        }
        lemma_feeds_of_both(head, lines.last(), 0);
        lemma_no_feeds(lines.last(), 0);
    }
}

/// Joining lines and splitting the text again gives no more lines than
/// were joined.
pub proof fn law_joined_lines_bounded(lines: Seq<Seq<char>>)
    requires
        forall|k: int| 0 <= k < lines.len() ==> no_line_feed(#[trigger] lines[k]),
    ensures
        lines_of(joined(lines)).len() <= lines.len(),
{
    if lines.len() > 0 {
        lemma_feeds_of_joined(lines);
        lemma_lines_bounded(joined(lines), 0, 0);
    }
}

proof fn lemma_texts_push(v: Seq<String>, line: String)
    ensures
        texts(v.push(line)) == texts(v).push(line@),
{
    assert(texts(v.push(line)) =~= texts(v).push(line@));
}

/// Splits a text into its lines.
pub fn lines(s: &str) -> (r: Vec<String>)
    ensures
        texts(r@) == lines_of(s@),
{
    let chars = chars_of(s);
    let n: usize = chars.len();
    let mut out: Vec<String> = Vec::new();
    let mut line = String::new();
    let mut held_cr = false;
    let mut i: usize = 0;
    let ghost mut start: int = 0;
    assert(texts(out@) =~= Seq::<Seq<char>>::empty());
    while i < n
        invariant
            chars@ == s@,
            n == chars@.len(),
            0 <= start <= i <= n,
            texts(out@) + lines_from(s@, i as int, start) == lines_of(s@),
            held_cr ==> start < i && s@[i - 1] == '\r' && line@ == s@.subrange(start, i - 1),
            !held_cr ==> line@ == s@.subrange(start, i as int),
            !held_cr && start < i ==> s@[i - 1] != '\r',
        decreases n - i,
    {
        let c = chars[i];
        if c == '\n' {
            proof {
                let whole = s@.subrange(start, i as int);
                if held_cr {
                    assert(whole.last() == '\r');
                    assert(whole.drop_last() =~= line@);
                } else {
                    assert(whole =~= line@);
                    if whole.len() > 0 {
                        assert(whole.last() == s@[i - 1]);
                    }
                }
                assert(without_cr(whole) == line@);
                lemma_texts_push(out@, line);
                assert(texts(out@.push(line)) + lines_from(s@, i + 1, i + 1) =~= texts(out@)
                    + lines_from(s@, i as int, start));
            }
            out.push(line);
            line = String::new();
            held_cr = false;
            proof {
                start = i + 1;
                assert(line@ =~= s@.subrange(start, i + 1));
            }
        } else {
            if held_cr {
                line.push('\r');
                assert(line@ =~= s@.subrange(start, i as int));
            }
            if c == '\r' {
                held_cr = true;
            } else {
                held_cr = false;
                line.push(c);
                assert(line@ =~= s@.subrange(start, i + 1));
            }
        }
        i += 1;
    }
    if held_cr {
        line.push('\r');
    }
    assert(line@ =~= s@.subrange(start, n as int));
    if line.as_str().unicode_len() > 0 {
        proof {
            lemma_texts_push(out@, line);
        }
        out.push(line);
    }
    assert(texts(out@) =~= lines_of(s@));
    out
}

/// Joins lines with one line feed between neighbours.
pub fn join_lines(lines: &Vec<String>) -> (r: String)
    ensures
        r@ == joined(texts(lines@)),
{
    let mut out = String::new();
    let mut i: usize = 0;
    while i < lines.len()
        invariant
            i <= lines.len(),
            out@ == joined(texts(lines@).take(i as int)),
        decreases lines.len() - i,
    {
        if i > 0 {
            out.push('\n');
        }
        out.append(lines[i].as_str());
        proof {
            let next = texts(lines@).take(i + 1);
            assert(next.drop_last() =~= texts(lines@).take(i as int));
            assert(next.last() == lines@[i as int]@);
            if i > 0 {
                assert(out@ =~= joined(next));
            } else {
                assert(joined(texts(lines@).take(0)) =~= Seq::<char>::empty());
                assert(out@ =~= joined(next));
            }
        }
        i += 1;
    }
    assert(texts(lines@).take(lines.len() as int) =~= texts(lines@));
    out
}

} // verus!
