//! Text building for reports: appending strings, characters, fixed-width hexadecimal and
//! decimal numbers, and splitting text into lines.

use std::string::String;

use vstd::prelude::*;
use vstd::string::StringExecFns;

verus! {

// APPENDING
// ================================================================================================

/// Appends `s` to `out`.
pub(crate) fn push_str(out: &mut String, s: &str)
    ensures
        final(out)@ == old(out)@ + s@,
{
    out.append(s);
}

/// Appends `c` to `out`; calls `String::push`, which the documentation describes as appending
/// the given char to the end of the string.
#[verifier::external_body]
pub(crate) fn push_char(out: &mut String, c: char)
    ensures
        final(out)@ == old(out)@.push(c),
{
    out.push(c);
}

/// Appends the characters of `cs` to `out`.
pub fn push_chars(out: &mut String, cs: &Vec<char>)
    ensures
        final(out)@ == old(out)@ + cs@,
{
    let mut i: usize = 0;
    while i < cs.len()
        invariant
            i <= cs@.len(),
            out@ == old(out)@ + cs@.take(i as int),
        decreases cs@.len() - i,
    {
        push_char(out, cs[i]);
        assert(cs@.take(i + 1) =~= cs@.take(i as int).push(cs@[i as int]));
        i += 1;
    }
    assert(cs@.take(cs@.len() as int) =~= cs@);
}

// NUMBERS
// ================================================================================================

/// The lowercase hexadecimal digit of `d < 16`.
pub open spec fn hex_char(d: int) -> char {
    if d < 10 {
        (48 + d) as char
    } else {
        (87 + d) as char
    }
}

/// The 16 lowercase hexadecimal digits of `x`, most significant first.
pub open spec fn hex16(x: u64) -> Seq<char> {
    Seq::new(16, |i: int| hex_char(((x >> ((60 - 4 * i) as u64)) & 15u64) as int))
}

/// The decimal digits of `n`, most significant first, without leading zeros.
pub open spec fn decimal(n: nat) -> Seq<char>
    decreases n,
{
    if n < 10 {
        seq![(48 + n) as char]
    } else {
        decimal(n / 10).push((48 + n % 10) as char)
    }
}

/// Appends the 16 lowercase hexadecimal digits of `x`, most significant first.
pub fn push_hex16(out: &mut String, x: u64)
    ensures
        final(out)@ == old(out)@ + hex16(x),
{
    let mut i: u64 = 0;
    while i < 16
        invariant
            i <= 16,
            out@ == old(out)@ + hex16(x).take(i as int),
        decreases 16 - i,
    {
        let shift: u64 = 60 - 4 * i;
        let y: u64 = x >> shift;
        let d: u64 = y & 15;
        assert(d < 16) by (bit_vector)
            requires
                d == y & 15u64,
        ;
        let b: u8 = if d < 10 {
            48 + d as u8
        } else {
            87 + d as u8
        };
        push_char(out, b as char);
        assert(hex16(x).take(i + 1) =~= hex16(x).take(i as int).push(hex_char(d as int)));
        i += 1;
    }
    assert(hex16(x).take(16) =~= hex16(x));
}

/// Appends the decimal digits of `n`.
pub fn push_decimal(out: &mut String, n: usize)
    ensures
        final(out)@ == old(out)@ + decimal(n as nat),
    decreases n,
{
    if n >= 10 {
        push_decimal(out, n / 10);
    }
    let d: u8 = (n % 10) as u8;
    push_char(out, (48 + d) as char);
    assert(old(out)@ + decimal(n as nat) =~= (if n >= 10 {
        old(out)@ + decimal((n / 10) as nat)
    } else {
        old(out)@
    }).push((48 + n % 10) as char));
}

// LINES
// ================================================================================================

/// Position of the first line feed of `s`, or its length if it has none.
pub open spec fn newline_index(s: Seq<char>) -> nat
    decreases s.len(),
{
    if s.len() == 0 {
        0
    } else if s[0] == '\n' {
        0
    } else {
        1 + newline_index(s.drop_first())
    }
}

/// The first line of `s`, without its line ending (`\n` or `\r\n`).
pub open spec fn first_line(s: Seq<char>) -> Seq<char> {
    let k = newline_index(s);
    if k < s.len() && k > 0 && s[k - 1] == '\r' {
        s.take(k - 1)
    } else {
        s.take(k as int)
    }
}

/// The lines of `s`: split at `\n` or `\r\n`, the final line ending optional.
pub open spec fn text_lines(s: Seq<char>) -> Seq<Seq<char>>
    decreases s.len(),
{
    if s.len() == 0 {
        seq![]
    } else {
        let k = newline_index(s);
        if k < s.len() {
            seq![first_line(s)] + text_lines(s.skip((k + 1) as int))
        } else {
            seq![first_line(s)]
        }
    }
}

proof fn lemma_newline_index_bound(s: Seq<char>)
    ensures
        newline_index(s) <= s.len(),
        newline_index(s) < s.len() ==> s[newline_index(s) as int] == '\n',
        forall|j: int| 0 <= j < newline_index(s) ==> s[j] != '\n',
    decreases s.len(),
{
    if s.len() > 0 && s[0] != '\n' {
        lemma_newline_index_bound(s.drop_first());
        assert forall|j: int| 0 <= j < newline_index(s) implies s[j] != '\n' by {
            if j > 0 {
                assert(s[j] == s.drop_first()[j - 1]);
            }
        }
    }
}

/// In `line + rest`, where `line` has no line feed, the first line feed is in `rest`.
proof fn lemma_newline_index_append(line: Seq<char>, rest: Seq<char>)
    requires
        forall|j: int| 0 <= j < line.len() ==> line[j] != '\n',
    ensures
        newline_index(line + rest) == line.len() + newline_index(rest),
    decreases line.len(),
{
    if line.len() > 0 {
        assert((line + rest).drop_first() =~= line.drop_first() + rest);
        lemma_newline_index_append(line.drop_first(), rest);
    } else {
        assert(line + rest =~= rest);
    }
}

/// `line` without a final `\r`.
pub open spec fn strip_cr(line: Seq<char>) -> Seq<char> {
    if line.len() > 0 && line.last() == '\r' {
        line.drop_last()
    } else {
        line
    }
}

/// The lines of `line + "\n" + rest`, where `line` has no line feed.
proof fn lemma_text_lines_split(line: Seq<char>, rest: Seq<char>)
    requires
        forall|j: int| 0 <= j < line.len() ==> line[j] != '\n',
    ensures
        text_lines(line + seq!['\n'] + rest) == seq![strip_cr(line)] + text_lines(rest),
{
    let s = line + seq!['\n'] + rest;
    assert(s =~= line + (seq!['\n'] + rest));
    lemma_newline_index_append(line, seq!['\n'] + rest);
    assert(newline_index(seq!['\n'] + rest) == 0);
    assert(newline_index(s) == line.len());
    assert(s.skip((line.len() + 1) as int) =~= rest);
    assert(s.take(line.len() as int) =~= line);
    if line.len() > 0 {
        assert(s[line.len() - 1] == line.last());
        assert(s.take(line.len() - 1) =~= line.drop_last());
    }
    assert(first_line(s) == strip_cr(line));
}

/// The lines of a text without line feed.
proof fn lemma_text_lines_last(line: Seq<char>)
    requires
        forall|j: int| 0 <= j < line.len() ==> line[j] != '\n',
    ensures
        text_lines(line) == (if line.len() == 0 {
            Seq::<Seq<char>>::empty()
        } else {
            seq![line]
        }),
{
    lemma_newline_index_append(line, Seq::<char>::empty());
    assert(line + Seq::<char>::empty() =~= line);
    assert(line.take(line.len() as int) =~= line);
}

/// The views of lines held as character vectors.
pub open spec fn char_lines(v: Seq<Vec<char>>) -> Seq<Seq<char>> {
    v.map_values(|l: Vec<char>| l@)
}

/// Splits `s` into its lines, as `str::lines` does: at `\n` or `\r\n`, the final line ending
/// optional.
pub fn lines_of(s: &str) -> (r: Vec<Vec<char>>)
    ensures
        char_lines(r@) == text_lines(s@),
{
    let mut lines: Vec<Vec<char>> = Vec::new();
    let mut cur: Vec<char> = Vec::new();
    assert(cur@ + s@.skip(0) =~= s@);
    assert(char_lines(lines@) + text_lines(s@) =~= text_lines(s@));
    for c in iter: s.chars()
        invariant
            iter.seq() == s@,
            forall|j: int| 0 <= j < cur@.len() ==> cur@[j] != '\n',
            text_lines(s@) == char_lines(lines@) + text_lines(cur@ + s@.skip(iter.index())),
    {
        let ghost i = iter.index();
        assert(s@.skip(i) =~= seq![c] + s@.skip(i + 1));
        if c == '\n' {
            let ghost cur_line = cur@;
            proof {
                assert(cur@ + s@.skip(i) =~= cur@ + seq!['\n'] + s@.skip(i + 1));
                lemma_text_lines_split(cur@, s@.skip(i + 1));
            }
            let len = cur.len();
            if len > 0 && cur[len - 1] == '\r' {
                cur.pop();
            }
            assert(cur@ =~= strip_cr(cur_line));
            let ghost done = char_lines(lines@);
            lines.push(cur);
            assert(char_lines(lines@) =~= done + seq![strip_cr(cur_line)]);
            cur = Vec::new();
            assert(cur@ + s@.skip(i + 1) =~= s@.skip(i + 1));
        } else {
            let ghost cur_line = cur@;
            cur.push(c);
            assert(cur@ + s@.skip(i + 1) =~= cur_line + s@.skip(i));
        }
    }
    proof {
        assert(s@.skip(s@.len() as int) =~= Seq::<char>::empty());
        assert(cur@ + Seq::<char>::empty() =~= cur@);
        lemma_text_lines_last(cur@);
    }
    if cur.len() > 0 {
        lines.push(cur);
    }
    lines
}


// JOINING
// ================================================================================================

/// The lines, each preceded by a line feed.
pub open spec fn newline_each(lines: Seq<Seq<char>>) -> Seq<char>
    decreases lines.len(),
{
    if lines.len() == 0 {
        seq![]
    } else {
        newline_each(lines.drop_last()) + seq!['\n'] + lines.last()
    }
}

/// Appending a line appends it after a line feed.
pub proof fn lemma_newline_each_push(lines: Seq<Seq<char>>, line: Seq<char>)
    ensures
        newline_each(lines.push(line)) == newline_each(lines) + seq!['\n'] + line,
{
    assert(lines.push(line).drop_last() =~= lines);
}

/// Lines of two parts, each preceded by a line feed, are the two parts' texts one after the
/// other.
pub proof fn lemma_newline_each_append(a: Seq<Seq<char>>, b: Seq<Seq<char>>)
    ensures
        newline_each(a + b) == newline_each(a) + newline_each(b),
    decreases b.len(),
{
    if b.len() == 0 {
        assert(a + b =~= a);
        assert(newline_each(a) + newline_each(b) =~= newline_each(a));
    } else {
        assert((a + b).drop_last() =~= a + b.drop_last());
        lemma_newline_each_append(a, b.drop_last());
        assert(newline_each(a + b) =~= newline_each(a) + newline_each(b));
    }
}


/// The lines joined by line feeds.
pub open spec fn joined(lines: Seq<Seq<char>>) -> Seq<char> {
    if lines.len() == 0 {
        Seq::<char>::empty()
    } else {
        lines[0] + newline_each(lines.skip(1))
    }
}

/// Appends the first `n` lines of `lines`, joined by line feeds.
pub fn push_joined(out: &mut String, lines: &Vec<Vec<char>>, n: usize)
    requires
        n <= lines@.len(),
    ensures
        final(out)@ == old(out)@ + joined(char_lines(lines@).take(n as int)),
{
    let ghost all = char_lines(lines@).take(n as int);
    if n == 0 {
        assert(old(out)@ + joined(all) =~= old(out)@);
        return;
    }
    push_chars(out, &lines[0]);
    let mut i: usize = 1;
    assert(all.skip(1).take(0) =~= Seq::<Seq<char>>::empty());
    assert(out@ =~= old(out)@ + all[0] + newline_each(all.skip(1).take(0)));
    while i < n
        invariant
            1 <= i <= n <= lines@.len(),
            all == char_lines(lines@).take(n as int),
            out@ == old(out)@ + all[0] + newline_each(all.skip(1).take(i - 1)),
        decreases n - i,
    {
        let ghost before = out@;
        push_char(out, '\n');
        push_chars(out, &lines[i]);
        proof {
            assert(all.skip(1).take(i as int) =~= all.skip(1).take(i - 1).push(all[i as int]));
            lemma_newline_each_push(all.skip(1).take(i - 1), all[i as int]);
            assert(out@ =~= before + seq!['\n'] + all[i as int]);
        }
        i += 1;
    }
    assert(all.skip(1).take(n - 1) =~= all.skip(1));
}

// SEARCHING AND TRIMMING
// ================================================================================================

/// The characters of `s`.
pub fn chars_of(s: &str) -> (r: Vec<char>)
    ensures
        r@ == s@,
{
    let mut r: Vec<char> = Vec::new();
    for c in iter: s.chars()
        invariant
            iter.seq() == s@,
            r@ == s@.take(iter.index()),
    {
        let ghost i = iter.index();
        r.push(c);
        assert(s@.take(i + 1) =~= s@.take(i).push(c));
    }
    assert(s@.take(s@.len() as int) =~= s@);
    r
}

/// `pattern` occurs in `s` at position `i`.
pub open spec fn occurs_at(s: Seq<char>, pattern: Seq<char>, i: int) -> bool {
    0 <= i && i + pattern.len() <= s.len() && s.subrange(i, i + pattern.len()) == pattern
}

/// `pattern` occurs in `s`.
pub open spec fn contains_text(s: Seq<char>, pattern: Seq<char>) -> bool {
    exists|i: int| occurs_at(s, pattern, i)
}

/// Whether `pattern` occurs in `s` at position `i`.
pub fn occurs_at_exec(s: &Vec<char>, pattern: &Vec<char>, i: usize) -> (r: bool)
    requires
        i <= s@.len(),
    ensures
        r == occurs_at(s@, pattern@, i as int),
{
    let n = s.len();
    if pattern.len() > n - i {
        return false;
    }
    let mut j: usize = 0;
    while j < pattern.len()
        invariant
            j <= pattern@.len(),
            n == s@.len(),
            i + pattern@.len() <= n,
            forall|k: int| 0 <= k < j ==> s@[i + k] == pattern@[k],
        decreases pattern@.len() - j,
    {
        if s[i + j] != pattern[j] {
            assert(s@.subrange(i as int, i + pattern@.len())[j as int] != pattern@[j as int]);
            return false;
        }
        j += 1;
    }
    assert(s@.subrange(i as int, i + pattern@.len()) =~= pattern@);
    true
}

/// Whether `pattern` occurs in `s`.
pub fn contains_exec(s: &Vec<char>, pattern: &Vec<char>) -> (r: bool)
    ensures
        r == contains_text(s@, pattern@),
{
    if pattern.len() > s.len() {
        assert forall|k: int| !occurs_at(s@, pattern@, k) by {}
        return false;
    }
    let limit = s.len() - pattern.len();
    let mut i: usize = 0;
    loop
        invariant
            i <= limit,
            limit == s@.len() - pattern@.len(),
            forall|k: int| 0 <= k < i ==> !occurs_at(s@, pattern@, k),
        ensures
            forall|k: int| 0 <= k <= limit ==> !occurs_at(s@, pattern@, k),
        decreases limit - i,
    {
        if occurs_at_exec(s, pattern, i) {
            return true;
        }
        if i == limit {
            break;
        }
        i += 1;
    }
    assert forall|k: int| !occurs_at(s@, pattern@, k) by {
        if 0 <= k && k + pattern@.len() <= s@.len() {
            assert(k <= limit);
        }
    }
    false
}

/// `s` begins with `prefix`.
pub open spec fn starts_with_text(s: Seq<char>, prefix: Seq<char>) -> bool {
    occurs_at(s, prefix, 0)
}

/// A whitespace character, as `char::is_whitespace` defines it (the Unicode `White_Space`
/// property).
pub open spec fn is_white(c: char) -> bool {
    let u = c as u32;
    ||| 9 <= u <= 13
    ||| u == 32
    ||| u == 0x85
    ||| u == 0xA0
    ||| u == 0x1680
    ||| 0x2000 <= u <= 0x200A
    ||| u == 0x2028
    ||| u == 0x2029
    ||| u == 0x202F
    ||| u == 0x205F
    ||| u == 0x3000
}

/// Whether `c` is whitespace.
fn is_white_exec(c: char) -> (r: bool)
    ensures
        r == is_white(c),
{
    let u = c as u32;
    (9 <= u && u <= 13) || u == 32 || u == 0x85 || u == 0xA0 || u == 0x1680 || (0x2000 <= u && u <= 0x200A)
        || u == 0x2028 || u == 0x2029 || u == 0x202F || u == 0x205F || u == 0x3000
}

/// Number of leading whitespace characters of `s`.
pub open spec fn leading_white(s: Seq<char>) -> nat
    decreases s.len(),
{
    if s.len() == 0 || !is_white(s[0]) {
        0
    } else {
        1 + leading_white(s.drop_first())
    }
}

/// Number of trailing whitespace characters of `s`.
pub open spec fn trailing_white(s: Seq<char>) -> nat
    decreases s.len(),
{
    if s.len() == 0 || !is_white(s.last()) {
        0
    } else {
        1 + trailing_white(s.drop_last())
    }
}

/// `s` without leading and trailing whitespace, as `str::trim` returns it.
pub open spec fn trimmed(s: Seq<char>) -> Seq<char> {
    if leading_white(s) == s.len() {
        Seq::<char>::empty()
    } else {
        s.subrange(leading_white(s) as int, s.len() - trailing_white(s))
    }
}

proof fn lemma_leading_white(s: Seq<char>, i: int)
    requires
        0 <= i <= s.len(),
        forall|k: int| 0 <= k < i ==> is_white(#[trigger] s[k]),
    ensures
        leading_white(s) == i + leading_white(s.skip(i)),
    decreases i,
{
    if i > 0 {
        assert(s.drop_first().skip(i - 1) =~= s.skip(i));
        lemma_leading_white(s.drop_first(), i - 1);
    } else {
        assert(s.skip(0) =~= s);
    }
}

proof fn lemma_trailing_white(s: Seq<char>, i: int)
    requires
        0 <= i <= s.len(),
        forall|k: int| s.len() - i <= k < s.len() ==> is_white(#[trigger] s[k]),
    ensures
        trailing_white(s) == i + trailing_white(s.take(s.len() - i)),
    decreases i,
{
    if i > 0 {
        assert(s.drop_last().take(s.len() - i) =~= s.take(s.len() - i));
        lemma_trailing_white(s.drop_last(), i - 1);
    } else {
        assert(s.take(s.len() as int) =~= s);
    }
}

proof fn lemma_leading_white_bound(s: Seq<char>)
    ensures
        leading_white(s) <= s.len(),
        leading_white(s) < s.len() ==> !is_white(s[leading_white(s) as int]),
    decreases s.len(),
{
    if s.len() > 0 && is_white(s[0]) {
        lemma_leading_white_bound(s.drop_first());
    }
}

/// `s` without leading and trailing whitespace.
pub fn trim_chars(s: &Vec<char>) -> (r: Vec<char>)
    ensures
        r@ == trimmed(s@),
{
    let n = s.len();
    let mut start: usize = 0;
    while start < n && is_white_exec(s[start])
        invariant
            start <= n,
            n == s@.len(),
            forall|k: int| 0 <= k < start ==> is_white(#[trigger] s@[k]),
        decreases n - start,
    {
        start += 1;
    }
    proof {
        lemma_leading_white(s@, start as int);
        if start < n {
            assert(s@.skip(start as int)[0] == s@[start as int]);
        } else {
            assert(s@.skip(start as int).len() == 0);
        }
    }
    if start == n {
        return Vec::new();
    }
    let mut end: usize = n;
    while end > start && is_white_exec(s[end - 1])
        invariant
            start < n,
            start <= end <= n,
            n == s@.len(),
            !is_white(s@[start as int]),
            forall|k: int| end <= k < n ==> is_white(#[trigger] s@[k]),
        decreases end,
    {
        end -= 1;
    }
    proof {
        lemma_trailing_white(s@, n - end);
        assert(s@.take(end as int).last() == s@[end - 1]);
    }
    let mut r: Vec<char> = Vec::new();
    let mut k: usize = start;
    while k < end
        invariant
            start <= k <= end <= n,
            n == s@.len(),
            r@ == s@.subrange(start as int, k as int),
        decreases end - k,
    {
        r.push(s[k]);
        assert(s@.subrange(start as int, k + 1) =~= s@.subrange(start as int, k as int).push(s@[k as int]));
        k += 1;
    }
    r
}

} // verus!
