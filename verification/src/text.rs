//! Text as sequences of characters: searching, splitting, trimming and quoting.
use vstd::prelude::*;
use vstd::slice::*;
use vstd::string::*;
use vstd::utf8::*;

verus! {

/// `String::push`: appends one character to the end of the string.
pub assume_specification[ String::push ](text: &mut String, c: char)
    ensures
        final(text)@ == old(text)@.push(c),
;

// Decoding.

/// The text that `String::from_utf8_lossy` makes of a byte string.
pub uninterp spec fn lossy_text(bytes: Seq<u8>) -> Seq<char>;

/// `String::from_utf8_lossy`. Its result depends on the bytes alone. Of bytes
/// that are UTF-8 it is the text that they encode; what takes the place of
/// bytes that are not is left unsaid.
#[verifier::external_body]
pub(crate) fn from_utf8_lossy(bytes: &[u8]) -> (text: String)
    ensures
        text@ == lossy_text(bytes@),
        valid_utf8(bytes@) ==> text@ == decode_utf8(bytes@),
{
    String::from_utf8_lossy(bytes).into_owned()
}

// Searching.

/// The position of the first `c` in `s`.
pub open spec fn find_char(s: Seq<char>, c: char) -> Option<int>
    decreases s.len(),
{
    if s.len() == 0 {
        None
    } else if s[0] == c {
        Some(0)
    } else {
        match find_char(s.skip(1), c) {
            Some(i) => Some(i + 1),
            None => None,
        }
    }
}

/// The position at which `pattern` first occurs in `s`.
pub open spec fn find_text(s: Seq<char>, pattern: Seq<char>) -> Option<int>
    decreases s.len(),
{
    if pattern.is_prefix_of(s) {
        Some(0)
    } else if s.len() == 0 {
        None
    } else {
        match find_text(s.skip(1), pattern) {
            Some(i) => Some(i + 1),
            None => None,
        }
    }
}

/// `find_char` points at a `c` before which there is no other.
pub proof fn lemma_find_char(s: Seq<char>, c: char)
    ensures
        match find_char(s, c) {
            Some(i) => 0 <= i < s.len() && s[i] == c && forall|j: int| 0 <= j < i ==> s[j] != c,
            None => forall|j: int| 0 <= j < s.len() ==> s[j] != c,
        },
    decreases s.len(),
{
    if s.len() > 0 && s[0] != c {
        let rest = s.skip(1);
        lemma_find_char(rest, c);
        assert forall|j: int| 0 < j < s.len() implies s[j] == rest[j - 1] by {}
    }
}

/// A `c` before which there is no other is the one that `find_char` points at.
pub proof fn lemma_find_char_is(s: Seq<char>, c: char, i: int)
    requires
        0 <= i < s.len(),
        s[i] == c,
        forall|j: int| 0 <= j < i ==> s[j] != c,
    ensures
        find_char(s, c) == Some(i),
{
    lemma_find_char(s, c);
}

/// `find_text` points at an occurrence before which there is no other.
pub proof fn lemma_find_text(s: Seq<char>, pattern: Seq<char>)
    ensures
        match find_text(s, pattern) {
            Some(i) => {
                &&& 0 <= i
                &&& i + pattern.len() <= s.len()
                &&& s.subrange(i, i + pattern.len()) == pattern
                &&& forall|j: int| 0 <= j < i ==> !pattern.is_prefix_of(#[trigger] s.skip(j))
            },
            None => forall|j: int|
                0 <= j <= s.len() ==> !pattern.is_prefix_of(#[trigger] s.skip(j)),
        },
    decreases s.len(),
{
    assert(s.skip(0) =~= s);
    if pattern.is_prefix_of(s) {
    } else if s.len() > 0 {
        let rest = s.skip(1);
        lemma_find_text(rest, pattern);
        assert forall|j: int| 0 < j <= s.len() implies #[trigger] s.skip(j) == rest.skip(j - 1) by {
            assert(s.skip(j) =~= rest.skip(j - 1));
        }
        if find_text(rest, pattern) is Some {
            let i = find_text(rest, pattern)->0;
            assert(s.subrange(i + 1, i + 1 + pattern.len()) =~= rest.subrange(
                i,
                i + pattern.len(),
            ));
        }
    }
}

/// An occurrence before which there is no other is the one that `find_text`
/// points at.
pub proof fn lemma_find_text_is(s: Seq<char>, pattern: Seq<char>, i: int)
    requires
        0 <= i <= s.len(),
        pattern.is_prefix_of(s.skip(i)),
        forall|j: int| 0 <= j < i ==> !pattern.is_prefix_of(#[trigger] s.skip(j)),
    ensures
        find_text(s, pattern) == Some(i),
{
    lemma_find_text(s, pattern);
    if find_text(s, pattern) is Some {
        let k = find_text(s, pattern)->0;
        assert(s.skip(k).subrange(0, pattern.len() as int) =~= s.subrange(k, k + pattern.len()));
        assert(pattern.is_prefix_of(s.skip(k)));
    }
}

/// Whether `pattern` occurs in `s`.
pub open spec fn contains_text(s: Seq<char>, pattern: Seq<char>) -> bool {
    find_text(s, pattern) is Some
}

/// The characters of a string.
pub fn chars_of(text: &str) -> (chars: Vec<char>)
    ensures
        chars@ == text@,
{
    let mut chars: Vec<char> = Vec::new();
    for c in it: text.chars()
        invariant
            chars@ == text@.take(it.index() as int),
            it.seq() == text@,
    {
        chars.push(c);
        assert(text@.take(it.index() + 1) =~= text@.take(it.index() as int).push(c));
    }
    assert(text@.take(text@.len() as int) =~= text@);
    chars
}

/// The string that a slice of characters spells.
pub fn string_of(chars: &[char]) -> (text: String)
    ensures
        text@ == chars@,
{
    let mut text = String::new();
    for i in 0..chars.len()
        invariant
            text@ == chars@.take(i as int),
    {
        text.push(chars[i]);
        assert(chars@.take(i + 1) =~= chars@.take(i as int).push(chars@[i as int]));
    }
    assert(chars@.take(chars@.len() as int) =~= chars@);
    text
}

/// A position, or its absence, as the specifications write it.
pub open spec fn position(found: Option<usize>) -> Option<int> {
    match found {
        Some(i) => Some(i as int),
        None => None,
    }
}

/// Finds the first `c`.
pub fn position_of_char(s: &[char], c: char) -> (found: Option<usize>)
    ensures
        position(found) == find_char(s@, c),
{
    let mut i: usize = 0;
    while i < s.len()
        invariant
            i <= s@.len(),
            forall|j: int| 0 <= j < i ==> s@[j] != c,
        decreases s@.len() - i,
    {
        if s[i] == c {
            proof {
                lemma_find_char_is(s@, c, i as int);
            }
            return Some(i);
        }
        i += 1;
    }
    proof {
        lemma_find_char(s@, c);
    }
    None
}

/// Whether `s` begins with `pattern`.
pub fn starts_with(s: &[char], pattern: &[char]) -> (yes: bool)
    ensures
        yes == pattern@.is_prefix_of(s@),
{
    if s.len() < pattern.len() {
        return false;
    }
    let mut i: usize = 0;
    while i < pattern.len()
        invariant
            i <= pattern@.len() <= s@.len(),
            forall|j: int| 0 <= j < i ==> s@[j] == pattern@[j],
        decreases pattern@.len() - i,
    {
        if s[i] != pattern[i] {
            assert(s@.subrange(0, pattern@.len() as int)[i as int] != pattern@[i as int]);
            return false;
        }
        i += 1;
    }
    assert(s@.subrange(0, pattern@.len() as int) =~= pattern@);
    true
}

/// Whether `s` ends with `pattern`.
pub fn ends_with(s: &[char], pattern: &[char]) -> (yes: bool)
    ensures
        yes == pattern@.is_suffix_of(s@),
{
    if s.len() < pattern.len() {
        return false;
    }
    let tail = slice_subrange(s, s.len() - pattern.len(), s.len());
    let yes = starts_with(tail, pattern);
    assert(tail@.subrange(0, pattern@.len() as int) =~= tail@);
    yes
}

/// Finds the first occurrence of `pattern`.
pub fn position_of_text(s: &[char], pattern: &[char]) -> (found: Option<usize>)
    ensures
        position(found) == find_text(s@, pattern@),
{
    let mut i: usize = 0;
    while i < s.len()
        invariant
            i <= s@.len(),
            forall|j: int| 0 <= j < i ==> !pattern@.is_prefix_of(#[trigger] s@.skip(j)),
        decreases s@.len() - i,
    {
        let rest = slice_subrange(s, i, s.len());
        assert(rest@ =~= s@.skip(i as int));
        if starts_with(rest, pattern) {
            proof {
                lemma_find_text_is(s@, pattern@, i as int);
            }
            return Some(i);
        }
        i += 1;
    }
    assert(s@.skip(s@.len() as int).len() == 0);
    if pattern.len() == 0 {
        proof {
            assert(pattern@.is_prefix_of(s@.skip(s@.len() as int))) by {
                assert(s@.skip(s@.len() as int).subrange(0, 0) =~= pattern@);
            }
            lemma_find_text_is(s@, pattern@, i as int);
        }
        return Some(i);
    }
    proof {
        lemma_find_text(s@, pattern@);
        if find_text(s@, pattern@) is Some {
            let k = find_text(s@, pattern@)->0;
            assert(s@.skip(k).subrange(0, pattern@.len() as int) =~= s@.subrange(
                k,
                k + pattern@.len(),
            ));
            assert(pattern@.is_prefix_of(s@.skip(k)));
        }
    }
    None
}

/// Whether `pattern` occurs in `text`.
pub fn has_text(text: &str, pattern: &str) -> (yes: bool)
    ensures
        yes == contains_text(text@, pattern@),
{
    let s = chars_of(text);
    let p = chars_of(pattern);
    position_of_text(s.as_slice(), p.as_slice()).is_some()
}

// Splitting.

/// The `n`-th field, counted from zero, of the text that `separator` cuts up.
pub open spec fn field(s: Seq<char>, separator: char, n: nat) -> Option<Seq<char>>
    decreases n,
{
    match find_char(s, separator) {
        Some(i) => if n == 0 {
            Some(s.take(i))
        } else {
            field(s.skip(i + 1), separator, (n - 1) as nat)
        },
        None => if n == 0 {
            Some(s)
        } else {
            None
        },
    }
}

/// A line without the carriage return that stood before its line feed.
pub open spec fn without_return(line: Seq<char>) -> Seq<char> {
    if line.len() > 0 && line.last() == '\r' {
        line.drop_last()
    } else {
        line
    }
}

/// The lines of a text. Each ends in a line feed, or a carriage return and a
/// line feed, which are not part of it; the last may also end with the text.
pub open spec fn lines(s: Seq<char>) -> Seq<Seq<char>>
    decreases s.len(),
{
    if s.len() == 0 {
        Seq::empty()
    } else {
        match find_char(s, '\n') {
            Some(i) => {
                proof {
                    lemma_find_char(s, '\n');
                }
                seq![without_return(s.take(i))] + lines(s.skip(i + 1))
            },
            None => seq![s],
        }
    }
}

/// The text that an optional slice of characters spells.
pub open spec fn slice_text(found: Option<&[char]>) -> Option<Seq<char>> {
    match found {
        Some(s) => Some(s@),
        None => None,
    }
}

/// Cuts `s` at `separator` and takes the `n`-th field.
pub fn field_of(s: &[char], separator: char, n: usize) -> (found: Option<&[char]>)
    ensures
        slice_text(found) == field(s@, separator, n as nat),
    decreases n,
{
    let size: usize = s.len();
    match position_of_char(s, separator) {
        Some(i) => {
            proof {
                lemma_find_char(s@, separator);
            }
            if n == 0 {
                let head = slice_subrange(s, 0, i);
                assert(head@ =~= s@.take(i as int));
                Some(head)
            } else {
                let rest = slice_subrange(s, i + 1, size);
                assert(rest@ =~= s@.skip(i + 1));
                field_of(rest, separator, n - 1)
            }
        },
        None => {
            if n == 0 {
                Some(s)
            } else {
                None
            }
        },
    }
}

/// The first line of `s` without its end, and what follows it.
pub fn first_line(s: &[char]) -> (cut: (&[char], &[char]))
    requires
        s@.len() > 0,
    ensures
        (cut.0@, cut.1@) == match find_char(s@, '\n') {
            Some(i) => (without_return(s@.take(i)), s@.skip(i + 1)),
            None => (s@, Seq::empty()),
        },
        lines(s@) == seq![cut.0@] + lines(cut.1@),
        cut.1@.len() < s@.len(),
{
    let size: usize = s.len();
    proof {
        lemma_find_char(s@, '\n');
    }
    match position_of_char(s, '\n') {
        Some(i) => {
            let rest = slice_subrange(s, i + 1, size);
            assert(rest@ =~= s@.skip(i + 1));
            let whole = slice_subrange(s, 0, i);
            assert(whole@ =~= s@.take(i as int));
            if i > 0 && s[i - 1] == '\r' {
                let line = slice_subrange(s, 0, i - 1);
                assert(line@ =~= whole@.drop_last());
                (line, rest)
            } else {
                (whole, rest)
            }
        },
        None => {
            let rest = slice_subrange(s, size, size);
            assert(rest@ =~= Seq::empty());
            assert(seq![s@] + lines(rest@) =~= seq![s@]);
            (s, rest)
        },
    }
}

// Trimming.

/// Unicode's white space.
pub open spec fn is_space(c: char) -> bool {
    ||| '\u{9}' <= c <= '\u{d}'
    ||| c == '\u{20}'
    ||| c == '\u{85}'
    ||| c == '\u{a0}'
    ||| c == '\u{1680}'
    ||| '\u{2000}' <= c <= '\u{200a}'
    ||| c == '\u{2028}'
    ||| c == '\u{2029}'
    ||| c == '\u{202f}'
    ||| c == '\u{205f}'
    ||| c == '\u{3000}'
}

/// `s` without the white space that it begins with.
pub open spec fn trim_start(s: Seq<char>) -> Seq<char>
    decreases s.len(),
{
    if s.len() > 0 && is_space(s[0]) {
        trim_start(s.skip(1))
    } else {
        s
    }
}

/// `s` without the white space that it ends with.
pub open spec fn trim_end(s: Seq<char>) -> Seq<char>
    decreases s.len(),
{
    if s.len() > 0 && is_space(s.last()) {
        trim_end(s.drop_last())
    } else {
        s
    }
}

/// `s` without the white space around it.
pub open spec fn trim(s: Seq<char>) -> Seq<char> {
    trim_end(trim_start(s))
}

/// `s` without the `c`s that it begins with.
pub open spec fn trim_start_char(s: Seq<char>, c: char) -> Seq<char>
    decreases s.len(),
{
    if s.len() > 0 && s[0] == c {
        trim_start_char(s.skip(1), c)
    } else {
        s
    }
}

/// Tells white space from other characters.
pub fn is_white_space(c: char) -> (yes: bool)
    ensures
        yes == is_space(c),
{
    ('\u{9}' <= c && c <= '\u{d}') || c == '\u{20}' || c == '\u{85}' || c == '\u{a0}' || c
        == '\u{1680}' || ('\u{2000}' <= c && c <= '\u{200a}') || c == '\u{2028}' || c == '\u{2029}'
        || c == '\u{202f}' || c == '\u{205f}' || c == '\u{3000}'
}

/// Cuts the white space off both ends.
pub fn trimmed(s: &[char]) -> (cut: &[char])
    ensures
        cut@ == trim(s@),
{
    let mut from: usize = 0;
    assert(s@.skip(0) =~= s@);
    while from < s.len() && is_white_space(s[from])
        invariant
            from <= s@.len(),
            trim_start(s@) == trim_start(s@.skip(from as int)),
        decreases s@.len() - from,
    {
        assert(s@.skip(from as int).skip(1) =~= s@.skip(from + 1));
        from += 1;
    }
    let ghost core = s@.skip(from as int);
    assert(trim_start(s@) == core);
    let mut to: usize = s.len();
    assert(core.take(to - from) =~= core);
    while from < to && is_white_space(s[to - 1])
        invariant
            from <= to <= s@.len(),
            core == s@.skip(from as int),
            trim_end(core) == trim_end(core.take(to - from)),
        decreases to,
    {
        assert(core.take(to - from).drop_last() =~= core.take(to - 1 - from));
        assert(core.take(to - from).last() == s@[to - 1]);
        to -= 1;
    }
    let cut = slice_subrange(s, from, to);
    assert(cut@ =~= core.take(to - from));
    proof {
        if from < to {
            assert(core.take(to - from).last() == s@[to - 1]);
        }
    }
    cut
}

/// Cuts the `c`s off the front.
pub fn without_leading(s: &[char], c: char) -> (cut: &[char])
    ensures
        cut@ == trim_start_char(s@, c),
{
    let mut from: usize = 0;
    assert(s@.skip(0) =~= s@);
    while from < s.len() && s[from] == c
        invariant
            from <= s@.len(),
            trim_start_char(s@, c) == trim_start_char(s@.skip(from as int), c),
        decreases s@.len() - from,
    {
        assert(s@.skip(from as int).skip(1) =~= s@.skip(from + 1));
        from += 1;
    }
    let cut = slice_subrange(s, from, s.len());
    assert(cut@ =~= s@.skip(from as int));
    cut
}

// Quoting.

/// `s` with every single quote doubled, as it stands inside a single-quoted
/// PowerShell literal.
pub open spec fn doubled_quotes(s: Seq<char>) -> Seq<char>
    decreases s.len(),
{
    if s.len() == 0 {
        Seq::empty()
    } else if s.last() == '\'' {
        doubled_quotes(s.drop_last()).push('\'').push('\'')
    } else {
        doubled_quotes(s.drop_last()).push(s.last())
    }
}

/// Doubles every single quote.
pub fn double_quotes(text: &str) -> (quoted: String)
    ensures
        quoted@ == doubled_quotes(text@),
{
    let s = chars_of(text);
    let mut quoted = String::new();
    for i in 0..s.len()
        invariant
            s@ == text@,
            quoted@ == doubled_quotes(s@.take(i as int)),
    {
        let ghost next = s@.take(i + 1);
        assert(next.drop_last() =~= s@.take(i as int));
        assert(next.last() == s@[i as int]);
        quoted.push(s[i]);
        if s[i] == '\'' {
            quoted.push('\'');
        }
    }
    assert(s@.take(s@.len() as int) =~= text@);
    quoted
}

/// A single-quoted PowerShell literal.
pub open spec fn quoted(s: Seq<char>) -> Seq<char> {
    seq!['\''] + doubled_quotes(s) + seq!['\'']
}

/// Appends a single-quoted PowerShell literal.
pub fn append_quoted(script: &mut String, text: &str)
    ensures
        final(script)@ == old(script)@ + quoted(text@),
{
    let ghost before = script@;
    script.push('\'');
    let doubled = double_quotes(text);
    script.append(doubled.as_str());
    script.push('\'');
    assert(script@ =~= before + quoted(text@));
}

/// What is read where a literal between apostrophes has been opened: the text
/// up to the first apostrophe that is not doubled, each doubled one once, and
/// what stands behind the closing one. There is none to be read where the
/// literal is never closed.
pub open spec fn read_literal(s: Seq<char>) -> Option<(Seq<char>, Seq<char>)>
    decreases s.len(),
{
    if s.len() == 0 {
        None
    } else if s[0] != '\'' {
        match read_literal(s.skip(1)) {
            Some((text, rest)) => Some((seq![s[0]] + text, rest)),
            None => None,
        }
    } else if s.len() > 1 && s[1] == '\'' {
        match read_literal(s.skip(2)) {
            Some((text, rest)) => Some((seq![s[0]] + text, rest)),
            None => None,
        }
    } else {
        Some((Seq::empty(), s.skip(1)))
    }
}

/// The doubled form of a text is that of its first character and that of the
/// rest.
proof fn lemma_doubled_first(s: Seq<char>)
    requires
        s.len() > 0,
    ensures
        doubled_quotes(s) == doubled_quotes(s.take(1)) + doubled_quotes(s.skip(1)),
        doubled_quotes(s.take(1)) == if s[0] == '\'' {
            seq!['\'', '\'']
        } else {
            seq![s[0]]
        },
    decreases s.len(),
{
    reveal_with_fuel(doubled_quotes, 2);
    assert(s.take(1).drop_last() =~= Seq::empty());
    assert(s.take(1).last() == s[0]);
    if s.len() == 1 {
        assert(s.take(1) =~= s);
        assert(s.skip(1) =~= Seq::empty());
        assert(doubled_quotes(s) + Seq::empty() =~= doubled_quotes(s));
    } else {
        lemma_doubled_first(s.drop_last());
        assert(s.drop_last().take(1) =~= s.take(1));
        assert(s.drop_last().skip(1) =~= s.skip(1).drop_last());
        assert(s.skip(1).last() == s.last());
        let head = doubled_quotes(s.take(1));
        let body = doubled_quotes(s.skip(1).drop_last());
        if s.last() == '\'' {
            assert((head + body).push('\'').push('\'') =~= head + body.push('\'').push('\''));
        } else {
            assert((head + body).push(s.last()) =~= head + body.push(s.last()));
        }
    }
}

/// A doubled text up to a single quote is read as the text itself.
proof fn lemma_doubled_quotes_read_back(text: Seq<char>, rest: Seq<char>)
    requires
        rest.len() > 0 ==> rest[0] != '\'',
    ensures
        read_literal(doubled_quotes(text) + seq!['\''] + rest) == Some((text, rest)),
    decreases text.len(),
{
    let whole = doubled_quotes(text) + seq!['\''] + rest;
    if text.len() == 0 {
        assert(whole =~= seq!['\''] + rest);
        assert(whole.skip(1) =~= rest);
    } else {
        lemma_doubled_first(text);
        lemma_doubled_quotes_read_back(text.skip(1), rest);
        let tail = doubled_quotes(text.skip(1)) + seq!['\''] + rest;
        assert(seq![text[0]] + text.skip(1) =~= text);
        if text[0] == '\'' {
            assert(whole =~= seq!['\'', '\''] + tail);
            assert(whole.skip(2) =~= tail);
        } else {
            assert(whole =~= seq![text[0]] + tail);
            assert(whole.skip(1) =~= tail);
        }
    }
}

/// Behind its opening apostrophe, a literal is read back as the text that was
/// put into it, whatever apostrophes are in that text, and nothing of what
/// follows the closing one is taken into it.
pub proof fn law_quoted_read_back(text: Seq<char>, rest: Seq<char>)
    requires
        rest.len() > 0 ==> rest[0] != '\'',
    ensures
        read_literal((quoted(text) + rest).skip(1)) == Some((text, rest)),
{
    lemma_doubled_quotes_read_back(text, rest);
    assert((quoted(text) + rest).skip(1) =~= doubled_quotes(text) + seq!['\''] + rest);
}

// What searching, splitting and trimming come to.

/// A text contains another where, and only where, it goes on with the other from
/// some position on.
pub proof fn law_contains_text(s: Seq<char>, pattern: Seq<char>)
    ensures
        contains_text(s, pattern) <==> exists|i: int|
            0 <= i <= s.len() && pattern.is_prefix_of(#[trigger] s.skip(i)),
{
    lemma_find_text(s, pattern);
    if contains_text(s, pattern) {
        let i = find_text(s, pattern)->0;
        assert(s.skip(i).subrange(0, pattern.len() as int) =~= s.subrange(i, i + pattern.len()));
        assert(pattern.is_prefix_of(s.skip(i)));
    }
}

/// The fields of a text are what stands between its separators: the first is what
/// stands before the first of them, and the others are those of what follows it.
pub proof fn law_fields(head: Seq<char>, separator: char, rest: Seq<char>, n: nat)
    requires
        forall|i: int| 0 <= i < head.len() ==> #[trigger] head[i] != separator,
    ensures
        field(head, separator, 0) == Some(head),
        field(head, separator, n + 1) is None,
        field(head + seq![separator] + rest, separator, 0) == Some(head),
        field(head + seq![separator] + rest, separator, n + 1) == field(rest, separator, n),
{
    let whole = head + seq![separator] + rest;
    lemma_find_char(head, separator);
    assert forall|j: int| 0 <= j < head.len() implies whole[j] != separator by {
        assert(whole[j] == head[j]);
    }
    lemma_find_char_is(whole, separator, head.len() as int);
    assert(whole.take(head.len() as int) =~= head);
    assert(whole.skip(head.len() as int + 1) =~= rest);
}

/// The lines of a text are what stands before its line feeds, without a carriage
/// return right before one, and what stands behind the last, if that is anything.
pub proof fn law_lines(line: Seq<char>, rest: Seq<char>)
    requires
        forall|i: int| 0 <= i < line.len() ==> #[trigger] line[i] != '\n',
    ensures
        lines(Seq::empty()) == Seq::<Seq<char>>::empty(),
        line.len() > 0 ==> lines(line) == seq![line],
        line.len() == 0 || line.last() != '\r' ==> lines(line + seq!['\n'] + rest) == seq![line]
            + lines(rest),
        lines(line + seq!['\r', '\n'] + rest) == seq![line] + lines(rest),
{
    lemma_find_char(line, '\n');
    let plain = line + seq!['\n'] + rest;
    assert forall|j: int| 0 <= j < line.len() implies plain[j] != '\n' by {
        assert(plain[j] == line[j]);
    }
    lemma_find_char_is(plain, '\n', line.len() as int);
    assert(plain.take(line.len() as int) =~= line);
    assert(plain.skip(line.len() as int + 1) =~= rest);
    let full = line + seq!['\r', '\n'] + rest;
    let size = line.len() as int;
    assert forall|j: int| 0 <= j < size + 1 implies full[j] != '\n' by {
        if j < size {
            assert(full[j] == line[j]);
        }
    }
    lemma_find_char_is(full, '\n', size + 1);
    assert(full.take(size + 1).drop_last() =~= line);
    assert(full.take(size + 1).last() == '\r');
    assert(full.skip(size + 2) =~= rest);
}

proof fn lemma_trim_start_front(front: Seq<char>, rest: Seq<char>)
    requires
        forall|i: int| 0 <= i < front.len() ==> is_space(#[trigger] front[i]),
    ensures
        trim_start(front + rest) == trim_start(rest),
    decreases front.len(),
{
    if front.len() == 0 {
        assert(front + rest =~= rest);
    } else {
        assert((front + rest)[0] == front[0]);
        assert((front + rest).skip(1) =~= front.skip(1) + rest);
        lemma_trim_start_front(front.skip(1), rest);
    }
}

proof fn lemma_trim_end_back(rest: Seq<char>, back: Seq<char>)
    requires
        forall|i: int| 0 <= i < back.len() ==> is_space(#[trigger] back[i]),
    ensures
        trim_end(rest + back) == trim_end(rest),
    decreases back.len(),
{
    if back.len() == 0 {
        assert(rest + back =~= rest);
    } else {
        assert((rest + back).last() == back[back.len() - 1]);
        assert((rest + back).drop_last() =~= rest + back.drop_last());
        lemma_trim_end_back(rest, back.drop_last());
    }
}

/// Trimming takes off the white space around a text, all of it, and nothing else.
pub proof fn law_trim(front: Seq<char>, core: Seq<char>, back: Seq<char>)
    requires
        forall|i: int| 0 <= i < front.len() ==> is_space(#[trigger] front[i]),
        forall|i: int| 0 <= i < back.len() ==> is_space(#[trigger] back[i]),
        core.len() > 0 ==> !is_space(core[0]) && !is_space(core.last()),
    ensures
        trim(front + core + back) == core,
{
    assert(front + core + back =~= front + (core + back));
    lemma_trim_start_front(front, core + back);
    if core.len() > 0 {
        assert((core + back)[0] == core[0]);
        lemma_trim_end_back(core, back);
    } else {
        assert(core + back =~= back + Seq::empty());
        lemma_trim_start_front(back, Seq::empty());
        assert(core =~= Seq::empty());
    }
}

/// Leading characters of one kind are taken off, all of them, and nothing else.
pub proof fn law_trim_start_char(s: Seq<char>, c: char)
    ensures
        exists|i: int|
            {
                &&& 0 <= i <= s.len()
                &&& trim_start_char(s, c) == #[trigger] s.skip(i)
                &&& forall|j: int| 0 <= j < i ==> s[j] == c
                &&& i < s.len() ==> s[i] != c
            },
    decreases s.len(),
{
    if s.len() > 0 && s[0] == c {
        let rest = s.skip(1);
        law_trim_start_char(rest, c);
        let i = choose|i: int|
            {
                &&& 0 <= i <= rest.len()
                &&& trim_start_char(rest, c) == #[trigger] rest.skip(i)
                &&& forall|j: int| 0 <= j < i ==> rest[j] == c
                &&& i < rest.len() ==> rest[i] != c
            };
        assert(s.skip(i + 1) =~= rest.skip(i));
        assert forall|j: int| 0 <= j < i + 1 implies s[j] == c by {
            if j > 0 {
                assert(s[j] == rest[j - 1]);
            }
        }
    } else {
        assert(s.skip(0) =~= s);
    }
}

/// In a literal every apostrophe stands twice and every other character once, in
/// their order.
pub proof fn law_doubled_quotes(s: Seq<char>, c: char)
    ensures
        doubled_quotes(Seq::empty()) == Seq::<char>::empty(),
        doubled_quotes(s.push(c)) == doubled_quotes(s) + if c == '\'' {
            seq!['\'', '\'']
        } else {
            seq![c]
        },
{
    assert(s.push(c).drop_last() =~= s);
    if c == '\'' {
        assert(doubled_quotes(s).push(c).push(c) =~= doubled_quotes(s) + seq![c, c]);
    } else {
        assert(doubled_quotes(s).push(c) =~= doubled_quotes(s) + seq![c]);
    }
}

/// White space is the twenty-five characters that Unicode counts as such.
pub proof fn law_white_space(c: char)
    ensures
        is_space(c) <==> {
            let code = c as int;
            ||| 9 <= code <= 13
            ||| code == 32
            ||| code == 133
            ||| code == 160
            ||| code == 5760
            ||| 8192 <= code <= 8202
            ||| code == 8232
            ||| code == 8233
            ||| code == 8239
            ||| code == 8287
            ||| code == 12288
        },
{
}

/// A literal stands between two apostrophes.
pub proof fn law_quoted(s: Seq<char>)
    ensures
        quoted(s) == seq!['\''] + doubled_quotes(s) + seq!['\''],
{
}

/// A position, and a slice that was found, are shown as they are.
pub proof fn law_found(found: Option<usize>, slice: Option<&[char]>)
    ensures
        match found {
            Some(i) => position(found) == Some(i as int),
            None => position(found) is None,
        },
        match slice {
            Some(s) => slice_text(slice) == Some(s@),
            None => slice_text(slice) is None,
        },
{
}

} // verus!
