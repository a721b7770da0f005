//! Plain operations on text, stated over sequences of characters.

use vstd::prelude::*;

verus! {

/// `prefix` is an initial segment of `text`, character by character.
pub open spec fn is_prefix(prefix: Seq<char>, text: Seq<char>) -> bool {
    prefix.len() <= text.len() && text.subrange(0, prefix.len() as int) == prefix
}

/// `std::string::String::push` appends one character at the end.
pub assume_specification[ String::push ](s: &mut String, c: char)
    ensures
        final(s)@ == old(s)@.push(c),
;

/// The characters of `s`, in order.
pub fn chars_of(s: &str) -> (r: Vec<char>)
    ensures
        r@ == s@,
{
    let mut r: Vec<char> = Vec::new();
    for c in it: s.chars()
        invariant
            it.seq() == s@,
            r@ == s@.take(it.index()),
    {
        r.push(c);
    }
    r
}

/// The text made of `chars[from..to]`.
pub fn text_of(chars: &Vec<char>, from: usize, to: usize) -> (r: String)
    requires
        from <= to <= chars.len(),
    ensures
        r@ == chars@.subrange(from as int, to as int),
{
    let mut r = String::new();
    let mut i: usize = from;
    while i < to
        invariant
            from <= i <= to <= chars.len(),
            r@ == chars@.subrange(from as int, i as int),
        decreases to - i,
    {
        r.push(chars[i]);
        i = i + 1;
    }
    r
}

/// Tells whether `text` begins with `prefix`.
pub fn starts_with(text: &str, prefix: &str) -> (r: bool)
    ensures
        r == is_prefix(prefix@, text@),
{
    let t = chars_of(text);
    let p = chars_of(prefix);
    if p.len() > t.len() {
        return false;
    }
    let mut i: usize = 0;
    while i < p.len()
        invariant
            i <= p.len() <= t.len(),
            t@ == text@,
            p@ == prefix@,
            t@.subrange(0, i as int) == p@.subrange(0, i as int),
        decreases p.len() - i,
    {
        if t[i] != p[i] {
            return false;
        }
        i = i + 1;
    }
    proof {
        assert(p@.subrange(0, p@.len() as int) == p@);
    }
    true
}

/// Strict lexicographic order on texts, character by character and by code
/// point: a proper prefix comes before the longer text.
pub open spec fn lex_less(a: Seq<char>, b: Seq<char>) -> bool
    decreases a.len(),
{
    if b.len() == 0 {
        false
    } else if a.len() == 0 {
        true
    } else if a[0] != b[0] {
        (a[0] as u32) < (b[0] as u32)
    } else {
        lex_less(a.drop_first(), b.drop_first())
    }
}

/// Tells whether `a` comes strictly before `b` in lexicographic order.
pub fn precedes(a: &str, b: &str) -> (r: bool)
    ensures
        r == lex_less(a@, b@),
{
    let x = chars_of(a);
    let y = chars_of(b);
    let mut i: usize = 0;
    proof {
        assert(x@.skip(0) == x@);
        assert(y@.skip(0) == y@);
    }
    while i < x.len() && i < y.len()
        invariant
            i <= x.len(),
            i <= y.len(),
            x@ == a@,
            y@ == b@,
            lex_less(a@, b@) == lex_less(x@.skip(i as int), y@.skip(i as int)),
        decreases x.len() - i,
    {
        if x[i] != y[i] {
            return (x[i] as u32) < (y[i] as u32);
        }
        proof {
            assert(x@.skip(i as int).drop_first() == x@.skip(i + 1));
            assert(y@.skip(i as int).drop_first() == y@.skip(i + 1));
        }
        i = i + 1;
    }
    i < y.len()
}

/// Index of the first line feed of `text`, or the length of `text` where it
/// holds none.
pub open spec fn line_end(text: Seq<char>) -> int
    decreases text.len(),
{
    if text.len() == 0 || text[0] == '\n' {
        0
    } else {
        1 + line_end(text.drop_first())
    }
}

/// `line` without the carriage return at its end, if it has one.
pub open spec fn without_carriage_return(line: Seq<char>) -> Seq<char> {
    if line.len() > 0 && line.last() == '\r' {
        line.drop_last()
    } else {
        line
    }
}

/// The lines of `text`. A line ends at a line feed, which is not part of it,
/// nor is a carriage return directly before that line feed. What follows the
/// last line feed is a line of its own unless it is empty, and is kept as it
/// is. The empty text has no lines.
pub open spec fn lines_of(text: Seq<char>) -> Seq<Seq<char>>
    decreases text.len(),
{
    if text.len() == 0 {
        Seq::empty()
    } else {
        let n = line_end(text);
        if n < 0 || n >= text.len() {
            seq![text]
        } else {
            seq![without_carriage_return(text.take(n))] + lines_of(text.skip(n + 1))
        }
    }
}

/// `line_end` finds the line feed at `k` when none stands before it, and gives
/// the length when there is no line feed at all.
pub proof fn lemma_line_end(text: Seq<char>, k: int)
    requires
        0 <= k <= text.len(),
        forall|j: int| 0 <= j < k ==> text[j] != '\n',
        k < text.len() ==> text[k] == '\n',
    ensures
        line_end(text) == k,
    decreases k,
{
    if k > 0 {
        lemma_line_end(text.drop_first(), k - 1);
    }
}

/// Adding one text at the end of a list adds its characters at the end of the
/// list's deep view.
pub proof fn lemma_deep_view_push(list: Seq<String>, all: Seq<String>, last: String)
    requires
        all == list.push(last),
    ensures
        Seq::new(all.len(), |i: int| all[i].deep_view()) == Seq::new(
            list.len(),
            |i: int| list[i].deep_view(),
        ).push(last@),
{
}

/// Splits `text` into its lines.
pub fn split_lines(text: &str) -> (r: Vec<String>)
    ensures
        r.deep_view() == lines_of(text@),
{
    let mut lines: Vec<String> = Vec::new();
    let mut cur: Vec<char> = Vec::new();
    proof {
        assert(text@.skip(0) == text@);
    }
    for c in it: text.chars()
        invariant
            it.seq() == text@,
            cur.len() <= it.index(),
            cur@ == text@.subrange(it.index() - cur.len(), it.index()),
            forall|j: int| 0 <= j < cur.len() ==> cur@[j] != '\n',
            lines_of(text@) == lines.deep_view() + lines_of(text@.skip(it.index() - cur.len())),
    {
        let ghost start = it.index() - cur.len();
        let ghost rest = text@.skip(start);
        if c == '\n' {
            let n = cur.len();
            let end = if n > 0 && cur[n - 1] == '\r' {
                n - 1
            } else {
                n
            };
            let line = text_of(&cur, 0, end);
            proof {
                assert(rest.take(n as int) == cur@);
                lemma_line_end(rest, n as int);
                assert(line@ == without_carriage_return(cur@));
                assert(rest.skip(n + 1) == text@.skip(it.index() + 1));
                lemma_deep_view_push(lines@, lines@.push(line), line);
            }
            lines.push(line);
            cur = Vec::new();
        } else {
            cur.push(c);
        }
    }
    let n = cur.len();
    if n > 0 {
        let line = text_of(&cur, 0, n);
        proof {
            let rest = text@.skip(text@.len() - n);
            lemma_line_end(rest, n as int);
            assert(cur@.subrange(0, n as int) == cur@);
            lemma_deep_view_push(lines@, lines@.push(line), line);
        }
        lines.push(line);
    }
    lines
}

/// The characters that count as white space: those with the Unicode property
/// `White_Space`.
pub open spec fn is_white_space(c: char) -> bool {
    let u = c as u32;
    ||| 0x09 <= u <= 0x0D
    ||| u == 0x20
    ||| u == 0x85
    ||| u == 0xA0
    ||| u == 0x1680
    ||| 0x2000 <= u <= 0x200A
    ||| u == 0x2028
    ||| u == 0x2029
    ||| u == 0x202F
    ||| u == 0x205F
    ||| u == 0x3000
}

/// Tells whether `c` is white space.
pub fn white_space(c: char) -> (r: bool)
    ensures
        r == is_white_space(c),
{
    let u: u32 = c as u32;
    (0x09 <= u && u <= 0x0D) || u == 0x20 || u == 0x85 || u == 0xA0 || u == 0x1680 || (0x2000 <= u
        && u <= 0x200A) || u == 0x2028 || u == 0x2029 || u == 0x202F || u == 0x205F || u == 0x3000
}

/// `text` without the white space at its start.
pub open spec fn trim_start(text: Seq<char>) -> Seq<char>
    decreases text.len(),
{
    if text.len() > 0 && is_white_space(text[0]) {
        trim_start(text.drop_first())
    } else {
        text
    }
}

/// `text` without the white space at its end.
pub open spec fn trim_end(text: Seq<char>) -> Seq<char>
    decreases text.len(),
{
    if text.len() > 0 && is_white_space(text.last()) {
        trim_end(text.drop_last())
    } else {
        text
    }
}

/// `text` without the white space at either end.
pub open spec fn trimmed(text: Seq<char>) -> Seq<char> {
    trim_end(trim_start(text))
}

/// Removes the white space at both ends of `text`.
pub fn trim(text: &str) -> (r: String)
    ensures
        r@ == trimmed(text@),
{
    let chars = chars_of(text);
    let n = chars.len();
    let mut i: usize = 0;
    proof {
        assert(chars@.skip(0) == chars@);
    }
    while i < n && white_space(chars[i])
        invariant
            i <= n == chars.len(),
            trim_start(chars@) == trim_start(chars@.skip(i as int)),
        decreases n - i,
    {
        proof {
            assert(chars@.skip(i as int).drop_first() == chars@.skip(i + 1));
        }
        i = i + 1;
    }
    let mut j: usize = n;
    while j > i && white_space(chars[j - 1])
        invariant
            i <= j <= n == chars.len(),
            trim_end(chars@.subrange(i as int, n as int)) == trim_end(
                chars@.subrange(i as int, j as int),
            ),
        decreases j,
    {
        proof {
            assert(chars@.subrange(i as int, j as int).drop_last() == chars@.subrange(
                i as int,
                j - 1,
            ));
        }
        j = j - 1;
    }
    text_of(&chars, i, j)
}

/// The text `a` followed by the text `b`.
pub fn joined(a: &str, b: &str) -> (r: String)
    ensures
        r@ == a@ + b@,
{
    let mut r = a.to_owned();
    r.append(b);
    r
}

/// Adds the text `item` at the end of `list`.
pub fn push_text(list: &mut Vec<String>, item: &str)
    ensures
        final(list).deep_view() == old(list).deep_view().push(item@),
{
    let owned = item.to_owned();
    proof {
        lemma_deep_view_push(list@, list@.push(owned), owned);
    }
    list.push(owned);
}

/// Adds a copy of each text of `items`, in order, at the end of `list`.
pub fn push_texts(list: &mut Vec<String>, items: &Vec<String>)
    ensures
        final(list).deep_view() == old(list).deep_view() + items.deep_view(),
{
    let mut i: usize = 0;
    while i < items.len()
        invariant
            i <= items.len(),
            list.deep_view() == old(list).deep_view() + items.deep_view().take(i as int),
        decreases items.len() - i,
    {
        push_text(list, items[i].as_str());
        i = i + 1;
    }
}

} // verus!
