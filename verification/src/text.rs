//! Character-level helpers shared by the parser and the route builders.

use vstd::prelude::*;

verus! {

/// Trusted: `String::push` of the standard library appends the given
/// character to the end of the string and changes nothing else of it.
pub assume_specification[ String::push ](s: &mut String, ch: char)
    ensures
        final(s)@ == old(s)@.push(ch),
;

/// The characters of `s`, in order.
pub fn to_chars(s: &str) -> (chars: Vec<char>)
    ensures
        chars@ == s@,
{
    let mut chars: Vec<char> = Vec::new();
    for c in it: s.chars()
        invariant
            chars@ == it.seq().take(it.index() as int),
            it.seq() == s@,
    {
        chars.push(c);
    }
    chars
}

/// The string spelled by `chars[from..to]`.
pub fn to_string(chars: &Vec<char>, from: usize, to: usize) -> (s: String)
    requires
        from <= to <= chars.len(),
    ensures
        s@ == chars@.subrange(from as int, to as int),
{
    let mut s = String::new();
    let mut i: usize = from;
    while i < to
        invariant
            from <= i <= to <= chars.len(),
            s@ == chars@.subrange(from as int, i as int),
        decreases to - i,
    {
        s.push(chars[i]);
        i += 1;
    }
    s
}

/// Whether `c` occurs in `s`.
pub open spec fn has_char(s: Seq<char>, c: char) -> bool {
    exists|i: int| 0 <= i < s.len() && s[i] == c
}

/// Tells whether `c` occurs in `s`.
pub fn contains_char(s: &str, c: char) -> (found: bool)
    ensures
        found == has_char(s@, c),
{
    let chars = to_chars(s);
    let mut i: usize = 0;
    while i < chars.len()
        invariant
            i <= chars.len(),
            chars@ == s@,
            forall|j: int| 0 <= j < i ==> chars@[j] != c,
        decreases chars.len() - i,
    {
        if chars[i] == c {
            return true;
        }
        i += 1;
    }
    false
}

/// Index of the first `c` in `s`, or `s.len()` when `s` holds none.
pub open spec fn index_of(s: Seq<char>, c: char) -> int
    decreases s.len(),
{
    if s.len() == 0 || s[0] == c {
        0
    } else {
        1 + index_of(s.drop_first(), c)
    }
}

/// `index_of` lies within the text, nothing before it is `c`, and where it
/// lies before the end it is at a `c`.
pub proof fn lemma_index_of(s: Seq<char>, c: char)
    ensures
        0 <= index_of(s, c) <= s.len(),
        forall|j: int| 0 <= j < index_of(s, c) ==> s[j] != c,
        index_of(s, c) < s.len() ==> s[index_of(s, c)] == c,
        index_of(s, c) == s.len() <==> !has_char(s, c),
    decreases s.len(),
{
    if s.len() == 0 || s[0] == c {
    } else {
        let rest = s.drop_first();
        lemma_index_of(rest, c);
        assert forall|j: int| 0 <= j < index_of(s, c) implies s[j] != c by {
            if j > 0 {
                assert(s[j] == rest[j - 1]);
            }
        }
        if has_char(s, c) {
            let i = choose|i: int| 0 <= i < s.len() && s[i] == c;
            assert(rest[i - 1] == c);
        }
    }
}

/// The one position that `lemma_index_of` describes is `index_of`.
pub proof fn lemma_index_of_is(s: Seq<char>, c: char, at: int)
    requires
        0 <= at <= s.len(),
        forall|j: int| 0 <= j < at ==> s[j] != c,
        at < s.len() ==> s[at] == c,
    ensures
        index_of(s, c) == at,
{
    lemma_index_of(s, c);
}

/// The position of the first `c` at or after `from`, or the length of
/// `chars` when there is none.
pub fn find_char(chars: &Vec<char>, from: usize, c: char) -> (at: usize)
    requires
        from <= chars.len(),
    ensures
        at == from + index_of(chars@.skip(from as int), c),
        from <= at <= chars.len(),
{
    let mut at: usize = from;
    while at < chars.len() && chars[at] != c
        invariant
            from <= at <= chars.len(),
            forall|j: int| from <= j < at ==> chars@[j] != c,
        decreases chars.len() - at,
    {
        at += 1;
    }
    proof {
        lemma_index_of_is(chars@.skip(from as int), c, at - from);
    }
    at
}

/// Whether `pattern` stands in `s` at position `at`.
pub open spec fn occurs_at(s: Seq<char>, pattern: Seq<char>, at: int) -> bool {
    0 <= at && at + pattern.len() <= s.len() && s.subrange(at, at + pattern.len()) == pattern
}

/// Whether `pattern` stands somewhere in `s`.
pub open spec fn occurs(s: Seq<char>, pattern: Seq<char>) -> bool {
    exists|at: int| occurs_at(s, pattern, at)
}

/// Tells whether `pattern` stands in `chars` at position `at`.
pub fn matches_at(chars: &Vec<char>, pattern: &Vec<char>, at: usize) -> (found: bool)
    requires
        at + pattern.len() <= chars.len(),
    ensures
        found == occurs_at(chars@, pattern@, at as int),
{
    let mut k: usize = 0;
    while k < pattern.len()
        invariant
            k <= pattern.len(),
            at + pattern.len() <= chars.len(),
            forall|j: int| 0 <= j < k ==> chars@[at + j] == pattern@[j],
        decreases pattern.len() - k,
    {
        if chars[at + k] != pattern[k] {
            assert(chars@.subrange(at as int, at + pattern.len())[k as int] != pattern@[k as int]);
            return false;
        }
        k += 1;
    }
    assert(chars@.subrange(at as int, at + pattern.len()) =~= pattern@);
    true
}

/// Tells whether `pattern` stands somewhere in `chars` at or after `from`.
pub fn contains_text(chars: &Vec<char>, from: usize, pattern: &Vec<char>) -> (found: bool)
    requires
        from <= chars.len(),
    ensures
        found == occurs(chars@.skip(from as int), pattern@),
{
    let ghost tail = chars@.skip(from as int);
    if pattern.len() == 0 {
        assert(tail.subrange(0, 0) =~= pattern@);
        assert(occurs_at(tail, pattern@, 0));
        return true;
    }
    let mut at: usize = from;
    while pattern.len() <= chars.len() - at
        invariant
            from <= at <= chars.len(),
            0 < pattern.len(),
            tail == chars@.skip(from as int),
            forall|a: int| 0 <= a < at - from ==> !occurs_at(tail, pattern@, a),
        decreases chars.len() - at,
    {
        let here = matches_at(chars, pattern, at);
        assert(tail.subrange(at - from, at - from + pattern.len()) =~= chars@.subrange(
            at as int,
            at + pattern.len(),
        ));
        if here {
            assert(occurs_at(tail, pattern@, at - from));
            return true;
        }
        at += 1;
    }
    false
}

/// The pieces of `s` between occurrences of `sep`, in order. A text without
/// `sep` is one piece; two separators in a row enclose an empty piece.
pub open spec fn split(s: Seq<char>, sep: char) -> Seq<Seq<char>>
    decreases s.len(),
{
    let at = index_of(s, sep);
    if 0 <= at < s.len() {
        seq![s.take(at)] + split(s.skip(at + 1), sep)
    } else {
        seq![s]
    }
}

/// The texts of a list of character vectors.
pub open spec fn texts(pieces: Seq<Vec<char>>) -> Seq<Seq<char>> {
    pieces.map_values(|piece: Vec<char>| piece@)
}

/// Cuts `chars` at every `sep`.
pub fn split_chars(chars: &Vec<char>, sep: char) -> (pieces: Vec<Vec<char>>)
    ensures
        texts(pieces@) == split(chars@, sep),
{
    let mut pieces: Vec<Vec<char>> = Vec::new();
    let mut piece: Vec<char> = Vec::new();
    let ghost mut start: int = 0;
    let mut i: usize = 0;
    assert(chars@.skip(0) =~= chars@);
    assert(texts(pieces@) + split(chars@.skip(0), sep) =~= split(chars@, sep));
    while i < chars.len()
        invariant
            0 <= start <= i <= chars.len(),
            piece@ == chars@.subrange(start, i as int),
            forall|j: int| start <= j < i ==> chars@[j] != sep,
            split(chars@, sep) == texts(pieces@) + split(chars@.skip(start), sep),
        decreases chars.len() - i,
    {
        let c = chars[i];
        if c == sep {
            proof {
                let tail = chars@.skip(start);
                lemma_index_of_is(tail, sep, i - start);
                assert(tail.take(i - start) =~= piece@);
                assert(tail.skip(i - start + 1) =~= chars@.skip(i + 1));
                assert(texts(pieces@.push(piece)) =~= texts(pieces@).push(piece@));
                assert(texts(pieces@).push(piece@) + split(chars@.skip(i + 1), sep) =~= texts(
                    pieces@,
                ) + (seq![piece@] + split(chars@.skip(i + 1), sep)));
                start = i + 1;
            }
            pieces.push(piece);
            piece = Vec::new();
            assert(piece@ =~= chars@.subrange(start, i + 1));
        } else {
            piece.push(c);
            assert(piece@ =~= chars@.subrange(start, i + 1));
        }
        i += 1;
    }
    proof {
        let tail = chars@.skip(start);
        lemma_index_of_is(tail, sep, tail.len() as int);
        assert(tail =~= piece@);
        assert(texts(pieces@.push(piece)) =~= texts(pieces@).push(piece@));
        assert(texts(pieces@).push(piece@) =~= texts(pieces@) + seq![piece@]);
    }
    pieces.push(piece);
    pieces
}

/// `template` with every occurrence of `placeholder` replaced by `value`,
/// taking occurrences from the left and never inside a replacement. An
/// empty placeholder occurs nowhere.
pub open spec fn substitute(template: Seq<char>, placeholder: Seq<char>, value: Seq<char>) -> Seq<
    char,
>
    decreases template.len(),
{
    if template.len() == 0 {
        template
    } else if placeholder.len() > 0 && occurs_at(template, placeholder, 0) {
        value + substitute(template.skip(placeholder.len() as int), placeholder, value)
    } else {
        seq![template[0]] + substitute(template.drop_first(), placeholder, value)
    }
}

/// Writes `template` with every occurrence of `placeholder` replaced by
/// `value`.
pub fn fill(template: &str, placeholder: &str, value: &str) -> (filled: String)
    ensures
        filled@ == substitute(template@, placeholder@, value@),
{
    let text = to_chars(template);
    let hole = to_chars(placeholder);
    let mut filled = String::new();
    let mut i: usize = 0;
    assert(text@.skip(0) =~= text@);
    assert(filled@ + substitute(text@, hole@, value@) =~= substitute(text@, hole@, value@));
    while i < text.len()
        invariant
            i <= text.len(),
            text@ == template@,
            hole@ == placeholder@,
            substitute(text@, hole@, value@) == filled@ + substitute(
                text@.skip(i as int),
                hole@,
                value@,
            ),
        decreases text.len() - i,
    {
        let ghost tail = text@.skip(i as int);
        let ghost before = filled@;
        let fits = 0 < hole.len() && hole.len() <= text.len() - i;
        let here = fits && matches_at(&text, &hole, i);
        proof {
            if fits {
                assert(tail.subrange(0, hole.len() as int) =~= text@.subrange(
                    i as int,
                    i + hole.len(),
                ));
            }
            assert(here == (hole.len() > 0 && occurs_at(tail, hole@, 0)));
        }
        if here {
            push_text(&mut filled, value);
            proof {
                assert(tail.skip(hole.len() as int) =~= text@.skip(i + hole.len()));
                assert(before + (value@ + substitute(text@.skip(i + hole.len()), hole@, value@))
                    =~= filled@ + substitute(text@.skip(i + hole.len()), hole@, value@));
            }
            i += hole.len();
        } else {
            filled.push(text[i]);
            proof {
                assert(tail.drop_first() =~= text@.skip(i + 1));
                assert(before + (seq![tail[0]] + substitute(text@.skip(i + 1), hole@, value@))
                    =~= filled@ + substitute(text@.skip(i + 1), hole@, value@));
            }
            i += 1;
        }
    }
    assert(filled@ + Seq::<char>::empty() =~= filled@);
    filled
}

/// The character that writes the digit `d` (below ten) in base ten.
pub open spec fn digit(d: nat) -> char {
    if d == 0 {
        '0'
    } else if d == 1 {
        '1'
    } else if d == 2 {
        '2'
    } else if d == 3 {
        '3'
    } else if d == 4 {
        '4'
    } else if d == 5 {
        '5'
    } else if d == 6 {
        '6'
    } else if d == 7 {
        '7'
    } else if d == 8 {
        '8'
    } else {
        '9'
    }
}

/// `n` written in base ten, without sign or leading zeros.
pub open spec fn decimal(n: nat) -> Seq<char>
    decreases n,
{
    if n < 10 {
        seq![digit(n)]
    } else {
        decimal(n / 10).push(digit(n % 10))
    }
}

/// The character for one decimal digit.
pub fn digit_char(d: u64) -> (c: char)
    requires
        d < 10,
    ensures
        c == digit(d as nat),
{
    if d == 0 {
        '0'
    } else if d == 1 {
        '1'
    } else if d == 2 {
        '2'
    } else if d == 3 {
        '3'
    } else if d == 4 {
        '4'
    } else if d == 5 {
        '5'
    } else if d == 6 {
        '6'
    } else if d == 7 {
        '7'
    } else if d == 8 {
        '8'
    } else {
        '9'
    }
}

/// Appends `n`, written in base ten, to `out`.
pub fn push_decimal(out: &mut String, n: u64)
    ensures
        final(out)@ == old(out)@ + decimal(n as nat),
    decreases n,
{
    if n >= 10 {
        push_decimal(out, n / 10);
    }
    out.push(digit_char(n % 10));
}

/// Appends the text of `piece` to `out`.
pub fn push_text(out: &mut String, piece: &str)
    ensures
        final(out)@ == old(out)@ + piece@,
{
    let chars = to_chars(piece);
    let mut i: usize = 0;
    while i < chars.len()
        invariant
            i <= chars.len(),
            chars@ == piece@,
            out@ == old(out)@ + chars@.take(i as int),
        decreases chars.len() - i,
    {
        out.push(chars[i]);
        i += 1;
    }
}

} // verus!
