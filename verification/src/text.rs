//! Whitespace handling for extracted text.

use vstd::prelude::*;
use vstd::string::*;

verus! {

/// Whether a character has the Unicode `White_Space` property.
pub uninterp spec fn is_white_space(c: char) -> bool;

/// `char::is_whitespace` of the standard library: it reports exactly the
/// characters that carry the Unicode `White_Space` property.
pub assume_specification[ char::is_whitespace ](c: char) -> (b: bool)
    ensures
        b == is_white_space(c),
;

/// `String::push` of the standard library: the character is appended at the
/// end and nothing else changes.
pub assume_specification[ String::push ](s: &mut String, c: char)
    ensures
        final(s)@ == old(s)@.push(c),
;

/// `s` without its leading whitespace.
pub open spec fn trim_start(s: Seq<char>) -> Seq<char>
    decreases s.len(),
{
    if s.len() > 0 && is_white_space(s.first()) {
        trim_start(s.drop_first())
    } else {
        s
    }
}

/// `s` without its trailing whitespace.
pub open spec fn trim_end(s: Seq<char>) -> Seq<char>
    decreases s.len(),
{
    if s.len() > 0 && is_white_space(s.last()) {
        trim_end(s.drop_last())
    } else {
        s
    }
}

/// `s` without leading and trailing whitespace.
pub open spec fn trimmed(s: Seq<char>) -> Seq<char> {
    trim_end(trim_start(s))
}

/// Skipping `k` leading whitespace characters does not change what remains
/// after all leading whitespace is removed.
proof fn lemma_trim_start_skip(s: Seq<char>, k: int)
    requires
        0 <= k <= s.len(),
        forall|i: int| 0 <= i < k ==> is_white_space(#[trigger] s[i]),
    ensures
        trim_start(s) == trim_start(s.subrange(k, s.len() as int)),
    decreases k,
{
    if k == 0 {
        assert(s.subrange(0, s.len() as int) =~= s);
    } else {
        let t = s.drop_first();
        assert forall|i: int| 0 <= i < k - 1 implies is_white_space(#[trigger] t[i]) by {
            assert(t[i] == s[i + 1]);
        }
        lemma_trim_start_skip(t, k - 1);
        assert(t.subrange(k - 1, t.len() as int) =~= s.subrange(k, s.len() as int));
    }
}

/// Dropping trailing whitespace down to length `k` does not change what
/// remains after all trailing whitespace is removed.
proof fn lemma_trim_end_skip(s: Seq<char>, k: int)
    requires
        0 <= k <= s.len(),
        forall|i: int| k <= i < s.len() ==> is_white_space(#[trigger] s[i]),
    ensures
        trim_end(s) == trim_end(s.subrange(0, k)),
    decreases s.len() - k,
{
    if k == s.len() {
        assert(s.subrange(0, k) =~= s);
    } else {
        let t = s.drop_last();
        lemma_trim_end_skip(t, k);
        assert(t.subrange(0, k) =~= s.subrange(0, k));
    }
}

/// The characters of a string, in order.
pub fn chars_of(s: &str) -> (v: Vec<char>)
    ensures
        v@ == s@,
{
    let mut v: Vec<char> = Vec::new();
    for c in it: s.chars()
        invariant
            it.seq() == s@,
            v@ == s@.take(it.index() as int),
    {
        v.push(c);
    }
    assert(s@.take(s@.len() as int) =~= s@);
    v
}

/// The string made of `chars[from..to]`.
pub fn string_of(chars: &Vec<char>, from: usize, to: usize) -> (s: String)
    requires
        from <= to <= chars.len(),
    ensures
        s@ == chars@.subrange(from as int, to as int),
{
    let mut s = String::new();
    let mut i: usize = from;
    while i < to
        invariant
            from <= i <= to <= chars.len(),
            s@ == chars@.subrange(from as int, i as int),
        decreases to - i,
    {
        s.push(chars[i]);
        i += 1;
        assert(chars@.subrange(from as int, i as int) =~= chars@.subrange(
            from as int,
            i - 1,
        ).push(chars@[i - 1]));
    }
    s
}

/// Removes leading and trailing whitespace.
pub fn trim(s: &str) -> (r: String)
    ensures
        r@ == trimmed(s@),
{
    let chars = chars_of(s);
    let n = chars.len();
    let mut start: usize = 0;
    while start < n && chars[start].is_whitespace()
        invariant
            start <= n,
            n == chars.len(),
            forall|i: int| 0 <= i < start ==> is_white_space(#[trigger] chars@[i]),
        decreases n - start,
    {
        start += 1;
    }
    let mut end: usize = n;
    while end > start && chars[end - 1].is_whitespace()
        invariant
            start <= end <= n,
            n == chars.len(),
            forall|i: int| end <= i < n ==> is_white_space(#[trigger] chars@[i]),
        decreases end,
    {
        end -= 1;
    }
    proof {
        let full = chars@;
        let tail = full.subrange(start as int, n as int);
        lemma_trim_start_skip(full, start as int);
        assert(trim_start(full) == tail) by {
            if tail.len() > 0 {
                assert(tail.first() == full[start as int]);
            }
        }
        assert forall|i: int| end - start <= i < tail.len() implies is_white_space(
            #[trigger] tail[i],
        ) by {
            assert(tail[i] == full[i + start]);
        }
        lemma_trim_end_skip(tail, end - start);
        let core = tail.subrange(0, end - start);
        assert(core =~= full.subrange(start as int, end as int));
        assert(trim_end(core) == core) by {
            if core.len() > 0 {
                assert(core.last() == full[end - 1]);
            }
        }
    }
    string_of(&chars, start, end)
}

/// `a` followed by `b`.
pub fn concat2(a: &str, b: &str) -> (r: String)
    ensures
        r@ == a@ + b@,
{
    let mut r = String::from_str(a);
    r.append(b);
    r
}

/// `a`, `b` and `c` in a row.
pub fn concat3(a: &str, b: &str, c: &str) -> (r: String)
    ensures
        r@ == a@ + b@ + c@,
{
    let mut r = String::from_str(a);
    r.append(b);
    r.append(c);
    r
}

/// `a`, `b`, `c` and `d` in a row.
pub fn concat4(a: &str, b: &str, c: &str, d: &str) -> (r: String)
    ensures
        r@ == a@ + b@ + c@ + d@,
{
    let mut r = String::from_str(a);
    r.append(b);
    r.append(c);
    r.append(d);
    r
}

/// What splitting at whitespace has found after reading `s`: the words
/// that are complete, and the word still being read.
pub open spec fn split_state(s: Seq<char>) -> (Seq<Seq<char>>, Seq<char>)
    decreases s.len(),
{
    if s.len() == 0 {
        (Seq::empty(), Seq::empty())
    } else {
        let (complete, word) = split_state(s.drop_last());
        if is_white_space(s.last()) {
            if word.len() > 0 {
                (complete.push(word), Seq::empty())
            } else {
                (complete, word)
            }
        } else {
            (complete, word.push(s.last()))
        }
    }
}

/// The maximal runs of non-whitespace characters in `s`, in order.
pub open spec fn words(s: Seq<char>) -> Seq<Seq<char>> {
    let (complete, word) = split_state(s);
    if word.len() > 0 {
        complete.push(word)
    } else {
        complete
    }
}

/// The words with one space between neighbours.
pub open spec fn joined(words: Seq<Seq<char>>) -> Seq<char>
    decreases words.len(),
{
    if words.len() == 0 {
        Seq::empty()
    } else if words.len() == 1 {
        words[0]
    } else {
        joined(words.drop_last()) + seq![' '] + words.last()
    }
}

/// `s` with every run of whitespace replaced by one space, and none at
/// either end.
pub open spec fn collapsed(s: Seq<char>) -> Seq<char> {
    joined(words(s))
}

/// Appends `word` to `out` as one more word of a space-separated line.
fn push_word(out: &mut String, word: &str, Ghost(complete): Ghost<Seq<Seq<char>>>)
    requires
        old(out)@ == joined(complete),
        complete.len() > 0 ==> old(out)@.len() > 0,
        word@.len() > 0,
    ensures
        final(out)@ == joined(complete.push(word@)),
        final(out)@.len() > 0,
{
    let ghost longer = complete.push(word@);
    proof {
        assert(longer.drop_last() =~= complete);
        assert(longer.last() == word@);
    }
    if out.as_str().is_empty() {
        proof {
            if complete.len() > 0 {
                assert(false);
            }
            assert(longer[0] == word@);
            assert(Seq::<char>::empty() + word@ =~= word@);
        }
        out.append(word);
    } else {
        proof {
            if complete.len() == 0 {
                assert(joined(complete).len() == 0);
                assert(false);
            }
            assert(out@.push(' ') =~= out@ + seq![' ']);
        }
        out.push(' ');
        out.append(word);
    }
}

/// Replaces every run of whitespace by one space and drops the whitespace
/// at both ends.
pub fn collapse_whitespace(text: &str) -> (r: String)
    ensures
        r@ == collapsed(text@),
{
    let chars = chars_of(text);
    let mut out = String::new();
    let mut word = String::new();
    let ghost mut complete: Seq<Seq<char>> = Seq::empty();
    let mut i: usize = 0;
    assert(chars@.take(0) =~= Seq::<char>::empty());
    while i < chars.len()
        invariant
            i <= chars.len(),
            split_state(chars@.take(i as int)) == (complete, word@),
            out@ == joined(complete),
            complete.len() > 0 ==> out@.len() > 0,
        decreases chars.len() - i,
    {
        let c = chars[i];
        proof {
            assert(chars@.take(i + 1).drop_last() =~= chars@.take(i as int));
            assert(chars@.take(i + 1).last() == c);
        }
        if c.is_whitespace() {
            if !word.as_str().is_empty() {
                push_word(&mut out, word.as_str(), Ghost(complete));
                proof {
                    complete = complete.push(word@);
                }
                word = String::new();
            }
        } else {
            word.push(c);
        }
        i += 1;
    }
    assert(chars@.take(chars.len() as int) =~= chars@);
    if !word.as_str().is_empty() {
        push_word(&mut out, word.as_str(), Ghost(complete));
    }
    out
}

} // verus!
