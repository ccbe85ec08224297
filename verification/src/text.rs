use vstd::prelude::*;

verus! {

/// Compares two string slices character by character.
pub fn str_equal(a: &str, b: &str) -> (equal: bool)
    ensures
        equal == (a@ == b@),
{
    let n = a.unicode_len();
    if n != b.unicode_len() {
        return false;
    }
    let mut i: usize = 0;
    while i < n
        invariant
            n == a@.len(),
            n == b@.len(),
            0 <= i <= n,
            forall|k: int| 0 <= k < i ==> a@[k] == b@[k],
        decreases n - i,
    {
        if a.get_char(i) != b.get_char(i) {
            return false;
        }
        i += 1;
    }
    assert(a@ =~= b@);
    true
}

/// The characters of a string slice, in order.
pub fn chars_of(s: &str) -> (chars: Vec<char>)
    ensures
        chars@ == s@,
{
    broadcast use vstd::string::group_string_axioms;
    let mut chars: Vec<char> = Vec::new();
    for c in it: s.chars()
        invariant
            chars@ == it.seq().take(it.index()),
    {
        chars.push(c);
        assert(chars@ =~= it.seq().take(it.index() + 1));
    }
    assert(chars@ =~= s@);
    chars
}

/// `s` with every occurrence of `from` replaced by `to`: occurrences are
/// taken from the left and do not overlap; an empty `from` matches before
/// every character and at the end.
pub open spec fn replaced(s: Seq<char>, from: Seq<char>, to: Seq<char>) -> Seq<char>
    decreases s.len(),
{
    if from.len() == 0 {
        if s.len() == 0 {
            to
        } else {
            to + seq![s[0]] + replaced(s.drop_first(), from, to)
        }
    } else if s.len() < from.len() {
        s
    } else if s.take(from.len() as int) == from {
        to + replaced(s.skip(from.len() as int), from, to)
    } else {
        seq![s[0]] + replaced(s.drop_first(), from, to)
    }
}

/// `String::push`: appends one character.
#[verifier::external_body]
pub(crate) fn push_char(s: &mut String, c: char)
    ensures
        final(s)@ == old(s)@.push(c),
{
    s.push(c);
}

/// Whether `pattern` occurs in `text` at position `at`.
fn occurs_at(text: &Vec<char>, at: usize, pattern: &Vec<char>) -> (found: bool)
    requires
        at + pattern@.len() <= text@.len(),
    ensures
        found == (text@.subrange(at as int, at + pattern@.len()) == pattern@),
{
    let m = pattern.len();
    let mut k: usize = 0;
    while k < m
        invariant
            m == pattern@.len(),
            at + m <= text.len(),
            0 <= k <= m,
            forall|j: int| 0 <= j < k ==> text@[at + j] == pattern@[j],
        decreases m - k,
    {
        if text[at + k] != pattern[k] {
            assert(text@.subrange(at as int, at + m)[k as int] != pattern@[k as int]);
            return false;
        }
        k += 1;
    }
    assert(text@.subrange(at as int, at + m) =~= pattern@);
    true
}

/// `str::replace`: every occurrence of `from` in `s` replaced by `to`.
pub fn replace_all(s: &str, from: &str, to: &str) -> (result: String)
    ensures
        result@ == replaced(s@, from@, to@),
{
    let text = chars_of(s);
    let pattern = chars_of(from);
    let n = text.len();
    let m = pattern.len();
    let mut out = String::new();
    let mut i: usize = 0;
    assert(text@.skip(0) =~= text@);
    if m == 0 {
        while i < n
            invariant
                n == text@.len(),
                m == pattern@.len(),
                m == 0,
                0 <= i <= n,
                out@ + replaced(text@.skip(i as int), pattern@, to@) == replaced(
                    text@,
                    pattern@,
                    to@,
                ),
            decreases n - i,
        {
            let ghost before = out@;
            assert(text@.skip(i as int).drop_first() =~= text@.skip(i + 1));
            assert(text@.skip(i as int)[0] == text@[i as int]);
            out.append(to);
            push_char(&mut out, text[i]);
            assert(before + (to@ + seq![text@[i as int]] + replaced(
                text@.skip(i + 1),
                pattern@,
                to@,
            )) =~= out@ + replaced(text@.skip(i + 1), pattern@, to@));
            i += 1;
        }
        assert(text@.skip(n as int).len() == 0);
        out.append(to);
        return out;
    }
    while i < n
        invariant
            n == text@.len(),
            m == pattern@.len(),
            m > 0,
            0 <= i <= n,
            out@ + replaced(text@.skip(i as int), pattern@, to@) == replaced(
                text@,
                pattern@,
                to@,
            ),
        decreases n - i,
    {
        let ghost before = out@;
        let ghost rest = text@.skip(i as int);
        if m <= n - i && occurs_at(&text, i, &pattern) {
            assert(rest.take(m as int) =~= text@.subrange(i as int, i + m));
            assert(rest.skip(m as int) =~= text@.skip(i + m));
            out.append(to);
            assert(before + (to@ + replaced(text@.skip(i + m), pattern@, to@)) =~= out@
                + replaced(text@.skip(i + m), pattern@, to@));
            i += m;
        } else {
            assert(rest.drop_first() =~= text@.skip(i + 1));
            assert(rest[0] == text@[i as int]);
            if m <= n - i {
                assert(rest.take(m as int) =~= text@.subrange(i as int, i + m));
                assert(replaced(rest, pattern@, to@) == seq![text@[i as int]] + replaced(
                    text@.skip(i + 1),
                    pattern@,
                    to@,
                ));
            } else {
                assert(replaced(rest, pattern@, to@) == rest);
                assert(replaced(text@.skip(i + 1), pattern@, to@) == text@.skip(i + 1));
                assert(rest =~= seq![text@[i as int]] + text@.skip(i + 1));
            }
            push_char(&mut out, text[i]);
            assert(before + (seq![text@[i as int]] + replaced(text@.skip(i + 1), pattern@, to@))
                =~= out@ + replaced(text@.skip(i + 1), pattern@, to@));
            i += 1;
        }
    }
    assert(text@.skip(n as int).len() == 0);
    assert(out@ =~= out@ + replaced(text@.skip(n as int), pattern@, to@));
    out
}

/// Whether `pattern` occurs in `s` at position `at`.
pub open spec fn occurs(s: Seq<char>, pattern: Seq<char>, at: int) -> bool {
    0 <= at && at + pattern.len() <= s.len() && s.subrange(at, at + pattern.len()) == pattern
}

/// Replacing a pattern that does not occur leaves the text as it is.
pub proof fn lemma_replace_absent(s: Seq<char>, from: Seq<char>, to: Seq<char>)
    requires
        from.len() > 0,
        forall|i: int| !#[trigger] occurs(s, from, i),
    ensures
        replaced(s, from, to) == s,
    decreases s.len(),
{
    if s.len() >= from.len() {
        assert(s.take(from.len() as int) =~= s.subrange(0, from.len() as int));
        let rest = s.drop_first();
        assert(!occurs(s, from, 0));
        assert forall|i: int| !#[trigger] occurs(rest, from, i) by {
            if 0 <= i && i + from.len() <= rest.len() {
                assert(rest.subrange(i, i + from.len()) =~= s.subrange(i + 1, i + 1 + from.len()));
                assert(!occurs(s, from, i + 1));
            }
        }
        lemma_replace_absent(rest, from, to);
        assert(s =~= seq![s[0]] + rest);
    }
}

/// Replacing a pattern by itself leaves the text as it is.
pub proof fn lemma_replace_same(s: Seq<char>, pattern: Seq<char>)
    requires
        pattern.len() > 0,
    ensures
        replaced(s, pattern, pattern) == s,
    decreases s.len(),
{
    if s.len() >= pattern.len() {
        if s.take(pattern.len() as int) == pattern {
            lemma_replace_same(s.skip(pattern.len() as int), pattern);
            assert(s =~= s.take(pattern.len() as int) + s.skip(pattern.len() as int));
        } else {
            lemma_replace_same(s.drop_first(), pattern);
            assert(s =~= seq![s[0]] + s.drop_first());
        }
    }
}

/// `char::from_u32`: the character with the given scalar value, if there
/// is one (none for surrogates and values above 0x10FFFF).
#[verifier::external_body]
pub(crate) fn char_from_code(code: u32) -> (c: Option<char>)
    ensures
        c is Some <==> (code < 0xD800 || (0xE000 <= code && code <= 0x10FFFF)),
        c matches Some(ch) ==> ch as u32 == code && ch == code as char,
{
    char::from_u32(code)
}

/// Text at none of whose places `from` starts comes through a replacement
/// unchanged, ahead of the replaced rest.
pub proof fn lemma_replace_keeps_prefix(x: Seq<char>, z: Seq<char>, from: Seq<char>, to: Seq<char>)
    requires
        from.len() > 0,
        forall|k: int| 0 <= k < x.len() ==> !#[trigger] occurs(x + z, from, k),
    ensures
        replaced(x + z, from, to) == x + replaced(z, from, to),
    decreases x.len(),
{
    let s = x + z;
    if x.len() == 0 {
        assert(s =~= z);
        assert(x + replaced(z, from, to) =~= replaced(z, from, to));
    } else {
        assert(!occurs(s, from, 0));
        let x1 = x.drop_first();
        assert(s.drop_first() =~= x1 + z);
        assert forall|k: int| 0 <= k < x1.len() implies !#[trigger] occurs(x1 + z, from, k) by {
            assert(!occurs(s, from, k + 1));
            if k + from.len() <= (x1 + z).len() {
                assert((x1 + z).subrange(k, k + from.len()) =~= s.subrange(
                    k + 1,
                    k + 1 + from.len(),
                ));
            }
        }
        lemma_replace_keeps_prefix(x1, z, from, to);
        if s.len() < from.len() {
            assert(replaced(s, from, to) == s);
            assert(replaced(x1 + z, from, to) == x1 + z);
            assert(s =~= seq![s[0]] + (x1 + z));
            assert(x + replaced(z, from, to) =~= seq![x[0]] + (x1 + replaced(z, from, to)));
        } else {
            assert(s.take(from.len() as int) =~= s.subrange(0, from.len() as int));
            assert(replaced(s, from, to) == seq![s[0]] + replaced(x1 + z, from, to));
            assert(x + replaced(z, from, to) =~= seq![x[0]] + (x1 + replaced(z, from, to)));
        }
    }
}

/// A text that starts with the pattern starts, once replaced, with the
/// replacement.
pub proof fn lemma_replace_at_start(pattern: Seq<char>, y: Seq<char>, to: Seq<char>)
    requires
        pattern.len() > 0,
    ensures
        replaced(pattern + y, pattern, to) == to + replaced(y, pattern, to),
{
    assert((pattern + y).take(pattern.len() as int) =~= pattern);
    assert((pattern + y).skip(pattern.len() as int) =~= y);
}

} // verus!
