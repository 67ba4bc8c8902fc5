//! Identifier case conversions used by the proto conversion code generator.

use vstd::prelude::*;

verus! {

/// What `char::to_ascii_lowercase` computes: ASCII capitals map to their
/// lower-case letter, every other character is left unchanged.
pub open spec fn ascii_lower(c: char) -> char {
    if 'A' <= c && c <= 'Z' {
        ((c as u32) + 32) as char
    } else {
        c
    }
}

/// What `char::to_ascii_uppercase` computes.
pub open spec fn ascii_upper(c: char) -> char {
    if 'a' <= c && c <= 'z' {
        ((c as u32) - 32) as char
    } else {
        c
    }
}

/// Whether a character outside ASCII has the Unicode `Uppercase` property.
pub uninterp spec fn char_is_uppercase(c: char) -> bool;

/// Whether a character is upper case: among ASCII characters exactly the
/// capitals `A` to `Z`, beyond ASCII the Unicode `Uppercase` property.
pub open spec fn upper_case(c: char) -> bool {
    if (c as u32) < 128 {
        'A' <= c && c <= 'Z'
    } else {
        char_is_uppercase(c)
    }
}

/// `char::is_uppercase` from std: the Unicode `Uppercase` property, which
/// among ASCII characters holds of the capitals `A` to `Z` and of no other.
/// What it is beyond ASCII is left to the name `char_is_uppercase`.
#[verifier::external_body]
fn is_uppercase(c: char) -> (r: bool)
    ensures
        (c as u32) < 128 ==> (r <==> ('A' <= c && c <= 'Z')),
        (c as u32) >= 128 ==> r == char_is_uppercase(c),
{
    c.is_uppercase()
}

pub assume_specification[ char::to_ascii_lowercase ](c: &char) -> (r: char)
    ensures
        r == ascii_lower(*c),
;

pub assume_specification[ char::to_ascii_uppercase ](c: &char) -> (r: char)
    ensures
        r == ascii_upper(*c),
;

/// Appends one character to a string (`String::push`).
#[verifier::external_body]
pub(crate) fn push_char(s: &mut String, c: char)
    ensures
        final(s)@ == old(s)@.push(c),
{
    s.push(c)
}

/// The snake-case form of a name: every upper-case character after the first
/// one is preceded by an underscore, and ASCII capitals become lower case.
pub open spec fn snake_case(s: Seq<char>) -> Seq<char>
    decreases s.len(),
{
    if s.len() == 0 {
        seq![]
    } else {
        let last = s.last();
        let prefix = s.drop_last();
        let sep = if prefix.len() > 0 && upper_case(last) { seq!['_'] } else { seq![] };
        snake_case(prefix) + sep + seq![ascii_lower(last)]
    }
}

/// Converts `FooBar` into `foo_bar`.
pub fn to_snake_case(input: &str) -> (snake: String)
    ensures
        snake@ == snake_case(input@),
{
    broadcast use vstd::string::group_string_axioms;
    let mut snake = String::new();
    let mut first = true;
    for ch in it: input.chars()
        invariant
            it.seq() == input@,
            first == (it.index() == 0),
            snake@ == snake_case(input@.take(it.index() as int)),
    {
        let ghost k = it.index();
        assert(input@.take(k + 1).drop_last() == input@.take(k as int));
        if !first && is_uppercase(ch) {
            push_char(&mut snake, '_');
        }
        push_char(&mut snake, ch.to_ascii_lowercase());
        first = false;
        assert(snake@ == snake_case(input@.take(k + 1)));
    }
    assert(input@.take(input@.len() as int) == input@);
    snake
}

/// The pascal-case conversion after reading `s`: the text produced so far and
/// whether the next character starts a new word.
pub open spec fn pascal_scan(s: Seq<char>) -> (Seq<char>, bool)
    decreases s.len(),
{
    if s.len() == 0 {
        (seq![], true)
    } else {
        let (out, capitalize) = pascal_scan(s.drop_last());
        let ch = s.last();
        if ch == '_' {
            (out, true)
        } else if capitalize {
            (out.push(ascii_upper(ch)), false)
        } else {
            (out.push(ch), false)
        }
    }
}

/// The pascal-case form of a name: underscores are dropped and the character
/// after each of them, and the first one, become ASCII capitals.
pub open spec fn pascal_case(s: Seq<char>) -> Seq<char> {
    pascal_scan(s).0
}

/// Converts `foo_bar` into `FooBar`.
pub fn to_pascal_case(input: &str) -> (pascal: String)
    ensures
        pascal@ == pascal_case(input@),
{
    broadcast use vstd::string::group_string_axioms;
    let mut pascal = String::new();
    let mut capitalize = true;
    for ch in it: input.chars()
        invariant
            it.seq() == input@,
            (pascal@, capitalize) == pascal_scan(input@.take(it.index() as int)),
    {
        let ghost k = it.index();
        assert(input@.take(k + 1).drop_last() == input@.take(k as int));
        if ch == '_' {
            capitalize = true;
        } else if capitalize {
            push_char(&mut pascal, ch.to_ascii_uppercase());
            capitalize = false;
        } else {
            push_char(&mut pascal, ch);
        }
    }
    assert(input@.take(input@.len() as int) == input@);
    pascal
}

/// Whether a name is in pascal case with ASCII capitals only: it starts
/// with a capital, holds no underscore, and its upper-case characters are
/// exactly its ASCII capitals.
pub open spec fn plain_pascal_name(s: Seq<char>) -> bool {
    &&& s.len() > 0
    &&& 'A' <= s[0] && s[0] <= 'Z'
    &&& forall|i: int| 0 <= i < s.len() ==> #[trigger] s[i] != '_'
    &&& forall|i: int| 0 <= i < s.len() ==> (upper_case(#[trigger] s[i]) <==> ('A' <= s[i] && s[i] <= 'Z'))
}

proof fn lemma_scan_of_snake(s: Seq<char>)
    requires
        plain_pascal_name(s),
    ensures
        pascal_scan(snake_case(s)) == (s, false),
    decreases s.len(),
{
    let last = s.last();
    let prefix = s.drop_last();
    assert(s[s.len() - 1] == last);
    if prefix.len() == 0 {
        assert(snake_case(prefix) == Seq::<char>::empty());
        assert(snake_case(s) == seq![ascii_lower(last)]);
        assert(seq![ascii_lower(last)].drop_last() == Seq::<char>::empty());
        assert(ascii_upper(ascii_lower(last)) == last);
        assert(pascal_scan(Seq::<char>::empty()) == (Seq::<char>::empty(), true));
        assert(pascal_scan(seq![ascii_lower(last)]) == (Seq::<char>::empty().push(last), false));
        assert(s == seq![last]);
    } else {
        assert forall|i: int| 0 <= i < prefix.len() implies #[trigger] prefix[i] != '_' by {
            assert(prefix[i] == s[i]);
        }
        assert forall|i: int| 0 <= i < prefix.len() implies (upper_case(#[trigger] prefix[i]) <==> ('A'
            <= prefix[i] && prefix[i] <= 'Z')) by {
            assert(prefix[i] == s[i]);
        }
        assert(prefix[0] == s[0]);
        lemma_scan_of_snake(prefix);
        let sp = snake_case(prefix);
        if upper_case(last) {
            assert(snake_case(s) == sp + seq!['_'] + seq![ascii_lower(last)]);
            let t = sp.push('_').push(ascii_lower(last));
            assert(sp + seq!['_'] + seq![ascii_lower(last)] == t);
            assert(t.drop_last() == sp.push('_'));
            assert(sp.push('_').drop_last() == sp);
            assert(ascii_upper(ascii_lower(last)) == last);
            assert(pascal_scan(sp.push('_')) == (prefix, true));
            assert(pascal_scan(t) == (prefix.push(last), false));
        } else {
            assert(snake_case(s) == sp + seq![] + seq![ascii_lower(last)]);
            let t = sp.push(ascii_lower(last));
            assert(sp + seq![] + seq![ascii_lower(last)] == t);
            assert(t.drop_last() == sp);
            assert(ascii_lower(last) == last);
            assert(last != '_');
            assert(pascal_scan(t) == (prefix.push(last), false));
        }
        assert(prefix.push(last) == s);
    }
}

/// Converting a plain pascal-case name to snake case and back gives the
/// name again.
pub proof fn lemma_pascal_of_snake(s: Seq<char>)
    requires
        plain_pascal_name(s),
    ensures
        pascal_case(snake_case(s)) == s,
{
    lemma_scan_of_snake(s);
}

/// Whether a character may stand in a snake-case name: an ASCII lower-case
/// letter, a digit or an underscore.
pub open spec fn snake_char(c: char) -> bool {
    ('a' <= c && c <= 'z') || ('0' <= c && c <= '9') || c == '_'
}

/// Whether `s` is the beginning of a snake-case name: it starts with a
/// lower-case letter, holds snake-case characters only, and each underscore
/// but a last one is followed by a lower-case letter.
pub open spec fn snake_prefix(s: Seq<char>) -> bool {
    &&& s.len() > 0 ==> 'a' <= s[0] && s[0] <= 'z'
    &&& forall|i: int| 0 <= i < s.len() ==> snake_char(#[trigger] s[i])
    &&& forall|i: int| 0 <= i < s.len() - 1 && #[trigger] s[i] == '_' ==> 'a' <= s[i + 1] && s[i + 1] <= 'z'
}

/// Whether `s` is a snake-case name that pascal case can carry: a non-empty
/// beginning of a snake-case name that does not end in an underscore.
pub open spec fn plain_snake_name(s: Seq<char>) -> bool {
    &&& s.len() > 0
    &&& snake_prefix(s)
    &&& s.last() != '_'
}

proof fn lemma_snake_of_scan(t: Seq<char>)
    requires
        snake_prefix(t),
    ensures
        t.len() == 0 ==> pascal_scan(t) == (Seq::<char>::empty(), true),
        t.len() > 0 ==> pascal_scan(t).0.len() > 0,
        t.len() > 0 && t.last() == '_' ==> pascal_scan(t).1 && snake_case(pascal_scan(t).0) == t.drop_last(),
        t.len() > 0 && t.last() != '_' ==> !pascal_scan(t).1 && snake_case(pascal_scan(t).0) == t,
    decreases t.len(),
{
    if t.len() > 0 {
        let p = t.drop_last();
        let c = t.last();
        assert(t[t.len() - 1] == c);
        assert(snake_char(c));
        assert forall|i: int| 0 <= i < p.len() implies snake_char(#[trigger] p[i]) by {
            assert(p[i] == t[i]);
        }
        assert forall|i: int| 0 <= i < p.len() - 1 && #[trigger] p[i] == '_' implies 'a' <= p[i + 1] && p[i
            + 1] <= 'z' by {
            assert(p[i] == t[i]);
            assert(p[i + 1] == t[i + 1]);
        }
        if p.len() > 0 {
            assert(p[0] == t[0]);
        }
        lemma_snake_of_scan(p);
        let (out_p, cap_p) = pascal_scan(p);
        if p.len() == 0 {
            assert('a' <= c && c <= 'z') by {
                assert(t[0] == c);
            }
            let u = ascii_upper(c);
            assert(pascal_scan(t) == (Seq::<char>::empty().push(u), false));
            let out = seq![u];
            assert(Seq::<char>::empty().push(u) == out);
            assert(out.drop_last() == Seq::<char>::empty());
            assert(out.last() == u);
            assert(ascii_lower(u) == c);
            assert(out.drop_last().len() == 0);
            assert(snake_case(out.drop_last()) == Seq::<char>::empty());
            assert(snake_case(out) =~= seq![c]);
            assert(t =~= seq![c]);
        } else if c == '_' {
            let j = p.len() - 1;
            assert(p.last() != '_') by {
                assert(p.last() == t[j]);
                assert(t[j + 1] == c);
            }
        } else if p.last() == '_' {
            let j = p.len() - 1;
            assert('a' <= c && c <= 'z') by {
                assert(p.last() == t[j]);
                assert(t[j] == '_');
                assert(t[j + 1] == c);
            }
            let u = ascii_upper(c);
            let out = out_p.push(u);
            assert(pascal_scan(t) == (out, false));
            assert(out.drop_last() == out_p);
            assert(out.last() == u);
            assert(upper_case(u));
            assert(ascii_lower(u) == c);
            assert(snake_case(out) == snake_case(out_p) + seq!['_'] + seq![c]);
            assert(p.drop_last() + seq!['_'] + seq![c] == t) by {
                assert(p.drop_last().push('_') == p);
                assert(p.push(c) == t);
            }
        } else {
            let out = out_p.push(c);
            assert(pascal_scan(t) == (out, false));
            assert(out.drop_last() == out_p);
            assert(out.last() == c);
            assert(!upper_case(c));
            assert(ascii_lower(c) == c);
            assert(snake_case(out) == snake_case(out_p) + seq![] + seq![c]);
            assert(p + seq![] + seq![c] == t) by {
                assert(p.push(c) == t);
            }
        }
    }
}

/// Converting a snake-case name to pascal case and back gives the name
/// again.
pub proof fn lemma_snake_of_pascal(s: Seq<char>)
    requires
        plain_snake_name(s),
    ensures
        snake_case(pascal_case(s)) == s,
{
    lemma_snake_of_scan(s);
}

} // verus!
