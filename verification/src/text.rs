//! Text helpers over characters.

use vstd::prelude::*;
use vstd::string::*;

verus! {

/// Whether two texts are equal.
pub fn same_text(a: &str, b: &str) -> (r: bool)
    ensures
        r == (a@ == b@),
{
    let n: usize = a.unicode_len();
    if n != b.unicode_len() {
        return false;
    }
    let mut i: usize = 0;
    while i < n
        invariant
            n == a@.len(),
            n == b@.len(),
            i <= n,
            forall|j: int| 0 <= j < i ==> a@[j] == b@[j],
        decreases n - i,
    {
        if a.get_char(i) != b.get_char(i) {
            return false;
        }
        i = i + 1;
    }
    assert(a@ =~= b@);
    true
}

/// The decimal digits of a number.
pub open spec fn decimal(n: nat) -> Seq<char>
    decreases n,
{
    if n < 10 {
        seq!["0123456789"@[n as int]]
    } else {
        decimal(n / 10).push("0123456789"@[(n % 10) as int])
    }
}

/// Appends the decimal digits of a number.
pub fn push_decimal(text: &mut String, n: u8)
    ensures
        final(text)@ == old(text)@ + decimal(n as nat),
    decreases n,
{
    proof {
        reveal_strlit("0123456789");
    }
    if n >= 10 {
        push_decimal(text, n / 10);
    }
    let digit: usize = (n % 10) as usize;
    text.append("0123456789".substring_char(digit, digit + 1));
    assert(text@ =~= old(text)@ + decimal(n as nat));
}

/// The characters of a text.
pub fn chars_of(s: &str) -> (chars: Vec<char>)
    ensures
        chars@ == s@,
{
    let mut chars: Vec<char> = Vec::new();
    for c in it: s.chars()
        invariant
            chars@ == it.seq().take(it.index()),
            it.seq() == s@,
    {
        chars.push(c);
    }
    assert(chars@ =~= s@);
    chars
}

/// Characters with the Unicode property `White_Space`.
pub open spec fn white_space(c: char) -> bool {
    ||| 0x9 <= c as u32 <= 0xD
    ||| c as u32 == 0x20
    ||| c as u32 == 0x85
    ||| c as u32 == 0xA0
    ||| c as u32 == 0x1680
    ||| 0x2000 <= c as u32 <= 0x200A
    ||| c as u32 == 0x2028
    ||| c as u32 == 0x2029
    ||| c as u32 == 0x202F
    ||| c as u32 == 0x205F
    ||| c as u32 == 0x3000
}

fn is_white_space(c: char) -> (r: bool)
    ensures
        r == white_space(c),
{
    let n: u32 = c as u32;
    (0x9 <= n && n <= 0xD) || n == 0x20 || n == 0x85 || n == 0xA0 || n == 0x1680 || (0x2000 <= n
        && n <= 0x200A) || n == 0x2028 || n == 0x2029 || n == 0x202F || n == 0x205F || n == 0x3000
}

/// The text after its leading white space.
pub open spec fn trim_start(s: Seq<char>) -> Seq<char>
    decreases s.len(),
{
    if s.len() > 0 && white_space(s[0]) {
        trim_start(s.drop_first())
    } else {
        s
    }
}

/// Length of the text up to its first white space.
pub open spec fn word_len(s: Seq<char>) -> nat
    decreases s.len(),
{
    if s.len() == 0 || white_space(s[0]) {
        0
    } else {
        1 + word_len(s.drop_first())
    }
}

pub proof fn word_len_bounded(s: Seq<char>)
    ensures
        word_len(s) <= s.len(),
    decreases s.len(),
{
    if s.len() > 0 {
        word_len_bounded(s.drop_first());
    }
}

pub proof fn trim_start_bounded(s: Seq<char>)
    ensures
        trim_start(s).len() <= s.len(),
        trim_start(s).len() > 0 ==> !white_space(trim_start(s)[0]),
    decreases s.len(),
{
    if s.len() > 0 {
        trim_start_bounded(s.drop_first());
    }
}

/// The words of a text: what white space separates.
pub open spec fn words(s: Seq<char>) -> Seq<Seq<char>>
    decreases s.len(),
{
    let rest = trim_start(s);
    if rest.len() == 0 {
        seq![]
    } else {
        let n = word_len(rest);
        proof {
            trim_start_bounded(s);
            word_len_bounded(rest);
            assert(n >= 1);
        }
        seq![rest.take(n as int)] + words(rest.skip(n as int))
    }
}

/// The texts of a list of strings.
pub open spec fn texts(strings: Seq<String>) -> Seq<Seq<char>> {
    Seq::new(strings.len(), |i: int| strings[i]@)
}

/// The texts of a list of character lists.
pub open spec fn spelled(lists: Seq<Vec<char>>) -> Seq<Seq<char>> {
    Seq::new(lists.len(), |i: int| lists[i]@)
}

/// The words of a text.
pub fn split_words(s: &Vec<char>) -> (found: Vec<Vec<char>>)
    ensures
        spelled(found@) == words(s@),
{
    let mut found: Vec<Vec<char>> = Vec::new();
    let n: usize = s.len();
    let mut i: usize = 0;
    assert(s@.skip(0) =~= s@);
    assert(spelled(found@) + words(s@) =~= words(s@));
    while i < n
        invariant
            n == s@.len(),
            i <= n,
            spelled(found@) + words(s@.skip(i as int)) == words(s@),
        decreases n - i,
    {
        let ghost tail = s@.skip(i as int);
        assert(tail.drop_first() =~= s@.skip(i + 1));
        if is_white_space(s[i]) {
            assert(trim_start(tail) == trim_start(tail.drop_first()));
            i = i + 1;
        } else {
            let start: usize = i;
            let mut word: Vec<char> = Vec::new();
            assert(word@ =~= s@.subrange(start as int, i as int));
            while i < n && !is_white_space(s[i])
                invariant
                    n == s@.len(),
                    start <= i <= n,
                    tail == s@.skip(start as int),
                    word@ == s@.subrange(start as int, i as int),
                    word_len(tail) == (i - start) + word_len(s@.skip(i as int)),
                    i == start ==> i < n && !white_space(s@[i as int]),
                decreases n - i,
            {
                assert(s@.skip(i as int).drop_first() =~= s@.skip(i + 1));
                word.push(s[i]);
                i = i + 1;
                assert(word@ =~= s@.subrange(start as int, i as int));
            }
            assert(word_len(s@.skip(i as int)) == 0);
            assert(word@ =~= tail.take(i - start));
            assert(tail.skip(i - start) =~= s@.skip(i as int));
            let ghost before = spelled(found@);
            found.push(word);
            assert(spelled(found@) =~= before.push(word@));
            assert(spelled(found@) + words(s@.skip(i as int)) =~= before + (seq![word@] + words(
                s@.skip(i as int),
            )));
        }
    }
    assert(s@.skip(n as int) =~= Seq::<char>::empty());
    assert(spelled(found@) + words(s@.skip(n as int)) =~= spelled(found@));
    found
}

/// The number that decimal digits stand for.
pub open spec fn value_of(digits: Seq<char>) -> int
    decreases digits.len(),
{
    if digits.len() == 0 {
        0
    } else {
        10 * value_of(digits.drop_last()) + (digits.last() as int - '0' as int)
    }
}

/// The decimal digits of a number stand for that number, and there are no more of them than
/// needed.
pub proof fn decimal_stands_for_the_number(n: nat)
    ensures
        value_of(decimal(n)) == n,
        decimal(n).len() >= 1,
        forall|i: int| 0 <= i < decimal(n).len() ==> '0' <= #[trigger] decimal(n)[i] <= '9',
        n > 0 ==> decimal(n)[0] != '0',
        n == 0 ==> decimal(n).len() == 1,
    decreases n,
{
    reveal_strlit("0123456789");
    let digit = "0123456789"@[(n % 10) as int];
    assert(digit as int == '0' as int + n % 10);
    if n >= 10 {
        decimal_stands_for_the_number(n / 10);
        assert(decimal(n).drop_last() =~= decimal(n / 10));
    } else {
        assert(decimal(n).drop_last() =~= Seq::<char>::empty());
        assert(value_of(Seq::<char>::empty()) == 0);
    }
}

/// White space is what Unicode calls so.
pub proof fn white_space_is_that_of_unicode(c: char)
    ensures
        white_space(c) <==> c == '\u{9}' || c == '\u{a}' || c == '\u{b}' || c == '\u{c}' || c
            == '\u{d}' || c == ' ' || c == '\u{85}' || c == '\u{a0}' || c == '\u{1680}' || (
        '\u{2000}' <= c <= '\u{200a}') || c == '\u{2028}' || c == '\u{2029}' || c == '\u{202f}' || c
            == '\u{205f}' || c == '\u{3000}',
{
}

/// Every character of the text is white space.
pub open spec fn blank(s: Seq<char>) -> bool {
    forall|i: int| 0 <= i < s.len() ==> white_space(#[trigger] s[i])
}

/// No character of the text is white space.
pub open spec fn solid(s: Seq<char>) -> bool {
    forall|i: int| 0 <= i < s.len() ==> !white_space(#[trigger] s[i])
}

proof fn blank_is_trimmed(pad: Seq<char>, rest: Seq<char>)
    requires
        blank(pad),
    ensures
        trim_start(pad + rest) == trim_start(rest),
    decreases pad.len(),
{
    if pad.len() > 0 {
        assert forall|i: int| 0 <= i < pad.drop_first().len() implies white_space(
            #[trigger] pad.drop_first()[i],
        ) by {
            assert(pad.drop_first()[i] == pad[i + 1]);
        }
        blank_is_trimmed(pad.drop_first(), rest);
        assert((pad + rest)[0] == pad[0]);
        assert((pad + rest).drop_first() =~= pad.drop_first() + rest);
    } else {
        assert(pad + rest =~= rest);
    }
}

proof fn word_is_measured(word: Seq<char>, rest: Seq<char>)
    requires
        solid(word),
        rest.len() > 0 ==> white_space(rest[0]),
    ensures
        word_len(word + rest) == word.len(),
    decreases word.len(),
{
    if word.len() > 0 {
        assert forall|i: int| 0 <= i < word.drop_first().len() implies !white_space(
            #[trigger] word.drop_first()[i],
        ) by {
            assert(word.drop_first()[i] == word[i + 1]);
        }
        word_is_measured(word.drop_first(), rest);
        assert((word + rest)[0] == word[0]);
        assert((word + rest).drop_first() =~= word.drop_first() + rest);
    } else {
        assert(word + rest =~= rest);
    }
}

/// Words are what white space separates: a text that starts with a word, after any white space and
/// before any more, has that word and then the words of the rest. White space alone has none.
pub proof fn words_are_separated(pad: Seq<char>, word: Seq<char>, rest: Seq<char>)
    requires
        blank(pad),
        word.len() > 0,
        solid(word),
        rest.len() > 0 ==> white_space(rest[0]),
    ensures
        words(pad + word + rest) == seq![word] + words(rest),
        words(pad).len() == 0,
{
    let s = pad + word + rest;
    assert(s =~= pad + (word + rest));
    blank_is_trimmed(pad, word + rest);
    assert(!white_space(word[0]));
    assert((word + rest)[0] == word[0]);
    assert(trim_start(s) == word + rest);
    word_is_measured(word, rest);
    assert((word + rest).take(word.len() as int) =~= word);
    assert((word + rest).skip(word.len() as int) =~= rest);
    blank_is_trimmed(pad, Seq::empty());
    assert(pad + Seq::<char>::empty() =~= pad);
}

/// The texts of a list are those of its strings, one for one.
pub proof fn texts_are_those_of_the_strings(strings: Seq<String>)
    ensures
        texts(strings).len() == strings.len(),
        forall|i: int| 0 <= i < strings.len() ==> #[trigger] texts(strings)[i] == strings[i]@,
{
}

/// The texts of a list are those of its character lists, one for one.
pub proof fn texts_are_those_of_the_lists(lists: Seq<Vec<char>>)
    ensures
        spelled(lists).len() == lists.len(),
        forall|i: int| 0 <= i < lists.len() ==> #[trigger] spelled(lists)[i] == lists[i]@,
{
}

} // verus!
