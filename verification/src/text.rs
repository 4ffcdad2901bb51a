use vstd::prelude::*;
use vstd::string::StrSliceExecFns;
use vstd::string::StringExecFns;

verus! {

/// The characters of a string, one by one.
pub fn chars_of(s: &str) -> (v: Vec<char>)
    ensures
        v@ == s@,
{
    let mut v: Vec<char> = Vec::new();
    for c in it: s.chars()
        invariant
            v@ == it.history(),
            it.seq() == s@,
    {
        v.push(c);
    }
    v
}

/// Whether a character has the Unicode property White_Space.
pub open spec fn is_space(c: char) -> bool {
    ||| '\u{9}' <= c <= '\u{d}'
    ||| c == ' '
    ||| c == '\u{85}'
    ||| c == '\u{a0}'
    ||| c == '\u{1680}'
    ||| '\u{2000}' <= c <= '\u{200a}'
    ||| c == '\u{2028}'
    ||| c == '\u{2029}'
    ||| c == '\u{202f}'
    ||| c == '\u{205f}'
    ||| c == '\u{3000}'
}

/// Whether a character is white space.
pub fn space(c: char) -> (r: bool)
    ensures
        r == is_space(c),
{
    ('\u{9}' <= c && c <= '\u{d}') || c == ' ' || c == '\u{85}' || c == '\u{a0}' || c == '\u{1680}'
        || ('\u{2000}' <= c && c <= '\u{200a}') || c == '\u{2028}' || c == '\u{2029}' || c
        == '\u{202f}' || c == '\u{205f}' || c == '\u{3000}'
}

/// The segments of a text: its longest runs of characters that are not white
/// space, from left to right.
pub open spec fn segments(text: Seq<char>) -> Seq<Seq<char>>
    decreases text.len(),
{
    if text.len() == 0 {
        Seq::empty()
    } else {
        let before = segments(text.drop_last());
        if is_space(text.last()) {
            before
        } else if text.len() >= 2 && !is_space(text[text.len() - 2]) {
            before.update(before.len() - 1, before.last().push(text.last()))
        } else {
            before.push(seq![text.last()])
        }
    }
}

/// A text that ends in a character that is no white space has a segment.
pub proof fn lemma_segment_open(text: Seq<char>)
    requires
        text.len() > 0,
        !is_space(text.last()),
    ensures
        segments(text).len() >= 1,
    decreases text.len(),
{
    if text.len() >= 2 && !is_space(text[text.len() - 2]) {
        lemma_segment_open(text.drop_last());
    }
}

/// A segment is not empty and holds no white space.
pub proof fn law_segments_solid(text: Seq<char>, k: int)
    requires
        0 <= k < segments(text).len(),
    ensures
        segments(text)[k].len() > 0,
        forall|i: int| 0 <= i < segments(text)[k].len() ==> !is_space(#[trigger] segments(text)[k][i]),
    decreases text.len(),
{
    if text.len() > 0 {
        let before = segments(text.drop_last());
        if is_space(text.last()) {
            law_segments_solid(text.drop_last(), k);
        } else if text.len() >= 2 && !is_space(text[text.len() - 2]) {
            lemma_segment_open(text.drop_last());
            if k < before.len() - 1 {
                law_segments_solid(text.drop_last(), k);
            } else {
                law_segments_solid(text.drop_last(), before.len() - 1);
            }
        } else if k < before.len() {
            law_segments_solid(text.drop_last(), k);
        }
    }
}

/// Every character of the text is white space.
pub open spec fn blank(text: Seq<char>) -> bool {
    forall|i: int| 0 <= i < text.len() ==> is_space(#[trigger] text[i])
}

/// The text is not empty and none of its characters is white space.
pub open spec fn solid(text: Seq<char>) -> bool {
    text.len() > 0 && forall|i: int| 0 <= i < text.len() ==> !is_space(#[trigger] text[i])
}

/// White space at the end of a text adds no segment.
pub proof fn lemma_segments_blank(before: Seq<char>, gap: Seq<char>)
    requires
        blank(gap),
    ensures
        segments(before + gap) == segments(before),
    decreases gap.len(),
{
    if gap.len() > 0 {
        let text = before + gap;
        assert(text.drop_last() =~= before + gap.drop_last());
        assert(text.last() == gap.last());
        lemma_segments_blank(before, gap.drop_last());
    } else {
        assert(before + gap =~= before);
    }
}

/// A word after white space, or at the start, is one more segment.
pub proof fn lemma_segments_word(before: Seq<char>, word: Seq<char>)
    requires
        solid(word),
        before.len() == 0 || is_space(before.last()),
    ensures
        segments(before + word) == segments(before).push(word),
    decreases word.len(),
{
    let text = before + word;
    assert(text.drop_last() =~= before + word.drop_last());
    assert(text.last() == word.last());
    if word.len() == 1 {
        assert(before + word.drop_last() =~= before);
        assert(word =~= seq![word.last()]);
        if text.len() >= 2 {
            assert(text[text.len() - 2] == before.last());
        }
    } else {
        let shorter = word.drop_last();
        assert(solid(shorter)) by {
            assert forall|i: int| 0 <= i < shorter.len() implies !is_space(
                #[trigger] shorter[i],
            ) by {
                assert(shorter[i] == word[i]);
            }
        }
        lemma_segments_word(before, shorter);
        assert(text[text.len() - 2] == word[word.len() - 2]);
        let prior = segments(before + shorter);
        assert(shorter.push(word.last()) =~= word);
        assert(prior.update(prior.len() - 1, prior.last().push(word.last())) =~= segments(
            before,
        ).push(word));
    }
}

/// Two words with white space between them, and any white space before and
/// after, are the two segments of the text.
pub proof fn law_two_segments(
    lead: Seq<char>,
    first: Seq<char>,
    gap: Seq<char>,
    second: Seq<char>,
    trail: Seq<char>,
)
    requires
        blank(lead),
        solid(first),
        blank(gap),
        gap.len() > 0,
        solid(second),
        blank(trail),
    ensures
        segments(lead + first + gap + second + trail) == seq![first, second],
{
    let none = Seq::<char>::empty();
    lemma_segments_blank(none, lead);
    assert(none + lead =~= lead);
    if lead.len() > 0 {
        assert(is_space(lead.last()));
    }
    lemma_segments_word(lead, first);
    lemma_segments_blank(lead + first, gap);
    assert((lead + first + gap).last() == gap.last());
    lemma_segments_word(lead + first + gap, second);
    lemma_segments_blank(lead + first + gap + second, trail);
    assert(segments(none).push(first).push(second) =~= seq![first, second]);
}

/// The ranges are where the segments of the text lie.
pub open spec fn ranges_of(text: Seq<char>, ranges: Seq<(usize, usize)>) -> bool {
    &&& ranges.len() == segments(text).len()
    &&& forall|k: int|
        0 <= k < ranges.len() ==> {
            let (from, to) = #[trigger] ranges[k];
            from < to <= text.len() && text.subrange(from as int, to as int) == segments(text)[k]
        }
}

/// Finds the segments of a text: for each, where it starts and where it
/// ends.
pub fn segment_ranges(chars: &Vec<char>) -> (ranges: Vec<(usize, usize)>)
    ensures
        ranges_of(chars@, ranges@),
{
    let n = chars.len();
    let mut ranges: Vec<(usize, usize)> = Vec::new();
    let mut open = false;
    let mut from: usize = 0;
    let mut i: usize = 0;
    assert(chars@.take(0) =~= Seq::<char>::empty());
    while i < n
        invariant
            n == chars@.len(),
            i <= n,
            open == (i > 0 && !is_space(chars@[i - 1])),
            open ==> from < i && ranges@.len() + 1 == segments(chars@.take(i as int)).len()
                && chars@.subrange(from as int, i as int) == segments(chars@.take(i as int)).last(),
            !open ==> ranges@.len() == segments(chars@.take(i as int)).len(),
            forall|k: int|
                0 <= k < ranges@.len() ==> {
                    let (a, b) = #[trigger] ranges@[k];
                    a < b <= i && chars@.subrange(a as int, b as int) == segments(
                        chars@.take(i as int),
                    )[k]
                },
        decreases n - i,
    {
        let c = chars[i];
        proof {
            let text = chars@.take(i + 1);
            assert(text.drop_last() =~= chars@.take(i as int));
            assert(text.last() == chars@[i as int]);
            if i > 0 {
                assert(text[text.len() - 2] == chars@[i - 1]);
                if !is_space(chars@[i - 1]) {
                    assert(chars@.take(i as int).last() == chars@[i - 1]);
                    lemma_segment_open(chars@.take(i as int));
                }
            }
        }
        if space(c) {
            if open {
                ranges.push((from, i));
            }
            open = false;
        } else if open {
            assert(chars@.subrange(from as int, i as int).push(c) =~= chars@.subrange(
                from as int,
                i + 1,
            ));
        } else {
            from = i;
            open = true;
            assert(seq![c] =~= chars@.subrange(i as int, i + 1));
        }
        i += 1;
    }
    assert(chars@.take(n as int) =~= chars@);
    if open {
        ranges.push((from, n));
    }
    ranges
}

/// A text between two others.
pub fn framed(before: &str, text: &str, after: &str) -> (r: String)
    ensures
        r@ == before@ + text@ + after@,
{
    String::from_str(before).concat(text).concat(after)
}

/// The character of a decimal digit.
pub open spec fn digit(d: nat) -> char {
    if d == 0 {
        '0'
    } else if d == 1 {
        '1'
    } else if d == 2 {
        '2'
    } else if d == 3 {
        '3'
    } else if d == 4 {
        '4'
    } else if d == 5 {
        '5'
    } else if d == 6 {
        '6'
    } else if d == 7 {
        '7'
    } else if d == 8 {
        '8'
    } else {
        '9'
    }
}

/// A number written in decimal, without leading zeros.
pub open spec fn digits(n: nat) -> Seq<char>
    decreases n,
{
    if n < 10 {
        seq![digit(n)]
    } else {
        digits(n / 10).push(digit(n % 10))
    }
}

/// The text of a decimal digit.
pub fn digit_text(d: u32) -> (text: &'static str)
    requires
        d < 10,
    ensures
        text@ == seq![digit(d as nat)],
{
    proof {
        reveal_strlit("0");
        reveal_strlit("1");
        reveal_strlit("2");
        reveal_strlit("3");
        reveal_strlit("4");
        reveal_strlit("5");
        reveal_strlit("6");
        reveal_strlit("7");
        reveal_strlit("8");
        reveal_strlit("9");
    }
    let text = if d == 0 {
        "0"
    } else if d == 1 {
        "1"
    } else if d == 2 {
        "2"
    } else if d == 3 {
        "3"
    } else if d == 4 {
        "4"
    } else if d == 5 {
        "5"
    } else if d == 6 {
        "6"
    } else if d == 7 {
        "7"
    } else if d == 8 {
        "8"
    } else {
        "9"
    };
    assert(text@ =~= seq![digit(d as nat)]);
    text
}

/// Writes a number in decimal.
pub fn decimal(n: u32) -> (text: String)
    ensures
        text@ == digits(n as nat),
    decreases n,
{
    if n < 10 {
        String::from_str(digit_text(n))
    } else {
        let text = decimal(n / 10).concat(digit_text(n % 10));
        assert(text@ =~= digits(n as nat));
        text
    }
}

/// Whether a character is in one of Unicode's general categories for
/// numbers: what `char::is_numeric` answers.
pub uninterp spec fn unicode_numeric(c: char) -> bool;

/// Whether a character has the Unicode property Lowercase: what
/// `char::is_lowercase` answers.
pub uninterp spec fn unicode_lowercase(c: char) -> bool;

/// Whether a character has the Unicode property Uppercase: what
/// `char::is_uppercase` answers.
pub uninterp spec fn unicode_uppercase(c: char) -> bool;

/// The lowercase of a text: what `str::to_lowercase` returns.
pub uninterp spec fn lowercased(text: Seq<char>) -> Seq<char>;

/// The uppercase of a character, which may be more than one character: what
/// `char::to_uppercase` yields.
pub uninterp spec fn uppercased(c: char) -> Seq<char>;

/// `char::is_numeric` answers by the character alone, as Unicode's tables
/// have it.
pub assume_specification[ char::is_numeric ](c: char) -> (r: bool)
    ensures
        r == unicode_numeric(c),
;

/// `char::is_lowercase` answers by the character alone, as Unicode's tables
/// have it.
pub assume_specification[ char::is_lowercase ](c: char) -> (r: bool)
    ensures
        r == unicode_lowercase(c),
;

/// `char::is_uppercase` answers by the character alone, as Unicode's tables
/// have it.
pub assume_specification[ char::is_uppercase ](c: char) -> (r: bool)
    ensures
        r == unicode_uppercase(c),
;

/// Calls `str::to_lowercase`, which depends on the text alone.
#[verifier::external_body]
fn str_lowercase(text: &str) -> (r: String)
    ensures
        r@ == lowercased(text@),
{
    text.to_lowercase()
}

/// Calls `char::to_uppercase` and collects the characters it yields.
#[verifier::external_body]
fn char_uppercase(c: char) -> (r: String)
    ensures
        r@ == uppercased(c),
{
    c.to_uppercase().collect()
}

/// A text in lowercase.
pub fn lowercase(text: &str) -> (r: String)
    ensures
        r@ == lowercased(text@),
{
    str_lowercase(text)
}

/// A word with its first character in uppercase.
pub open spec fn capital(word: Seq<char>) -> Seq<char> {
    if word.len() == 0 {
        word
    } else {
        uppercased(word[0]) + word.skip(1)
    }
}

/// Words put together with one blank between each two.
pub open spec fn joined(words: Seq<Seq<char>>) -> Seq<char>
    decreases words.len(),
{
    if words.len() == 0 {
        Seq::empty()
    } else if words.len() == 1 {
        words[0]
    } else {
        joined(words.drop_last()) + seq![' '] + words.last()
    }
}

/// A text with every word in lowercase but for its first character, which is
/// in uppercase, and with one blank between each two words.
pub open spec fn capitalized(text: Seq<char>) -> Seq<char> {
    joined(segments(lowercased(text)).map_values(|word: Seq<char>| capital(word)))
}

/// Capitalizes the words of a text.
pub fn capitalize_words(text: &str) -> (r: String)
    ensures
        r@ == capitalized(text@),
{
    let lower = str_lowercase(text);
    let chars = chars_of(lower.as_str());
    let ranges = segment_ranges(&chars);
    let ghost words = segments(lower@).map_values(|word: Seq<char>| capital(word));
    let mut result = String::from_str("");
    let mut k: usize = 0;
    proof {
        reveal_strlit("");
        reveal_strlit(" ");
        assert(words.take(0) =~= Seq::<Seq<char>>::empty());
        assert(result@ =~= joined(words.take(0)));
    }
    while k < ranges.len()
        invariant
            chars@ == lower@,
            ranges_of(chars@, ranges@),
            words == segments(lower@).map_values(|word: Seq<char>| capital(word)),
            k <= ranges.len(),
            result@ == joined(words.take(k as int)),
            " "@ == seq![' '],
        decreases ranges.len() - k,
    {
        let (from, to) = ranges[k];
        let ghost word = segments(lower@)[k as int];
        proof {
            assert(word == lower@.subrange(from as int, to as int));
            assert(words.take(k + 1).drop_last() =~= words.take(k as int));
            assert(words.take(k + 1).last() == capital(word));
            assert(word.skip(1) =~= lower@.subrange(from + 1, to as int));
            assert(word[0] == chars@[from as int]);
        }
        if k > 0 {
            result.append(" ");
        }
        let first = char_uppercase(chars[from]);
        result.append(first.as_str());
        result.append(lower.as_str().substring_char(from + 1, to));
        proof {
            if k > 0 {
                assert(result@ =~= joined(words.take(k as int)) + seq![' '] + capital(word));
            } else {
                assert(result@ =~= capital(word));
            }
        }
        k += 1;
    }
    assert(words.take(ranges.len() as int) =~= words);
    result
}

} // verus!
