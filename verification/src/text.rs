//! Text helpers: decimal numbers, trimming, cutting at a separator and quoting.

use vstd::prelude::*;
#[allow(unused_imports)]
use vstd::string::StrSliceExecFns;
#[allow(unused_imports)]
use vstd::string::StringExecFns;

verus! {

/// What `{:?}` prints for a string: the text between double quotes, with the escapes that
/// the standard library picks for unprintable and quoting characters.
pub uninterp spec fn quoted_text(text: Seq<char>) -> Seq<char>;

/// Calls the `Debug` formatting of `str` through `format!`.
///
/// Trusted: the result is a function of the characters of `text` alone, named
/// [`quoted_text`]; nothing more is claimed about which characters are escaped.
#[verifier::external_body]
pub(crate) fn quoted(text: &str) -> (res: String)
    ensures
        res@ == quoted_text(text@),
{
    format!("{:?}", text)
}

/// Whether two texts hold the same characters.
pub fn same_text(a: &str, b: &str) -> (res: bool)
    ensures
        res == (a@ == b@),
{
    a.to_owned() == b.to_owned()
}

/// Whether `a` comes before `b` in the order of characters, as in a dictionary.
pub open spec fn text_before(a: Seq<char>, b: Seq<char>) -> bool
    decreases a.len(),
{
    if b.len() == 0 {
        false
    } else if a.len() == 0 {
        true
    } else if a[0] != b[0] {
        (a[0] as int) < (b[0] as int)
    } else {
        text_before(a.skip(1), b.skip(1))
    }
}

/// No text comes before itself, and of two texts at most one comes before the other.
pub proof fn lemma_before_is_strict(a: Seq<char>, b: Seq<char>)
    ensures
        !text_before(a, a),
        text_before(a, b) ==> !text_before(b, a) && a != b,
    decreases a.len(),
{
    if a.len() > 0 && b.len() > 0 {
        lemma_before_is_strict(a.skip(1), b.skip(1));
    } else if a.len() > 0 {
        lemma_before_is_strict(a.skip(1), b);
    }
}

/// What comes before a text comes before all that follows it.
pub proof fn lemma_before_is_transitive(a: Seq<char>, b: Seq<char>, c: Seq<char>)
    requires
        text_before(a, b),
        text_before(b, c),
    ensures
        text_before(a, c),
    decreases a.len(),
{
    if a.len() > 0 && a[0] == b[0] && b[0] == c[0] {
        lemma_before_is_transitive(a.skip(1), b.skip(1), c.skip(1));
    }
}

/// Of two different texts one comes before the other.
pub proof fn lemma_before_is_total(a: Seq<char>, b: Seq<char>)
    requires
        a != b,
    ensures
        text_before(a, b) || text_before(b, a),
    decreases a.len(),
{
    if a.len() == 0 || b.len() == 0 {
        if a.len() == b.len() {
            assert(a =~= b);
        }
    } else if a[0] == b[0] {
        if a.skip(1) == b.skip(1) {
            assert(a =~= seq![a[0]] + a.skip(1));
            assert(b =~= seq![b[0]] + b.skip(1));
        }
        lemma_before_is_total(a.skip(1), b.skip(1));
    } else {
        assert(a[0] as int != b[0] as int);
    }
}

fn chars_of(text: &str) -> (res: Vec<char>)
    ensures
        res@ == text@,
{
    let mut chars: Vec<char> = Vec::new();
    for c in it: text.chars()
        invariant
            it.seq() == text@,
            chars@ == text@.take(it.index()),
    {
        assert(text@.take(it.index() + 1) =~= text@.take(it.index()).push(c));
        chars.push(c);
    }
    assert(text@.take(text@.len() as int) =~= text@);
    chars
}

/// Whether `a` comes before `b` in the order of characters.
pub fn comes_before(a: &str, b: &str) -> (res: bool)
    ensures
        res == text_before(a@, b@),
{
    let left = chars_of(a);
    let right = chars_of(b);
    let mut i: usize = 0;
    assert(a@.skip(0) =~= a@);
    assert(b@.skip(0) =~= b@);
    while i < left.len() && i < right.len()
        invariant
            i <= left@.len(),
            i <= right@.len(),
            left@ == a@,
            right@ == b@,
            text_before(a@, b@) == text_before(a@.skip(i as int), b@.skip(i as int)),
        decreases left@.len() - i,
    {
        assert(a@.skip(i as int)[0] == left@[i as int]);
        assert(b@.skip(i as int)[0] == right@[i as int]);
        assert(a@.skip(i as int).skip(1) =~= a@.skip(i + 1));
        assert(b@.skip(i as int).skip(1) =~= b@.skip(i + 1));
        let c: char = left[i];
        let d: char = right[i];
        if c != d {
            proof {
                vstd::utf8::char_is_scalar(c);
                vstd::utf8::char_is_scalar(d);
                vstd::utf8::char_u32_cast(c, c as u32);
                vstd::utf8::char_u32_cast(d, d as u32);
            }
            return (c as u32) < (d as u32);
        }
        i = i + 1;
    }
    i < right.len()
}

/// The characters of each of the strings.
pub open spec fn texts(items: Seq<String>) -> Seq<Seq<char>> {
    Seq::new(items.len(), |i: int| items[i]@)
}

/// Copies a list of strings.
pub fn clone_texts(items: &Vec<String>) -> (res: Vec<String>)
    ensures
        texts(res@) == texts(items@),
{
    let mut copy: Vec<String> = Vec::new();
    let mut i: usize = 0;
    while i < items.len()
        invariant
            i <= items.len(),
            copy@.len() == i,
            forall|j: int| 0 <= j < i ==> (#[trigger] copy@[j])@ == items@[j]@,
        decreases items.len() - i,
    {
        copy.push(items[i].clone());
        i = i + 1;
    }
    assert(texts(copy@) =~= texts(items@));
    copy
}

/// The character that stands for the decimal digit `d`.
pub open spec fn digit(d: nat) -> char
    recommends
        d < 10,
{
    ('0' as u32 + d) as char
}

/// The decimal representation of `n`, without leading zeros.
pub open spec fn digits(n: nat) -> Seq<char>
    decreases n,
{
    if n < 10 {
        seq![digit(n)]
    } else {
        digits(n / 10).push(digit(n % 10))
    }
}

/// The decimal representation of `n`, with a minus sign in front of negative numbers.
pub open spec fn signed_digits(n: int) -> Seq<char> {
    if n < 0 {
        seq!['-'] + digits((-n) as nat)
    } else {
        digits(n as nat)
    }
}

fn digit_text(d: u64) -> (res: &'static str)
    requires
        d < 10,
    ensures
        res@ == seq![digit(d as nat)],
{
    proof {
        reveal_strlit("0");
        reveal_strlit("1");
        reveal_strlit("2");
        reveal_strlit("3");
        reveal_strlit("4");
        reveal_strlit("5");
        reveal_strlit("6");
        reveal_strlit("7");
        reveal_strlit("8");
        reveal_strlit("9");
    }
    let res = match d {
        0 => "0",
        1 => "1",
        2 => "2",
        3 => "3",
        4 => "4",
        5 => "5",
        6 => "6",
        7 => "7",
        8 => "8",
        _ => "9",
    };
    assert(res@ =~= seq![digit(d as nat)]);
    res
}

/// Writes `n` in decimal.
pub fn decimal(n: u64) -> (res: String)
    ensures
        res@ == digits(n as nat),
    decreases n,
{
    if n < 10 {
        digit_text(n).to_owned()
    } else {
        let mut res = decimal(n / 10);
        res.append(digit_text(n % 10));
        assert(res@ =~= digits((n / 10) as nat).push(digit((n % 10) as nat)));
        res
    }
}

proof fn lemma_digits_len(n: nat)
    ensures
        digits(n).len() >= 1,
        n >= 10 ==> digits(n).len() >= 2,
    decreases n,
{
    if n >= 10 {
        lemma_digits_len(n / 10);
    }
}

/// Distinct numbers have distinct decimal representations.
pub proof fn lemma_digits_injective(a: nat, b: nat)
    requires
        digits(a) == digits(b),
    ensures
        a == b,
    decreases a,
{
    lemma_digits_len(a);
    lemma_digits_len(b);
    if a < 10 {
        assert(digits(a)[0] == digit(a) && digits(b)[0] == digit(b));
        assert(digit(a) as u32 == 48 + a && digit(b) as u32 == 48 + b);
    } else {
        let da = digits(a);
        let db = digits(b);
        assert(da.drop_last() =~= digits(a / 10));
        assert(db.drop_last() =~= digits(b / 10));
        lemma_digits_injective(a / 10, b / 10);
        assert(da.last() == digit(a % 10) && db.last() == digit(b % 10));
        assert(digit(a % 10) as u32 == 48 + a % 10 && digit(b % 10) as u32 == 48 + b % 10);
    }
}

/// Characters with the Unicode property `White_Space`.
pub open spec fn is_white_space(c: char) -> bool {
    let n = c as u32;
    ||| 0x9 <= n <= 0xd
    ||| n == 0x20
    ||| n == 0x85
    ||| n == 0xa0
    ||| n == 0x1680
    ||| 0x2000 <= n <= 0x200a
    ||| n == 0x2028
    ||| n == 0x2029
    ||| n == 0x202f
    ||| n == 0x205f
    ||| n == 0x3000
}

fn white_space(c: char) -> (res: bool)
    ensures
        res == is_white_space(c),
{
    let n: u32 = c as u32;
    (0x9 <= n && n <= 0xd) || n == 0x20 || n == 0x85 || n == 0xa0 || n == 0x1680 || (0x2000 <= n
        && n <= 0x200a) || n == 0x2028 || n == 0x2029 || n == 0x202f || n == 0x205f || n == 0x3000
}

/// Whether `text` holds nothing but white space.
pub open spec fn is_blank_text(text: Seq<char>) -> bool {
    forall|i: int| 0 <= i < text.len() ==> is_white_space(#[trigger] text[i])
}

/// `text` without leading white space.
pub open spec fn trim_start_text(text: Seq<char>) -> Seq<char>
    decreases text.len(),
{
    if text.len() > 0 && is_white_space(text[0]) {
        trim_start_text(text.skip(1))
    } else {
        text
    }
}

/// `text` without trailing white space.
pub open spec fn trim_end_text(text: Seq<char>) -> Seq<char>
    decreases text.len(),
{
    if text.len() > 0 && is_white_space(text.last()) {
        trim_end_text(text.drop_last())
    } else {
        text
    }
}

/// `text` without the white space at its two ends.
pub open spec fn trimmed(text: Seq<char>) -> Seq<char> {
    trim_end_text(trim_start_text(text))
}

proof fn lemma_trim_start(text: Seq<char>, from: int)
    requires
        0 <= from <= text.len(),
        forall|i: int| 0 <= i < from ==> is_white_space(#[trigger] text[i]),
        from < text.len() ==> !is_white_space(text[from]),
    ensures
        trim_start_text(text) == text.skip(from),
    decreases from,
{
    if from == 0 {
        assert(text.skip(0) =~= text);
    } else {
        assert(is_white_space(text[0]));
        lemma_trim_start(text.skip(1), from - 1);
        assert(text.skip(1).skip(from - 1) =~= text.skip(from));
    }
}

proof fn lemma_trim_end(text: Seq<char>, to: int)
    requires
        0 <= to <= text.len(),
        forall|i: int| to <= i < text.len() ==> is_white_space(#[trigger] text[i]),
        0 < to ==> !is_white_space(text[to - 1]),
    ensures
        trim_end_text(text) == text.take(to),
    decreases text.len(),
{
    if to == text.len() {
        assert(text.take(to) =~= text);
    } else {
        assert(is_white_space(text[text.len() - 1]));
        lemma_trim_end(text.drop_last(), to);
        assert(text.drop_last().take(to) =~= text.take(to));
    }
}

/// Trimming leaves nothing of a text exactly when the text is blank.
pub proof fn lemma_blank_is_trimmed_away(text: Seq<char>)
    ensures
        is_blank_text(text) <==> trimmed(text).len() == 0,
{
    let from = lemma_first_solid(text);
    lemma_trim_start(text, from);
    let rest = text.skip(from);
    if from < text.len() {
        assert(!is_blank_text(text));
        assert(rest[0] == text[from]);
        lemma_trim_end_keeps(rest);
    } else {
        assert(rest =~= Seq::<char>::empty());
    }
}

/// The index of the first character that is not white space, or the length of a blank text.
proof fn lemma_first_solid(text: Seq<char>) -> (from: int)
    ensures
        0 <= from <= text.len(),
        forall|i: int| 0 <= i < from ==> is_white_space(#[trigger] text[i]),
        from < text.len() ==> !is_white_space(text[from]),
    decreases text.len(),
{
    if text.len() == 0 || !is_white_space(text[0]) {
        0
    } else {
        let tail = text.skip(1);
        let from = lemma_first_solid(tail);
        assert forall|i: int| 0 <= i < from + 1 implies is_white_space(#[trigger] text[i]) by {
            if i > 0 {
                assert(tail[i - 1] == text[i]);
            }
        }
        from + 1
    }
}

proof fn lemma_trim_end_keeps(text: Seq<char>)
    requires
        text.len() > 0,
        !is_white_space(text[0]),
    ensures
        trim_end_text(text).len() > 0,
    decreases text.len(),
{
    if is_white_space(text.last()) {
        assert(text.len() > 1);
        lemma_trim_end_keeps(text.drop_last());
    }
}

/// Whether `text` holds nothing but white space, so that trimming leaves nothing of it.
pub fn is_blank(text: &str) -> (res: bool)
    ensures
        res == is_blank_text(text@),
{
    for c in it: text.chars()
        invariant
            it.seq() == text@,
            forall|j: int| 0 <= j < it.index() ==> is_white_space(#[trigger] text@[j]),
    {
        if !white_space(c) {
            assert(text@[it.index()] == c);
            return false;
        }
    }
    true
}

/// Removes the white space at the two ends of `text`.
pub fn trim(text: &str) -> (res: String)
    ensures
        res@ == trimmed(text@),
{
    let len: usize = text.unicode_len();
    let mut from: usize = 0;
    while from < len && white_space(text.get_char(from))
        invariant
            from <= len,
            len == text@.len(),
            forall|j: int| 0 <= j < from ==> is_white_space(#[trigger] text@[j]),
        decreases len - from,
    {
        from = from + 1;
    }
    let mut to: usize = len;
    while from < to && white_space(text.get_char(to - 1))
        invariant
            from <= to <= len,
            len == text@.len(),
            forall|j: int| to <= j < len ==> is_white_space(#[trigger] text@[j]),
        decreases to,
    {
        to = to - 1;
    }
    proof {
        lemma_trim_start(text@, from as int);
        let rest = text@.skip(from as int);
        assert forall|i: int| to - from <= i < rest.len() implies is_white_space(
            #[trigger] rest[i],
        ) by {
            assert(rest[i] == text@[i + from]);
        }
        lemma_trim_end(rest, to - from);
        assert(rest.take(to - from) =~= text@.subrange(from as int, to as int));
    }
    text.substring_char(from, to).to_owned()
}

/// The part of `text` before the first `separator` and the part after it, if it occurs.
pub open spec fn cut_text(text: Seq<char>, separator: char) -> Option<(Seq<char>, Seq<char>)>
    decreases text.len(),
{
    if text.len() == 0 {
        None
    } else if text[0] == separator {
        Some((Seq::empty(), text.skip(1)))
    } else {
        match cut_text(text.skip(1), separator) {
            Some((before, after)) => Some((seq![text[0]] + before, after)),
            None => None,
        }
    }
}

proof fn lemma_cut_at(text: Seq<char>, separator: char, at: int)
    requires
        0 <= at < text.len(),
        text[at] == separator,
        forall|i: int| 0 <= i < at ==> #[trigger] text[i] != separator,
    ensures
        cut_text(text, separator) == Some((text.take(at), text.skip(at + 1))),
    decreases at,
{
    if at == 0 {
        assert(text.take(0) =~= Seq::<char>::empty());
    } else {
        assert(text[0] != separator);
        lemma_cut_at(text.skip(1), separator, at - 1);
        assert(seq![text[0]] + text.skip(1).take(at - 1) =~= text.take(at));
        assert(text.skip(1).skip(at) =~= text.skip(at + 1));
    }
}

proof fn lemma_cut_none(text: Seq<char>, separator: char)
    requires
        !text.contains(separator),
    ensures
        cut_text(text, separator) is None,
    decreases text.len(),
{
    if text.len() > 0 {
        assert(text[0] != separator);
        assert forall|i: int| 0 <= i < text.skip(1).len() implies text.skip(1)[i] != separator by {
            assert(text.skip(1)[i] == text[i + 1]);
        }
        lemma_cut_none(text.skip(1), separator);
    }
}

/// A cut takes the text apart at its first separator: the part before it holds none, and
/// the two parts with the separator between them are the whole text. Only a text without
/// the separator cannot be cut.
pub proof fn lemma_cut_splits(text: Seq<char>, separator: char)
    ensures
        match cut_text(text, separator) {
            Some((before, after)) => {
                &&& !before.contains(separator)
                &&& text == before + seq![separator] + after
            },
            None => !text.contains(separator),
        },
    decreases text.len(),
{
    if text.len() == 0 {
    } else if text[0] == separator {
        assert(text =~= Seq::<char>::empty() + seq![separator] + text.skip(1));
    } else {
        let tail = text.skip(1);
        lemma_cut_splits(tail, separator);
        match cut_text(tail, separator) {
            Some((before, after)) => {
                assert(text =~= seq![text[0]] + tail);
                assert(text =~= (seq![text[0]] + before) + seq![separator] + after);
                let whole = seq![text[0]] + before;
                assert forall|i: int| 0 <= i < whole.len() implies whole[i] != separator by {
                    if i > 0 {
                        assert(whole[i] == before[i - 1]);
                        assert(before.contains(before[i - 1]));
                    }
                }
            },
            None => {
                assert forall|i: int| 0 <= i < text.len() implies text[i] != separator by {
                    if i > 0 {
                        assert(text[i] == tail[i - 1]);
                        assert(tail.contains(tail[i - 1]));
                    }
                }
            },
        }
    }
}

/// Cuts `text` at the first `separator`.
pub fn cut(text: &str, separator: char) -> (res: Option<(String, String)>)
    ensures
        match res {
            Some((before, after)) => cut_text(text@, separator) == Some((before@, after@)),
            None => cut_text(text@, separator) is None,
        },
{
    let len: usize = text.unicode_len();
    let mut i: usize = 0;
    while i < len
        invariant
            i <= len,
            len == text@.len(),
            forall|j: int| 0 <= j < i ==> #[trigger] text@[j] != separator,
        decreases len - i,
    {
        if text.get_char(i) == separator {
            proof {
                lemma_cut_at(text@, separator, i as int);
                assert(text@.subrange(0, i as int) =~= text@.take(i as int));
                assert(text@.subrange(i + 1, len as int) =~= text@.skip(i + 1));
            }
            return Some(
                (text.substring_char(0, i).to_owned(), text.substring_char(i + 1, len).to_owned()),
            );
        }
        i = i + 1;
    }
    proof {
        lemma_cut_none(text@, separator);
    }
    None
}

/// Whether `wanted` occurs in `text`.
pub fn has_char(text: &str, wanted: char) -> (res: bool)
    ensures
        res == text@.contains(wanted),
{
    let len: usize = text.unicode_len();
    let mut i: usize = 0;
    while i < len
        invariant
            i <= len,
            len == text@.len(),
            forall|j: int| 0 <= j < i ==> #[trigger] text@[j] != wanted,
        decreases len - i,
    {
        if text.get_char(i) == wanted {
            assert(text@[i as int] == wanted);
            return true;
        }
        i = i + 1;
    }
    false
}

/// Puts two pieces of text together.
pub fn join2(a: &str, b: &str) -> (res: String)
    ensures
        res@ == a@ + b@,
{
    let mut res = a.to_owned();
    res.append(b);
    res
}

/// Puts three pieces of text together.
pub fn join3(a: &str, b: &str, c: &str) -> (res: String)
    ensures
        res@ == a@ + b@ + c@,
{
    let mut res = a.to_owned();
    res.append(b);
    res.append(c);
    res
}

/// Puts five pieces of text together.
pub fn join5(a: &str, b: &str, c: &str, d: &str, e: &str) -> (res: String)
    ensures
        res@ == a@ + b@ + c@ + d@ + e@,
{
    let mut res = join3(a, b, c);
    res.append(d);
    res.append(e);
    res
}

/// The number that a text of decimal digits denotes.
pub open spec fn number_of(text: Seq<char>) -> nat
    decreases text.len(),
{
    if text.len() == 0 {
        0
    } else {
        (number_of(text.drop_last()) * 10 + (text.last() as int - '0' as int)) as nat
    }
}

/// The decimal representation of a number denotes it, holds digits only, and has no leading zero
/// but that of 0 itself.
pub proof fn lemma_digits_denote_the_number(n: nat)
    ensures
        number_of(digits(n)) == n,
        digits(n).len() > 0,
        forall|i: int|
            0 <= i < digits(n).len() ==> '0' as int <= (#[trigger] digits(n)[i]) as int
                <= '9' as int,
        n > 0 ==> digits(n)[0] != '0',
        n == 0 ==> digits(n) == seq!['0'],
    decreases n,
{
    assert('0' as u32 == 48 && '9' as u32 == 57);
    if n < 10 {
        assert(digit(n) as u32 == 48 + n);
        assert(digits(n).drop_last() =~= Seq::<char>::empty());
        assert(number_of(Seq::<char>::empty()) == 0);
    } else {
        lemma_digits_denote_the_number(n / 10);
        let front = digits(n / 10);
        assert(digits(n).drop_last() =~= front);
        assert(digit(n % 10) as u32 == 48 + n % 10);
        assert(digits(n)[0] == front[0]);
        assert forall|i: int| 0 <= i < digits(n).len() implies '0' as int <= (
        #[trigger] digits(n)[i]) as int <= '9' as int by {
            if i < front.len() {
                assert(digits(n)[i] == front[i]);
            }
        }
    }
}

/// White space is what Unicode says it is.
pub proof fn lemma_white_space(c: char)
    ensures
        is_white_space(c) <==> (c == ' ' || c == '\t' || c == '\n' || c == '\r' || c == '\u{b}' || c
            == '\u{c}' || c == '\u{85}' || c == '\u{a0}' || c == '\u{1680}' || '\u{2000}' as int
            <= c as int <= '\u{200a}' as int || c == '\u{2028}' || c == '\u{2029}' || c
            == '\u{202f}' || c == '\u{205f}' || c == '\u{3000}'),
{
}

proof fn lemma_trim_end_parts(text: Seq<char>) -> (to: int)
    ensures
        0 <= to <= text.len(),
        trim_end_text(text) == text.take(to),
        forall|i: int| to <= i < text.len() ==> is_white_space(#[trigger] text[i]),
        0 < to ==> !is_white_space(text[to - 1]),
    decreases text.len(),
{
    if text.len() > 0 && is_white_space(text.last()) {
        let front = text.drop_last();
        let to = lemma_trim_end_parts(front);
        assert(front.take(to) =~= text.take(to));
        assert forall|i: int| to <= i < text.len() implies is_white_space(#[trigger] text[i]) by {
            if i < front.len() {
                assert(front[i] == text[i]);
            }
        }
        to
    } else {
        assert(text.take(text.len() as int) =~= text);
        text.len() as int
    }
}

/// Trimming takes white space off both ends of a text, all of it, and nothing else.
pub proof fn lemma_trimming_takes_white_space_only(text: Seq<char>)
    ensures
        exists|from: int, to: int|
            {
                &&& 0 <= from <= to <= text.len()
                &&& trimmed(text) == #[trigger] text.subrange(from, to)
                &&& is_blank_text(text.take(from))
                &&& is_blank_text(text.skip(to))
            },
        trimmed(text).len() > 0 ==> !is_white_space(trimmed(text)[0]) && !is_white_space(
            trimmed(text).last(),
        ),
{
    let from = lemma_first_solid(text);
    lemma_trim_start(text, from);
    let rest = text.skip(from);
    let len = lemma_trim_end_parts(rest);
    let to = from + len;
    assert(rest.take(len) =~= text.subrange(from, to));
    assert forall|i: int| 0 <= i < text.skip(to).len() implies is_white_space(
        #[trigger] text.skip(to)[i],
    ) by {
        assert(text.skip(to)[i] == rest[len + i]);
    }
    assert(is_blank_text(text.take(from)));
    if len > 0 {
        assert(rest.take(len)[0] == text[from]);
        assert(rest.take(len).last() == rest[len - 1]);
    }
}

/// What trimming leaves of a text stands in it.
pub proof fn lemma_trimmed_is_inside(text: Seq<char>)
    ensures
        forall|i: int|
            0 <= i < trimmed(text).len() ==> text.contains(#[trigger] trimmed(text)[i]),
{
    lemma_trimming_takes_white_space_only(text);
    let (from, to) = choose|from: int, to: int|
        {
            &&& 0 <= from <= to <= text.len()
            &&& trimmed(text) == #[trigger] text.subrange(from, to)
            &&& is_blank_text(text.take(from))
            &&& is_blank_text(text.skip(to))
        };
    assert forall|i: int| 0 <= i < trimmed(text).len() implies text.contains(
        #[trigger] trimmed(text)[i],
    ) by {
        assert(trimmed(text)[i] == text[from + i]);
    }
}

/// Texts that begin alike are in the order of the first characters in which they differ, and a
/// text comes before every longer one that begins with it.
pub proof fn lemma_order_of_texts(
    front: Seq<char>,
    a: char,
    b: char,
    rest: Seq<char>,
    other: Seq<char>,
)
    ensures
        (a as int) < (b as int) ==> text_before(
            front + seq![a] + rest,
            front + seq![b] + other,
        ),
        text_before(front, front + seq![a] + rest),
    decreases front.len(),
{
    let left = front + seq![a] + rest;
    let right = front + seq![b] + other;
    if front.len() > 0 {
        lemma_order_of_texts(front.skip(1), a, b, rest, other);
        assert(left.skip(1) =~= front.skip(1) + seq![a] + rest);
        assert(right.skip(1) =~= front.skip(1) + seq![b] + other);
        assert(left[0] == front[0] && right[0] == front[0]);
    } else {
        assert(left[0] == a && right[0] == b);
    }
}

} // verus!
