//! Decimal numerals and the parts of a path.

use vstd::prelude::*;

verus! {

// ---------------------------------------------------------------------------------------------
// Numerals
// ---------------------------------------------------------------------------------------------

/// The character for a digit.
pub open spec fn digit_char(digit: nat) -> char {
    (digit + 48) as char
}

/// The decimal digits of a natural number, without leading zeros.
pub open spec fn digits(n: nat) -> Seq<char>
    decreases n,
{
    if n < 10 {
        seq![digit_char(n)]
    } else {
        digits(n / 10).push(digit_char(n % 10))
    }
}

/// The decimal numeral of an integer: its digits, after a minus sign where it is negative.
pub open spec fn decimal(n: int) -> Seq<char> {
    if n < 0 {
        seq!['-'] + digits((-n) as nat)
    } else {
        digits(n as nat)
    }
}

pub open spec fn is_digit(c: char) -> bool {
    '0' <= c <= '9'
}

/// One digit or more, and nothing else.
pub open spec fn all_digits(s: Seq<char>) -> bool {
    s.len() > 0 && forall|i: int| 0 <= i < s.len() ==> is_digit(#[trigger] s[i])
}

/// The number that a run of digits denotes.
pub open spec fn digits_value(s: Seq<char>) -> nat
    decreases s.len(),
{
    if s.len() == 0 {
        0
    } else {
        digits_value(s.drop_last()) * 10 + (s.last() as nat - 48) as nat
    }
}

/// The integer that a numeral denotes: a `+` or a `-` or neither, then one digit or more.
/// Any other text denotes none.
pub open spec fn numeral_value(s: Seq<char>) -> Option<int> {
    if s.len() > 0 && (s[0] == '-' || s[0] == '+') {
        if all_digits(s.skip(1)) {
            Some(if s[0] == '-' { -digits_value(s.skip(1)) } else { digits_value(s.skip(1)) as int })
        } else {
            None
        }
    } else if all_digits(s) {
        Some(digits_value(s) as int)
    } else {
        None
    }
}

/// The signed 64-bit integer that a numeral denotes, where it denotes one and it fits.
pub open spec fn numeral_i64(s: Seq<char>) -> Option<i64> {
    match numeral_value(s) {
        Some(n) => if i64::MIN <= n <= i64::MAX {
            Some(n as i64)
        } else {
            None
        },
        None => None,
    }
}

/// The signed 32-bit integer that a numeral denotes, where it denotes one and it fits.
pub open spec fn numeral_i32(s: Seq<char>) -> Option<i32> {
    match numeral_value(s) {
        Some(n) => if i32::MIN <= n <= i32::MAX {
            Some(n as i32)
        } else {
            None
        },
        None => None,
    }
}

fn digit_text(digit: u64) -> (text: &'static str)
    requires
        digit < 10,
    ensures
        text@ == seq![digit_char(digit as nat)],
{
    proof {
        reveal_strlit("0");
        reveal_strlit("1");
        reveal_strlit("2");
        reveal_strlit("3");
        reveal_strlit("4");
        reveal_strlit("5");
        reveal_strlit("6");
        reveal_strlit("7");
        reveal_strlit("8");
        reveal_strlit("9");
    }
    let text = match digit {
        0 => "0",
        1 => "1",
        2 => "2",
        3 => "3",
        4 => "4",
        5 => "5",
        6 => "6",
        7 => "7",
        8 => "8",
        _ => "9",
    };
    assert(text@ =~= seq![digit_char(digit as nat)]);
    text
}

fn digits_text(n: u64) -> (text: String)
    ensures
        text@ == digits(n as nat),
    decreases n,
{
    if n < 10 {
        digit_text(n).to_owned()
    } else {
        let mut text = digits_text(n / 10);
        text.append(digit_text(n % 10));
        assert(text@ =~= digits(n as nat));
        text
    }
}

/// The decimal numeral of an integer.
pub fn decimal_text(n: i64) -> (text: String)
    ensures
        text@ == decimal(n as int),
{
    if n < 0 {
        let magnitude: u64 = if n == i64::MIN {
            0x8000_0000_0000_0000
        } else {
            (-n) as u64
        };
        let mut text = "-".to_owned();
        proof {
            reveal_strlit("-");
        }
        text.append(digits_text(magnitude).as_str());
        assert(text@ =~= decimal(n as int));
        text
    } else {
        digits_text(n as u64)
    }
}

/// The characters of a string.
pub(crate) fn characters(s: &str) -> (chars: Vec<char>)
    ensures
        chars@ == s@,
{
    let mut chars: Vec<char> = Vec::new();
    for c in iter: s.chars()
        invariant
            iter.seq() == s@,
            chars@ == s@.take(iter.index() as int),
    {
        chars.push(c);
    }
    assert(chars@ =~= s@);
    chars
}

/// The largest magnitude that a signed 64-bit integer has.
const MAX_MAGNITUDE: u64 = 0x8000_0000_0000_0000;

/// The value of the digits from a position to the end, where they are all digits and the value is
/// a magnitude that a signed 64-bit integer can have.
fn magnitude(chars: &Vec<char>, from: usize) -> (value: Option<u64>)
    requires
        from <= chars@.len(),
    ensures
        value matches Some(v) ==> all_digits(chars@.skip(from as int)) && v == digits_value(
            chars@.skip(from as int),
        ) && v <= MAX_MAGNITUDE,
        value is None ==> !all_digits(chars@.skip(from as int)) || digits_value(
            chars@.skip(from as int),
        ) > MAX_MAGNITUDE,
{
    let ghost run = chars@.skip(from as int);
    if from == chars.len() {
        return None;
    }
    let mut value: u64 = 0;
    let mut too_large: bool = false;
    let mut i: usize = from;
    while i < chars.len()
        invariant
            from <= i <= chars@.len(),
            run == chars@.skip(from as int),
            forall|j: int| 0 <= j < i - from ==> is_digit(#[trigger] run[j]),
            !too_large ==> value == digits_value(run.take(i - from)) && value <= MAX_MAGNITUDE,
            too_large ==> digits_value(run.take(i - from)) > MAX_MAGNITUDE,
        decreases chars@.len() - i,
    {
        let c = chars[i];
        assert(c == run[i - from]);
        if !('0' <= c && c <= '9') {
            assert(!is_digit(run[i - from]));
            return None;
        }
        proof {
            assert(run.take(i - from + 1).drop_last() =~= run.take(i - from));
            assert(run.take(i - from + 1).last() == c);
        }
        if !too_large {
            let next: u128 = value as u128 * 10 + (c as u32 - 48) as u128;
            if next > MAX_MAGNITUDE as u128 {
                too_large = true;
            } else {
                value = next as u64;
            }
        }
        i = i + 1;
    }
    assert(run.take(i - from) =~= run);
    if too_large {
        None
    } else {
        Some(value)
    }
}

/// Reads a signed 64-bit integer: `None` where the text is no numeral, or the number does not fit.
pub fn parse_i64(s: &str) -> (value: Option<i64>)
    ensures
        value == numeral_i64(s@),
{
    let chars = characters(s);
    if chars.len() == 0 {
        return None;
    }
    if chars[0] == '-' {
        match magnitude(&chars, 1) {
            Some(m) => if m == MAX_MAGNITUDE {
                Some(i64::MIN)
            } else {
                Some(-(m as i64))
            },
            None => None,
        }
    } else if chars[0] == '+' {
        match magnitude(&chars, 1) {
            Some(m) => if m == MAX_MAGNITUDE {
                None
            } else {
                Some(m as i64)
            },
            None => None,
        }
    } else {
        assert(chars@.skip(0) =~= s@);
        match magnitude(&chars, 0) {
            Some(m) => if m == MAX_MAGNITUDE {
                None
            } else {
                Some(m as i64)
            },
            None => None,
        }
    }
}

/// Reads a signed 32-bit integer: `None` where the text is no numeral, or the number does not fit.
pub fn parse_i32(s: &str) -> (value: Option<i32>)
    ensures
        value == numeral_i32(s@),
{
    match parse_i64(s) {
        Some(n) => if -0x8000_0000 <= n && n <= 0x7fff_ffff {
            Some(n as i32)
        } else {
            None
        },
        None => None,
    }
}

proof fn lemma_digits_denote(n: nat)
    ensures
        all_digits(digits(n)),
        digits_value(digits(n)) == n,
    decreases n,
{
    if n < 10 {
        assert(digits(n).drop_last() =~= Seq::<char>::empty());
        assert(digits_value(Seq::<char>::empty()) == 0);
    } else {
        lemma_digits_denote(n / 10);
        assert(digits(n).drop_last() =~= digits(n / 10));
    }
}

/// A numeral that was written for a 64-bit integer reads back as that integer.
pub proof fn law_numeral_reads_back(n: i64)
    ensures
        numeral_i64(decimal(n as int)) == Some(n),
{
    if n < 0 {
        let magnitude = (-n) as nat;
        lemma_digits_denote(magnitude);
        assert(decimal(n as int).skip(1) =~= digits(magnitude));
    } else {
        lemma_digits_denote(n as nat);
        assert(is_digit(digits(n as nat)[0]));
    }
}

/// A numeral is made digit by digit: a digit denotes its number, a digit after a numeral counts
/// once beside ten times what stands before it, and away from zero where the numeral is negative.
/// A sign alone denotes nothing, and a digit after it is taken with that sign. Nothing else
/// denotes an integer.
pub proof fn law_numeral_is_made_of_digits(s: Seq<char>, c: char)
    ensures
        numeral_value(Seq::<char>::empty()) is None,
        numeral_value(seq![c]) == if '0' <= c && c <= '9' {
            Some(c as int - '0' as int)
        } else {
            None
        },
        ({
            let digit = c as int - '0' as int;
            let longer = numeral_value(s.push(c));
            if s.len() == 0 {
                longer == numeral_value(seq![c])
            } else if !('0' <= c && c <= '9') {
                longer is None
            } else if s == seq!['-'] {
                longer == Some(-digit)
            } else if s == seq!['+'] {
                longer == Some(digit)
            } else {
                match numeral_value(s) {
                    Some(value) => longer == Some(
                        if s[0] == '-' { 10 * value - digit } else { 10 * value + digit },
                    ),
                    None => longer is None,
                }
            }
        }),
{
    let t = s.push(c);
    assert(all_digits(seq![c]) == is_digit(c)) by {
        if is_digit(c) {
            assert forall|i: int| 0 <= i < seq![c].len() implies is_digit(#[trigger] seq![c][i]) by {}
        } else {
            assert(!is_digit(seq![c][0]));
        }
    }
    assert(seq![c].drop_last() =~= Seq::<char>::empty());
    assert(digits_value(Seq::<char>::empty()) == 0);
    assert(seq![c].skip(1) =~= Seq::<char>::empty());
    if s.len() == 0 {
        assert(t =~= seq![c]);
    } else {
        lemma_digits_pushed(s, c);
        assert(t.skip(1) =~= s.skip(1).push(c));
        assert(t[0] == s[0]);
        if s.len() == 1 {
            assert(s.skip(1) =~= Seq::<char>::empty());
            assert(s.skip(1).push(c) =~= seq![c]);
            if s[0] == '-' {
                assert(s =~= seq!['-']);
            }
            if s[0] == '+' {
                assert(s =~= seq!['+']);
            }
        } else {
            lemma_digits_pushed(s.skip(1), c);
        }
    }
}

proof fn lemma_digits_pushed(s: Seq<char>, c: char)
    requires
        s.len() > 0,
    ensures
        all_digits(s.push(c)) == (all_digits(s) && is_digit(c)),
        is_digit(c) ==> digits_value(s.push(c)) == digits_value(s) * 10 + (c as int - 48),
{
    let t = s.push(c);
    assert(t.drop_last() =~= s);
    if all_digits(t) {
        assert forall|i: int| 0 <= i < s.len() implies is_digit(#[trigger] s[i]) by {
            assert(is_digit(t[i]));
        }
        assert(is_digit(t[s.len() as int]));
    }
    if all_digits(s) && is_digit(c) {
        assert forall|i: int| 0 <= i < t.len() implies is_digit(#[trigger] t[i]) by {
            if i < s.len() {
                assert(is_digit(s[i]));
            }
        }
    }
}

/// A numeral reads as an integer of 64 or of 32 bits exactly where what it denotes is one.
pub proof fn law_numeral_reads_where_it_fits(s: Seq<char>)
    ensures
        numeral_i64(s) is Some <==> (numeral_value(s) is Some && -0x8000_0000_0000_0000
            <= numeral_value(s)->0 <= 0x7fff_ffff_ffff_ffff),
        numeral_i64(s) is Some ==> numeral_i64(s)->0 == numeral_value(s)->0,
        numeral_i32(s) is Some <==> (numeral_value(s) is Some && -0x8000_0000
            <= numeral_value(s)->0 <= 0x7fff_ffff),
        numeral_i32(s) is Some ==> numeral_i32(s)->0 == numeral_value(s)->0,
{
}

/// The numeral of an integer has no sign but the minus of a negative one, and no leading zero but
/// that of zero itself.
pub proof fn law_decimal_is_plain(n: i64)
    ensures
        n >= 0 ==> '0' <= decimal(n as int)[0] && decimal(n as int)[0] <= '9',
        n < 0 ==> decimal(n as int)[0] == '-',
        n > 0 ==> decimal(n as int)[0] != '0',
        n < 0 ==> decimal(n as int)[1] != '0',
        n == 0 ==> decimal(n as int) == seq!['0'],
        numeral_value(decimal(n as int)) == Some(n as int),
{
    law_numeral_reads_back(n);
    if n < 0 {
        lemma_leading_digit((-n) as nat);
        assert(decimal(n as int)[1] == digits((-n) as nat)[0]);
    } else {
        lemma_digits_denote(n as nat);
        assert(is_digit(digits(n as nat)[0]));
        if n > 0 {
            lemma_leading_digit(n as nat);
        }
    }
}

proof fn lemma_leading_digit(n: nat)
    requires
        n > 0,
    ensures
        digits(n).len() > 0,
        digits(n)[0] != '0',
    decreases n,
{
    if n >= 10 {
        lemma_leading_digit(n / 10);
    }
}

// ---------------------------------------------------------------------------------------------
// Order
// ---------------------------------------------------------------------------------------------

/// Whether a text comes before another: it does where it is the beginning of a longer one, or has
/// the lesser character at the first position where they differ.
pub open spec fn comes_before(a: Seq<char>, b: Seq<char>) -> bool
    decreases a.len(),
{
    if b.len() == 0 {
        false
    } else if a.len() == 0 {
        true
    } else {
        a[0] < b[0] || (a[0] == b[0] && comes_before(a.skip(1), b.skip(1)))
    }
}

/// No text comes before itself.
pub(crate) proof fn lemma_not_before_itself(a: Seq<char>)
    ensures
        !comes_before(a, a),
    decreases a.len(),
{
    if a.len() > 0 {
        lemma_not_before_itself(a.skip(1));
    }
}

/// What comes before a text comes before all that come after it.
pub(crate) proof fn lemma_before_is_transitive(a: Seq<char>, b: Seq<char>, c: Seq<char>)
    requires
        comes_before(a, b),
        comes_before(b, c),
    ensures
        comes_before(a, c),
    decreases a.len(),
{
    if a.len() > 0 && a[0] == b[0] && b[0] == c[0] {
        lemma_before_is_transitive(a.skip(1), b.skip(1), c.skip(1));
    }
}

// ---------------------------------------------------------------------------------------------
// Paths
// ---------------------------------------------------------------------------------------------

/// The path without the slashes that it begins with.
pub open spec fn without_leading_slashes(path: Seq<char>) -> Seq<char>
    decreases path.len(),
{
    if path.len() > 0 && path[0] == '/' {
        without_leading_slashes(path.skip(1))
    } else {
        path
    }
}

/// The parts of a path between its slashes: one more than it has slashes, some of them empty
/// where two slashes meet or the path begins or ends with one.
pub open spec fn segments(path: Seq<char>) -> Seq<Seq<char>>
    decreases path.len(),
{
    if path.len() == 0 {
        seq![Seq::<char>::empty()]
    } else {
        let before = segments(path.drop_last());
        if path.last() == '/' {
            before.push(Seq::<char>::empty())
        } else {
            before.update(before.len() - 1, before.last().push(path.last()))
        }
    }
}

/// The segments of a path, after the slashes that it begins with.
pub fn path_segments(path: &str) -> (parts: Vec<String>)
    ensures
        parts@.map_values(|part: String| part@) == segments(without_leading_slashes(path@)),
{
    let chars = characters(path);
    let mut begin: usize = 0;
    assert(chars@.skip(0) =~= path@);
    while begin < chars.len() && chars[begin] == '/'
        invariant
            begin <= chars@.len(),
            chars@ == path@,
            without_leading_slashes(path@) == without_leading_slashes(chars@.skip(begin as int)),
        decreases chars@.len() - begin,
    {
        assert(chars@.skip(begin as int).skip(1) =~= chars@.skip(begin + 1));
        begin = begin + 1;
    }
    let ghost trimmed = chars@.skip(begin as int);
    assert(without_leading_slashes(path@) == trimmed);
    let mut parts: Vec<String> = Vec::new();
    let mut start: usize = begin;
    let mut i: usize = begin;
    assert(trimmed.take(0) =~= Seq::<char>::empty());
    assert(chars@.subrange(start as int, i as int) =~= Seq::<char>::empty());
    assert(segments(trimmed.take(0)) =~= parts@.map_values(|part: String| part@).push(
        chars@.subrange(start as int, i as int),
    ));
    while i < chars.len()
        invariant
            begin <= start <= i <= chars@.len(),
            chars@ == path@,
            trimmed == chars@.skip(begin as int),
            segments(trimmed.take(i - begin)) == parts@.map_values(|part: String| part@).push(
                chars@.subrange(start as int, i as int),
            ),
        decreases chars@.len() - i,
    {
        let ghost before = parts@.map_values(|part: String| part@);
        assert(trimmed.take(i - begin + 1).drop_last() =~= trimmed.take(i - begin));
        assert(trimmed.take(i - begin + 1).last() == chars@[i as int]);
        if chars[i] == '/' {
            let part = path.substring_char(start, i).to_owned();
            parts.push(part);
            start = i + 1;
            assert(parts@.map_values(|part: String| part@) =~= before.push(
                part@,
            ));
            assert(chars@.subrange(start as int, i + 1) =~= Seq::<char>::empty());
        } else {
            assert(chars@.subrange(start as int, i + 1) =~= chars@.subrange(
                start as int,
                i as int,
            ).push(chars@[i as int]));
            assert(segments(trimmed.take(i - begin + 1)) =~= before.push(
                chars@.subrange(start as int, i + 1),
            ));
        }
        i = i + 1;
    }
    let ghost before = parts@.map_values(|part: String| part@);
    let last = path.substring_char(start, i).to_owned();
    parts.push(last);
    assert(trimmed.take(i - begin) =~= trimmed);
    assert(parts@.map_values(|part: String| part@) =~= before.push(last@));
    parts
}

/// What is left of a path without its leading slashes does not begin with one, and nothing but
/// slashes was before it.
pub proof fn law_only_leading_slashes_are_taken(path: Seq<char>)
    ensures
        ({
            let rest = without_leading_slashes(path);
            let number = path.len() - rest.len();
            &&& 0 <= number
            &&& path == Seq::new(number as nat, |i: int| '/') + rest
            &&& rest.len() > 0 ==> rest[0] != '/'
        }),
    decreases path.len(),
{
    if path.len() > 0 && path[0] == '/' {
        law_only_leading_slashes_are_taken(path.skip(1));
        let rest = without_leading_slashes(path);
        let number = path.len() - rest.len();
        let shorter = Seq::new((number - 1) as nat, |i: int| '/');
        assert(path =~= seq!['/'] + path.skip(1));
        assert(path =~= Seq::new(number as nat, |i: int| '/') + rest) by {
            assert(path.skip(1) == shorter + rest);
            assert(seq!['/'] + shorter =~= Seq::new(number as nat, |i: int| '/'));
            assert(seq!['/'] + (shorter + rest) =~= (seq!['/'] + shorter) + rest);
        }
    } else {
        assert(path =~= Seq::new(0, |i: int| '/') + path);
    }
}

/// A path without a slash is one segment.
pub(crate) proof fn lemma_plain_segment(s: Seq<char>)
    requires
        !s.contains('/'),
    ensures
        segments(s) == seq![s],
    decreases s.len(),
{
    if s.len() == 0 {
        assert(s =~= Seq::<char>::empty());
    } else {
        assert forall|i: int| 0 <= i < s.drop_last().len() implies s.drop_last()[i] != '/' by {
            assert(s.contains(s[i]));
        }
        assert(s.contains(s.last()));
        lemma_plain_segment(s.drop_last());
        assert(segments(s) =~= seq![s.drop_last().push(s.last())]);
        assert(s.drop_last().push(s.last()) =~= s);
    }
}

/// A slash and a slash-free part add one segment.
pub(crate) proof fn lemma_further_segment(path: Seq<char>, part: Seq<char>)
    requires
        !part.contains('/'),
    ensures
        segments(path + seq!['/'] + part) == segments(path).push(part),
    decreases part.len(),
{
    let whole = path + seq!['/'] + part;
    if part.len() == 0 {
        assert(whole.drop_last() =~= path);
        assert(part =~= Seq::<char>::empty());
    } else {
        let shorter = part.drop_last();
        assert forall|i: int| 0 <= i < shorter.len() implies shorter[i] != '/' by {
            assert(part.contains(part[i]));
        }
        assert(part.contains(part.last()));
        lemma_further_segment(path, shorter);
        assert(whole.drop_last() =~= path + seq!['/'] + shorter);
        assert(whole.last() == part.last());
        assert(segments(whole) =~= segments(path).push(shorter.push(part.last())));
        assert(shorter.push(part.last()) =~= part);
    }
}

/// What follows a slash leaves the segments before it as they are.
pub(crate) proof fn lemma_segments_stay(path: Seq<char>, rest: Seq<char>)
    ensures
        segments(path + seq!['/'] + rest).len() > segments(path).len(),
        segments(path + seq!['/'] + rest).take(segments(path).len() as int) == segments(path),
    decreases rest.len(),
{
    let whole = path + seq!['/'] + rest;
    if rest.len() == 0 {
        assert(whole.drop_last() =~= path);
        assert(segments(whole).take(segments(path).len() as int) =~= segments(path));
    } else {
        lemma_segments_stay(path, rest.drop_last());
        assert(whole.drop_last() =~= path + seq!['/'] + rest.drop_last());
        assert(segments(whole).take(segments(path).len() as int) =~= segments(
            whole.drop_last(),
        ).take(segments(path).len() as int));
    }
}

/// The segments of a path are free of slashes, and joined by slashes they are the path again.
pub proof fn law_segments_join_to_path(path: Seq<char>)
    ensures
        segments(path).len() >= 1,
        forall|i: int| 0 <= i < segments(path).len() ==> !(#[trigger] segments(path)[i]).contains('/'),
        joined(segments(path)) == path,
    decreases path.len(),
{
    if path.len() == 0 {
        assert(segments(path).drop_last() =~= Seq::<Seq<char>>::empty());
        assert(joined(segments(path)) =~= path);
    } else {
        let before = segments(path.drop_last());
        let after = segments(path);
        law_segments_join_to_path(path.drop_last());
        if path.last() == '/' {
            assert(after.drop_last() =~= before);
            assert(joined(after) =~= path);
        } else {
            assert(after.drop_last() =~= before.drop_last());
            assert forall|i: int| 0 <= i < after.len() implies !(#[trigger] after[i]).contains('/') by {
                assert(!before[i].contains('/'));
                if i == after.len() - 1 && after[i].contains('/') {
                    let j = choose|j: int| 0 <= j < after[i].len() && after[i][j] == '/';
                    assert(before[i][j] == '/');
                }
            }
            assert(joined(after) =~= joined(before).push(path.last()));
            assert(joined(after) =~= path);
        }
    }
}

/// Segments with a slash between each two.
pub open spec fn joined(parts: Seq<Seq<char>>) -> Seq<char>
    decreases parts.len(),
{
    if parts.len() == 0 {
        Seq::empty()
    } else if parts.len() == 1 {
        parts[0]
    } else {
        joined(parts.drop_last()) + seq!['/'] + parts.last()
    }
}

} // verus!
