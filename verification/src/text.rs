//! Text: decimal numerals, white space, words and joining.
use vstd::prelude::*;

verus! {

/// Unicode's White_Space property.
pub open spec fn white_space(c: char) -> bool {
    let u = c as u32;
    ||| 0x9 <= u <= 0xd
    ||| u == 0x20
    ||| u == 0x85
    ||| u == 0xa0
    ||| u == 0x1680
    ||| 0x2000 <= u <= 0x200a
    ||| u == 0x2028
    ||| u == 0x2029
    ||| u == 0x202f
    ||| u == 0x205f
    ||| u == 0x3000
}

/// The sets of characters that the parsers skip or collect.
#[derive(Clone, Copy, Debug, PartialEq, Eq, Structural)]
pub enum CharClass {
    /// White space.
    Space,
    /// Anything but white space.
    Visible,
    /// The command marker `/`.
    Slash,
    /// Anything but the bot-name marker `@`.
    NotAt,
}

impl CharClass {
    /// Membership of `c` in the class.
    pub open spec fn has(self, c: char) -> bool {
        match self {
            CharClass::Space => white_space(c),
            CharClass::Visible => !white_space(c),
            CharClass::Slash => c == '/',
            CharClass::NotAt => c != '@',
        }
    }

    /// Tells whether `c` belongs to the class.
    pub fn contains(&self, c: char) -> (r: bool)
        ensures
            r == self.has(c),
    {
        match self {
            CharClass::Space => is_white_space(c),
            CharClass::Visible => !is_white_space(c),
            CharClass::Slash => c == '/',
            CharClass::NotAt => c != '@',
        }
    }
}

/// Tells whether `c` is white space.
pub fn is_white_space(c: char) -> (r: bool)
    ensures
        r == white_space(c),
{
    let u: u32 = c as u32;
    (0x9 <= u && u <= 0xd) || u == 0x20 || u == 0x85 || u == 0xa0 || u == 0x1680 || (0x2000 <= u
        && u <= 0x200a) || u == 0x2028 || u == 0x2029 || u == 0x202f || u == 0x205f || u == 0x3000
}

/// How many characters at the start of `s` belong to `class`, without a gap.
pub open spec fn leading(s: Seq<char>, class: CharClass) -> nat
    decreases s.len(),
{
    if s.len() > 0 && class.has(s[0]) {
        1 + leading(s.skip(1), class)
    } else {
        0
    }
}

/// How many characters at the end of `s` belong to `class`, without a gap.
pub open spec fn trailing(s: Seq<char>, class: CharClass) -> nat
    decreases s.len(),
{
    if s.len() > 0 && class.has(s.last()) {
        1 + trailing(s.drop_last(), class)
    } else {
        0
    }
}

/// `s` without its leading characters of `class`.
pub open spec fn without_leading(s: Seq<char>, class: CharClass) -> Seq<char> {
    s.skip(leading(s, class) as int)
}

/// `s` up to its first character outside `class`.
pub open spec fn only_leading(s: Seq<char>, class: CharClass) -> Seq<char> {
    s.take(leading(s, class) as int)
}

/// `s` without the white space around it.
pub open spec fn trimmed(s: Seq<char>) -> Seq<char> {
    let t = without_leading(s, CharClass::Space);
    t.take(t.len() - trailing(t, CharClass::Space))
}

/// White space and nothing else.
pub open spec fn blank(s: Seq<char>) -> bool {
    forall|i: int| 0 <= i < s.len() ==> white_space(#[trigger] s[i])
}

/// A prefix inside the class that cannot be extended is the leading run.
pub proof fn lemma_leading_is(s: Seq<char>, class: CharClass, n: nat)
    requires
        n <= s.len(),
        forall|i: int| 0 <= i < n ==> class.has(#[trigger] s[i]),
        n < s.len() ==> !class.has(s[n as int]),
    ensures
        leading(s, class) == n,
    decreases s.len(),
{
    if n > 0 {
        let t = s.skip(1);
        assert forall|i: int| 0 <= i < n - 1 implies class.has(#[trigger] t[i]) by {
            assert(t[i] == s[i + 1]);
        }
        assert(class.has(s[0]));
        lemma_leading_is(t, class, (n - 1) as nat);
    }
}

/// A suffix inside the class that cannot be extended is the trailing run.
pub proof fn lemma_trailing_is(s: Seq<char>, class: CharClass, n: nat)
    requires
        n <= s.len(),
        forall|i: int| s.len() - n <= i < s.len() ==> class.has(#[trigger] s[i]),
        n < s.len() ==> !class.has(s[s.len() - n - 1]),
    ensures
        trailing(s, class) == n,
    decreases s.len(),
{
    if n > 0 {
        let t = s.drop_last();
        assert forall|i: int| t.len() - (n - 1) <= i < t.len() implies class.has(
            #[trigger] t[i],
        ) by {
            assert(t[i] == s[i]);
        }
        assert(class.has(s[s.len() - 1]));
        lemma_trailing_is(t, class, (n - 1) as nat);
    }
}

/// The characters of `s`.
pub fn to_chars(s: &str) -> (r: Vec<char>)
    ensures
        r@ == s@,
{
    let mut out: Vec<char> = Vec::new();
    for c in it: s.chars()
        invariant
            it.seq() == s@,
            out@ == s@.take(it.index()),
    {
        proof {
            assert(s@.take(it.index() + 1) == s@.take(it.index()).push(c));
        }
        out.push(c);
    }
    proof {
        assert(s@.take(s@.len() as int) == s@);
    }
    out
}

/// The end of the run of `class` that starts at `from`.
fn run_end(s: &Vec<char>, from: usize, class: CharClass) -> (r: usize)
    requires
        from <= s.len(),
    ensures
        from <= r <= s.len(),
        r - from == leading(s@.skip(from as int), class),
{
    let mut i: usize = from;
    while i < s.len() && class.contains(s[i])
        invariant
            from <= i <= s.len(),
            forall|k: int| from <= k < i ==> class.has(#[trigger] s@[k]),
        decreases s.len() - i,
    {
        i += 1;
    }
    proof {
        let t = s@.skip(from as int);
        assert forall|k: int| 0 <= k < i - from implies class.has(#[trigger] t[k]) by {
            assert(t[k] == s@[from + k]);
        }
        if i < s.len() {
            assert(t[i - from] == s@[i as int]);
        }
        lemma_leading_is(t, class, (i - from) as nat);
    }
    i
}

/// `s` without the white space around it.
pub fn trim(s: &str) -> (r: &str)
    ensures
        r@ == trimmed(s@),
{
    let chars = to_chars(s);
    let from: usize = run_end(&chars, 0, CharClass::Space);
    let ghost t = without_leading(s@, CharClass::Space);
    let mut to: usize = chars.len();
    proof {
        assert(s@.skip(0) == s@);
    }
    while from < to && is_white_space(chars[to - 1])
        invariant
            chars@ == s@,
            from <= to <= chars.len(),
            t == s@.skip(from as int),
            forall|k: int| to <= k < chars.len() ==> CharClass::Space.has(#[trigger] chars@[k]),
        decreases to,
    {
        to -= 1;
    }
    proof {
        let n = (chars.len() - to) as nat;
        assert forall|k: int| t.len() - n <= k < t.len() implies CharClass::Space.has(
            #[trigger] t[k],
        ) by {
            assert(t[k] == chars@[from + k]);
        }
        if n < t.len() {
            assert(t[t.len() - n - 1] == chars@[to - 1]);
        }
        lemma_trailing_is(t, CharClass::Space, n);
        assert(s@.subrange(from as int, to as int) == trimmed(s@));
    }
    s.substring_char(from, to)
}

/// `s` without its leading characters of `class`.
pub fn skip_leading(s: &str, class: CharClass) -> (r: &str)
    ensures
        r@ == without_leading(s@, class),
{
    let chars = to_chars(s);
    proof {
        assert(s@.skip(0) == s@);
    }
    let from: usize = run_end(&chars, 0, class);
    s.substring_char(from, chars.len())
}

/// `s` up to its first character outside `class`.
pub fn take_leading(s: &str, class: CharClass) -> (r: &str)
    ensures
        r@ == only_leading(s@, class),
{
    let chars = to_chars(s);
    proof {
        assert(s@.skip(0) == s@);
    }
    let to: usize = run_end(&chars, 0, class);
    s.substring_char(0, to)
}

/// Tells whether two texts hold the same characters.
pub fn same_text(a: &str, b: &str) -> (r: bool)
    ensures
        r == (a@ == b@),
{
    a.to_owned() == b.to_owned()
}

/// The decimal digit `d`.
pub open spec fn digit(d: nat) -> char {
    (0x30 + d) as char
}

/// The decimal numeral of `n`, without leading zeros.
pub open spec fn decimal(n: nat) -> Seq<char>
    decreases n,
{
    if n < 10 {
        seq![digit(n)]
    } else {
        decimal(n / 10).push(digit(n % 10))
    }
}

/// The text of one decimal digit.
fn digit_text(d: u64) -> (r: &'static str)
    requires
        d < 10,
    ensures
        r@ == seq![digit(d as nat)],
{
    proof {
        reveal_strlit("0");
        reveal_strlit("1");
        reveal_strlit("2");
        reveal_strlit("3");
        reveal_strlit("4");
        reveal_strlit("5");
        reveal_strlit("6");
        reveal_strlit("7");
        reveal_strlit("8");
        reveal_strlit("9");
    }
    match d {
        0 => "0",
        1 => "1",
        2 => "2",
        3 => "3",
        4 => "4",
        5 => "5",
        6 => "6",
        7 => "7",
        8 => "8",
        _ => "9",
    }
}

/// Renders `n` in decimal.
pub fn decimal_text(n: u64) -> (r: String)
    ensures
        r@ == decimal(n as nat),
    decreases n,
{
    if n < 10 {
        digit_text(n).to_owned()
    } else {
        let mut out = decimal_text(n / 10);
        out.append(digit_text(n % 10));
        proof {
            assert(out@ == decimal(n as nat));
        }
        out
    }
}

/// A decimal digit.
pub open spec fn is_digit(c: char) -> bool {
    0x30 <= c as u32 <= 0x39
}

/// Nothing but decimal digits.
pub open spec fn all_digits(s: Seq<char>) -> bool {
    forall|i: int| 0 <= i < s.len() ==> is_digit(#[trigger] s[i])
}

/// The number that a string of decimal digits denotes.
pub open spec fn digits_value(s: Seq<char>) -> nat
    decreases s.len(),
{
    if s.len() == 0 {
        0
    } else {
        digits_value(s.drop_last()) * 10 + (s.last() as u32 - 0x30) as nat
    }
}

/// The 64-bit integer that `s` denotes: an optional sign and at least one decimal digit,
/// with nothing around them.
pub open spec fn integer_of(s: Seq<char>) -> Option<i64> {
    let signed = s.len() > 0 && (s[0] == '-' || s[0] == '+');
    let digits = if signed {
        s.skip(1)
    } else {
        s
    };
    let value = if signed && s[0] == '-' {
        -(digits_value(digits) as int)
    } else {
        digits_value(digits) as int
    };
    if digits.len() > 0 && all_digits(digits) && i64::MIN <= value <= i64::MAX {
        Some(value as i64)
    } else {
        None
    }
}

/// Dropping the last digits never makes a number larger.
proof fn lemma_value_prefix(s: Seq<char>, n: int)
    requires
        0 <= n <= s.len(),
    ensures
        digits_value(s.take(n)) <= digits_value(s),
    decreases s.len() - n,
{
    if n == s.len() {
        assert(s.take(n) == s);
    } else {
        lemma_value_prefix(s, n + 1);
        let t = s.take(n + 1);
        assert(t.drop_last() == s.take(n));
    }
}

/// Reads a 64-bit integer.
pub fn parse_integer(s: &str) -> (r: Option<i64>)
    ensures
        r == integer_of(s@),
{
    let chars = to_chars(s);
    let signed: bool = chars.len() > 0 && (chars[0] == '-' || chars[0] == '+');
    let negative: bool = signed && chars[0] == '-';
    let from: usize = if signed {
        1
    } else {
        0
    };
    let ghost digits = s@.skip(from as int);
    proof {
        assert(!signed ==> digits == s@);
    }
    if from == chars.len() {
        return None;
    }
    let mut value: i128 = 0;
    let mut i: usize = from;
    proof {
        assert(digits.take(0) == Seq::<char>::empty());
    }
    while i < chars.len()
        invariant
            chars@ == s@,
            from <= i <= chars.len(),
            digits == s@.skip(from as int),
            signed == (s@.len() > 0 && (s@[0] == '-' || s@[0] == '+')),
            negative == (signed && s@[0] == '-'),
            from == (if signed { 1int } else { 0int }),
            !signed ==> digits == s@,
            forall|k: int| 0 <= k < i - from ==> is_digit(#[trigger] digits[k]),
            value == digits_value(digits.take(i - from)),
            value <= 0x8000_0000_0000_0000,
        decreases chars.len() - i,
    {
        let u: u32 = chars[i] as u32;
        proof {
            assert(digits[i - from] == chars@[i as int]);
        }
        if u < 0x30 || u > 0x39 {
            proof {
                assert(!all_digits(digits));
            }
            return None;
        }
        value = value * 10 + (u - 0x30) as i128;
        proof {
            let t = digits.take(i - from + 1);
            assert(t.drop_last() == digits.take(i - from));
            assert(t.last() == digits[i - from]);
            lemma_value_prefix(digits, i - from + 1);
        }
        if value > 0x8000_0000_0000_0000 {
            return None;
        }
        i += 1;
    }
    proof {
        assert(digits.take(digits.len() as int) == digits);
        assert(all_digits(digits));
    }
    if negative {
        Some((0 - value) as i64)
    } else if value <= 0x7fff_ffff_ffff_ffff {
        Some(value as i64)
    } else {
        None
    }
}

/// The rows one after the other, with `sep` between neighbours.
pub open spec fn joined(rows: Seq<Seq<char>>, sep: Seq<char>) -> Seq<char>
    decreases rows.len(),
{
    if rows.len() == 0 {
        Seq::empty()
    } else if rows.len() == 1 {
        rows[0]
    } else {
        joined(rows.drop_last(), sep) + sep + rows.last()
    }
}

/// What the strings of a list hold.
pub open spec fn texts(rows: Seq<String>) -> Seq<Seq<char>> {
    rows.map_values(|s: String| s@)
}

/// Joins the rows with a line break between neighbours.
pub fn join_lines(rows: &Vec<String>) -> (r: String)
    ensures
        r@ == joined(texts(rows@), "\n"@),
{
    let mut out = String::new();
    let mut i: usize = 0;
    while i < rows.len()
        invariant
            i <= rows.len(),
            out@ == joined(texts(rows@.take(i as int)), "\n"@),
        decreases rows.len() - i,
    {
        proof {
            let t = texts(rows@.take(i as int + 1));
            assert(t.drop_last() == texts(rows@.take(i as int)));
            assert(t.last() == rows@[i as int]@);
        }
        if i > 0 {
            out.append("\n");
        }
        out.append(rows[i].as_str());
        proof {
            assert(i == 0 ==> out@ == rows@[0]@);
        }
        i += 1;
    }
    proof {
        assert(rows@.take(rows@.len() as int) == rows@);
    }
    out
}

/// `s` followed by blanks up to a width of `width` characters.
pub open spec fn padded(s: Seq<char>, width: nat) -> Seq<char>
    decreases width - s.len(),
{
    if s.len() >= width {
        s
    } else {
        padded(s.push(' '), width)
    }
}

/// Pads `s` on the right with blanks to a width of `width` characters.
pub fn pad_right(s: &str, width: usize) -> (r: String)
    ensures
        r@ == padded(s@, width as nat),
{
    let mut out = s.to_owned();
    let mut n: usize = s.unicode_len();
    while n < width
        invariant
            n == out@.len(),
            padded(out@, width as nat) == padded(s@, width as nat),
        decreases width - n,
    {
        proof {
            reveal_strlit(" ");
            assert(out@ + " "@ == out@.push(' '));
        }
        out.append(" ");
        n += 1;
    }
    out
}

/// Reading back a rendered number gives that number.
pub proof fn law_decimal_reads_back(n: nat)
    requires
        n <= i64::MAX,
    ensures
        integer_of(decimal(n)) == Some(n as i64),
{
    lemma_decimal_digits(n);
    let s = decimal(n);
    assert(is_digit(s[0]));
}

/// A numeral is made of digits and denotes the number it was rendered from.
proof fn lemma_decimal_digits(n: nat)
    ensures
        decimal(n).len() > 0,
        all_digits(decimal(n)),
        digits_value(decimal(n)) == n,
    decreases n,
{
    if n < 10 {
        assert(decimal(n).drop_last() == Seq::<char>::empty());
        assert(digits_value(decimal(n).drop_last()) == 0);
    } else {
        lemma_decimal_digits(n / 10);
        let head = decimal(n / 10);
        let s = decimal(n);
        assert(s.drop_last() == head);
        assert forall|i: int| 0 <= i < s.len() implies is_digit(#[trigger] s[i]) by {
            if i < head.len() {
                assert(s[i] == head[i]);
            }
        }
    }
}

/// White space is these characters and no others.
pub proof fn law_white_space(c: char)
    ensures
        white_space(c) <==> {
            ||| c == '\u{9}'
            ||| c == '\u{a}'
            ||| c == '\u{b}'
            ||| c == '\u{c}'
            ||| c == '\u{d}'
            ||| c == ' '
            ||| c == '\u{85}'
            ||| c == '\u{a0}'
            ||| c == '\u{1680}'
            ||| c == '\u{2000}'
            ||| c == '\u{2001}'
            ||| c == '\u{2002}'
            ||| c == '\u{2003}'
            ||| c == '\u{2004}'
            ||| c == '\u{2005}'
            ||| c == '\u{2006}'
            ||| c == '\u{2007}'
            ||| c == '\u{2008}'
            ||| c == '\u{2009}'
            ||| c == '\u{200a}'
            ||| c == '\u{2028}'
            ||| c == '\u{2029}'
            ||| c == '\u{202f}'
            ||| c == '\u{205f}'
            ||| c == '\u{3000}'
        },
{
}

/// Trimming takes away exactly the white space around a text, and all of a text that is
/// nothing else.
pub proof fn law_trim(before: Seq<char>, core: Seq<char>, after: Seq<char>)
    requires
        forall|i: int| 0 <= i < before.len() ==> white_space(#[trigger] before[i]),
        forall|i: int| 0 <= i < after.len() ==> white_space(#[trigger] after[i]),
    ensures
        core.len() > 0 && !white_space(core[0]) && !white_space(core.last()) ==> trimmed(
            before + core + after,
        ) == core,
        trimmed(before) == Seq::<char>::empty(),
{
    lemma_leading_is(before, CharClass::Space, before.len());
    assert(trimmed(before) =~= Seq::empty());
    if core.len() > 0 && !white_space(core[0]) && !white_space(core.last()) {
        let s = before + core + after;
        assert forall|i: int| 0 <= i < before.len() implies CharClass::Space.has(
            #[trigger] s[i],
        ) by {
            assert(s[i] == before[i]);
        }
        assert(s[before.len() as int] == core[0]);
        lemma_leading_is(s, CharClass::Space, before.len());
        let t = s.skip(before.len() as int);
        assert(t =~= core + after);
        assert forall|i: int| t.len() - after.len() <= i < t.len() implies CharClass::Space.has(
            #[trigger] t[i],
        ) by {
            assert(t[i] == after[i - core.len()]);
        }
        assert(t[t.len() - after.len() - 1] == core.last());
        lemma_trailing_is(t, CharClass::Space, after.len());
        assert(t.take(t.len() - after.len()) =~= core);
    }
}

/// A numeral is the numeral of all but its last digit, and then that digit.
pub proof fn law_decimal(n: nat)
    ensures
        decimal(0) == "0"@,
        decimal(1) == "1"@,
        decimal(2) == "2"@,
        decimal(3) == "3"@,
        decimal(4) == "4"@,
        decimal(5) == "5"@,
        decimal(6) == "6"@,
        decimal(7) == "7"@,
        decimal(8) == "8"@,
        decimal(9) == "9"@,
        n >= 10 ==> decimal(n) == decimal(n / 10) + decimal(n % 10),
{
    reveal_strlit("0");
    reveal_strlit("1");
    reveal_strlit("2");
    reveal_strlit("3");
    reveal_strlit("4");
    reveal_strlit("5");
    reveal_strlit("6");
    reveal_strlit("7");
    reveal_strlit("8");
    reveal_strlit("9");
    assert(decimal(0) =~= "0"@);
    assert(decimal(1) =~= "1"@);
    assert(decimal(2) =~= "2"@);
    assert(decimal(3) =~= "3"@);
    assert(decimal(4) =~= "4"@);
    assert(decimal(5) =~= "5"@);
    assert(decimal(6) =~= "6"@);
    assert(decimal(7) =~= "7"@);
    assert(decimal(8) =~= "8"@);
    assert(decimal(9) =~= "9"@);
    if n >= 10 {
        assert(decimal(n) =~= decimal(n / 10) + decimal(n % 10));
    }
}

/// A numeral, with or without a sign, is read as the number it stands for where that fits in
/// 64 bits, and not at all where it does not.
pub proof fn law_integer_is_read(n: nat)
    ensures
        n <= 0x7fff_ffff_ffff_ffff ==> integer_of(decimal(n)) == Some(n as i64),
        n <= 0x7fff_ffff_ffff_ffff ==> integer_of(seq!['+'] + decimal(n)) == Some(n as i64),
        n <= 0x8000_0000_0000_0000 ==> integer_of(seq!['-'] + decimal(n)) == Some(-n as i64),
        n > 0x7fff_ffff_ffff_ffff ==> integer_of(decimal(n)) is None,
        n > 0x7fff_ffff_ffff_ffff ==> integer_of(seq!['+'] + decimal(n)) is None,
        n > 0x8000_0000_0000_0000 ==> integer_of(seq!['-'] + decimal(n)) is None,
{
    lemma_decimal_digits(n);
    let d = decimal(n);
    assert(is_digit(d[0]));
    assert((seq!['+'] + d).skip(1) =~= d);
    assert((seq!['-'] + d).skip(1) =~= d);
}

/// Leading zeros make no difference to the number that is read.
pub proof fn law_leading_zeros(digits: Seq<char>)
    requires
        digits.len() > 0,
        forall|i: int| 0 <= i < digits.len() ==> 0x30 <= (#[trigger] digits[i]) as u32 <= 0x39,
    ensures
        integer_of(seq!['0'] + digits) == integer_of(digits),
        integer_of(seq!['+', '0'] + digits) == integer_of(seq!['+'] + digits),
        integer_of(seq!['-', '0'] + digits) == integer_of(seq!['-'] + digits),
{
    let longer = seq!['0'] + digits;
    lemma_zero_digit(digits);
    assert(is_digit(digits[0]));
    assert forall|i: int| 0 <= i < digits.len() implies is_digit(#[trigger] digits[i]) by {}
    assert forall|i: int| 0 <= i < longer.len() implies is_digit(#[trigger] longer[i]) by {
        if i > 0 {
            assert(longer[i] == digits[i - 1]);
        }
    }
    assert((seq!['+', '0'] + digits).skip(1) =~= longer);
    assert((seq!['-', '0'] + digits).skip(1) =~= longer);
    assert((seq!['+'] + digits).skip(1) =~= digits);
    assert((seq!['-'] + digits).skip(1) =~= digits);
}

/// A zero before some digits adds nothing.
proof fn lemma_zero_digit(digits: Seq<char>)
    ensures
        digits_value(seq!['0'] + digits) == digits_value(digits),
    decreases digits.len(),
{
    let longer = seq!['0'] + digits;
    if digits.len() == 0 {
        assert(longer.drop_last() =~= Seq::empty());
        assert(digits_value(longer.drop_last()) == 0);
    } else {
        lemma_zero_digit(digits.drop_last());
        assert(longer.drop_last() =~= seq!['0'] + digits.drop_last());
    }
}

/// A text that holds anything but digits and one sign before them, or no digit, is no integer.
pub proof fn law_no_integer(s: Seq<char>, i: int)
    requires
        0 <= i < s.len() ==> !(0x30 <= s[i] as u32 <= 0x39) && (i > 0 || (s[0] != '+' && s[0]
            != '-')),
        i < 0 || i >= s.len() ==> s.len() == 0 || (s.len() == 1 && (s[0] == '+' || s[0] == '-')),
    ensures
        integer_of(s) is None,
{
    if 0 <= i < s.len() {
        if s[0] == '+' || s[0] == '-' {
            assert(s.skip(1)[i - 1] == s[i]);
            assert(!is_digit(s.skip(1)[i - 1]));
        } else {
            assert(!is_digit(s[i]));
        }
    }
}

/// Joining puts the separator between neighbours and nowhere else.
pub proof fn law_joined(rows: Seq<Seq<char>>, row: Seq<char>, sep: Seq<char>)
    ensures
        joined(Seq::empty(), sep) == Seq::<char>::empty(),
        joined(seq![row], sep) == row,
        rows.len() > 0 ==> joined(rows.push(row), sep) == joined(rows, sep) + sep + row,
{
    if rows.len() > 0 {
        assert(rows.push(row).drop_last() =~= rows);
    }
}

/// Padding keeps the text and adds blanks behind it up to the width, and none beyond.
pub proof fn law_padded(s: Seq<char>, width: nat)
    ensures
        padded(s, width).len() == (if s.len() < width {
            width
        } else {
            s.len()
        }),
        padded(s, width).take(s.len() as int) == s,
        forall|i: int| s.len() <= i < width ==> #[trigger] padded(s, width)[i] == ' ',
    decreases width - s.len(),
{
    if s.len() < width {
        let t = s.push(' ');
        law_padded(t, width);
        let p = padded(s, width);
        assert(p.take(t.len() as int)[s.len() as int] == ' ');
        assert(p.take(s.len() as int) =~= p.take(t.len() as int).take(s.len() as int));
        assert(t.take(s.len() as int) =~= s);
    } else {
        assert(s.take(s.len() as int) =~= s);
    }
}

/// A list of strings is taken string by string.
pub proof fn law_texts(rows: Seq<String>, i: int)
    requires
        0 <= i < rows.len(),
    ensures
        texts(rows).len() == rows.len(),
        texts(rows)[i] == rows[i]@,
{
}

} // verus!
