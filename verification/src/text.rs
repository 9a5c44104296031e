//! Small operations on text: joining, blankness, case-insensitive equality and
//! decimal numbers.
use vstd::prelude::*;

verus! {

/// The characters with the Unicode property `White_Space`.
pub open spec fn white_space(c: char) -> bool {
    ||| '\u{9}' <= c <= '\u{d}'
    ||| c == ' '
    ||| c == '\u{85}'
    ||| c == '\u{a0}'
    ||| c == '\u{1680}'
    ||| '\u{2000}' <= c <= '\u{200a}'
    ||| c == '\u{2028}'
    ||| c == '\u{2029}'
    ||| c == '\u{202f}'
    ||| c == '\u{205f}'
    ||| c == '\u{3000}'
}

/// Whether nothing but white space is in the text.
pub open spec fn blank(text: Seq<char>) -> bool {
    forall|i: int| 0 <= i < text.len() ==> white_space(#[trigger] text[i])
}

fn is_white_space(c: char) -> (yes: bool)
    ensures
        yes == white_space(c),
{
    ('\u{9}' <= c && c <= '\u{d}') || c == ' ' || c == '\u{85}' || c == '\u{a0}' || c == '\u{1680}'
        || ('\u{2000}' <= c && c <= '\u{200a}') || c == '\u{2028}' || c == '\u{2029}' || c
        == '\u{202f}' || c == '\u{205f}' || c == '\u{3000}'
}

/// Whether the text is empty once white space at its ends is cut off.
pub fn is_blank(text: &str) -> (yes: bool)
    ensures
        yes == blank(text@),
{
    for c in chars: text.chars()
        invariant
            chars.seq() == text@,
            forall|i: int| 0 <= i < chars.index() ==> white_space(#[trigger] text@[i]),
    {
        if !is_white_space(c) {
            assert(!white_space(text@[chars.index()]));
            return false;
        }
    }
    true
}

/// The character with an ASCII capital letter made small.
pub open spec fn ascii_lower(c: char) -> char {
    if 'A' <= c <= 'Z' {
        (c as u32 + 32) as char
    } else {
        c
    }
}

/// Whether two texts differ at most in the case of ASCII letters.
pub open spec fn same_ignoring_ascii_case(a: Seq<char>, b: Seq<char>) -> bool {
    &&& a.len() == b.len()
    &&& forall|i: int| 0 <= i < a.len() ==> ascii_lower(#[trigger] a[i]) == ascii_lower(b[i])
}

/// The characters of a text, in order.
pub fn characters(text: &str) -> (all: Vec<char>)
    ensures
        all@ == text@,
{
    let mut all: Vec<char> = Vec::new();
    for c in chars: text.chars()
        invariant
            chars.seq() == text@,
            all@ == text@.take(chars.index() as int),
    {
        all.push(c);
        assert(text@.take(chars.index() + 1) =~= text@.take(chars.index() as int).push(c));
    }
    assert(text@.take(text@.len() as int) =~= text@);
    all
}

fn to_ascii_lower(c: char) -> (low: u32)
    ensures
        low == ascii_lower(c) as u32,
{
    if 'A' <= c && c <= 'Z' {
        c as u32 + 32
    } else {
        c as u32
    }
}

/// Whether two texts differ at most in the case of ASCII letters.
pub fn eq_ignoring_ascii_case(a: &str, b: &str) -> (same: bool)
    ensures
        same == same_ignoring_ascii_case(a@, b@),
{
    let left: Vec<char> = characters(a);
    let right: Vec<char> = characters(b);
    if left.len() != right.len() {
        return false;
    }
    let mut i: usize = 0;
    while i < left.len()
        invariant
            left@ == a@,
            right@ == b@,
            left.len() == right.len(),
            i <= left.len(),
            forall|j: int|
                0 <= j < i ==> ascii_lower(#[trigger] left@[j]) == ascii_lower(right@[j]),
        decreases left.len() - i,
    {
        if to_ascii_lower(left[i]) != to_ascii_lower(right[i]) {
            assert(ascii_lower(a@[i as int]) != ascii_lower(b@[i as int]));
            return false;
        }
        i += 1;
    }
    true
}

/// The decimal digits of a number, without leading zeros.
pub open spec fn decimal(n: nat) -> Seq<char>
    decreases n,
{
    if n < 10 {
        seq![(48 + n) as char]
    } else {
        decimal(n / 10).push((48 + n % 10) as char)
    }
}

fn digit(n: u32) -> (text: &'static str)
    requires
        n < 10,
    ensures
        text@ == seq![(48 + n) as char],
{
    proof {
        reveal_strlit("0");
        reveal_strlit("1");
        reveal_strlit("2");
        reveal_strlit("3");
        reveal_strlit("4");
        reveal_strlit("5");
        reveal_strlit("6");
        reveal_strlit("7");
        reveal_strlit("8");
        reveal_strlit("9");
    }
    match n {
        0 => "0",
        1 => "1",
        2 => "2",
        3 => "3",
        4 => "4",
        5 => "5",
        6 => "6",
        7 => "7",
        8 => "8",
        _ => "9",
    }
}

/// The decimal digits of a number.
pub fn decimal_text(n: u32) -> (text: String)
    ensures
        text@ == decimal(n as nat),
    decreases n,
{
    let mut text: String = if n < 10 {
        String::new()
    } else {
        decimal_text(n / 10)
    };
    let ghost front: Seq<char> = text@;
    text.append(digit(n % 10));
    assert(text@ =~= front.push((48 + n % 10) as char));
    text
}

/// Three texts, one after the other.
pub fn join3(a: &str, b: &str, c: &str) -> (joined: String)
    ensures
        joined@ == a@ + b@ + c@,
{
    let mut joined: String = String::new();
    joined.append(a);
    joined.append(b);
    joined.append(c);
    assert(joined@ =~= a@ + b@ + c@);
    joined
}

/// A text is blank exactly where each of its characters is one of the white space
/// characters of Unicode.
pub proof fn law_blank_by_code_points(text: &str, yes: bool)
    requires
        call_ensures(is_blank, (text,), yes),
    ensures
        yes <==> forall|i: int|
            0 <= i < text@.len() ==> {
                let code = #[trigger] text@[i] as int;
                ||| 9 <= code <= 13
                ||| code == 0x20
                ||| code == 0x85
                ||| code == 0xA0
                ||| code == 0x1680
                ||| 0x2000 <= code <= 0x200A
                ||| code == 0x2028
                ||| code == 0x2029
                ||| code == 0x202F
                ||| code == 0x205F
                ||| code == 0x3000
            },
{
    if !yes {
        let i = choose|i: int| 0 <= i < text@.len() && !white_space(#[trigger] text@[i]);
        assert(!white_space(text@[i]));
    }
}

/// Two texts are the same but for the case of ASCII letters exactly where they are of one
/// length and each character of one is that of the other, or the same of the twenty-six
/// letters in the other case.
pub proof fn law_case_of_ascii_letters_alone_is_ignored(a: &str, b: &str, same: bool)
    requires
        call_ensures(eq_ignoring_ascii_case, (a, b), same),
    ensures
        same <==> a@.len() == b@.len() && forall|i: int|
            0 <= i < a@.len() ==> {
                let x = #[trigger] a@[i] as u32;
                let y = b@[i] as u32;
                ||| x == y
                ||| 65 <= x <= 90 && y == x + 32
                ||| 65 <= y <= 90 && x == y + 32
            },
{
    if same {
        assert forall|i: int| 0 <= i < a@.len() implies ({
            let x = #[trigger] a@[i] as u32;
            let y = b@[i] as u32;
            ||| x == y
            ||| 65 <= x <= 90 && y == x + 32
            ||| 65 <= y <= 90 && x == y + 32
        }) by {
            lemma_lower_pair(a@[i], b@[i]);
        }
    } else if a@.len() == b@.len() {
        let i = choose|i: int|
            0 <= i < a@.len() && ascii_lower(#[trigger] a@[i]) != ascii_lower(b@[i]);
        lemma_lower_pair(a@[i], b@[i]);
    }
}

proof fn lemma_lower_pair(a: char, b: char)
    ensures
        ascii_lower(a) == ascii_lower(b) <==> {
            ||| a as u32 == b as u32
            ||| 65 <= a as u32 <= 90 && b as u32 == a as u32 + 32
            ||| 65 <= b as u32 <= 90 && a as u32 == b as u32 + 32
        },
{
}

/// The number that decimal digits stand for.
pub open spec fn number_of(digits: Seq<char>) -> int
    decreases digits.len(),
{
    if digits.len() == 0 {
        0
    } else {
        10 * number_of(digits.drop_last()) + (digits.last() as int - 48)
    }
}

proof fn lemma_decimal(n: nat)
    ensures
        number_of(decimal(n)) == n,
        decimal(n).len() >= 1,
        forall|i: int| 0 <= i < decimal(n).len() ==> 48 <= #[trigger] decimal(n)[i] as int <= 57,
        n > 0 ==> decimal(n)[0] as int != 48,
        n == 0 ==> decimal(n).len() == 1,
    decreases n,
{
    reveal_with_fuel(number_of, 2);
    if n >= 10 {
        lemma_decimal(n / 10);
        let front = decimal(n / 10);
        assert(decimal(n).drop_last() =~= front);
        assert(decimal(n).last() as int == 48 + n % 10);
        assert forall|i: int| 0 <= i < decimal(n).len() implies 48 <= #[trigger] decimal(
            n,
        )[i] as int <= 57 by {
            if i < front.len() {
                assert(decimal(n)[i] == front[i]);
            }
        }
        assert(decimal(n)[0] == front[0]);
    }
}

/// A number is written in decimal digits that read back as it, without zeros before them.
pub proof fn law_numbers_read_back(n: u32, text: String)
    requires
        call_ensures(decimal_text, (n,), text),
    ensures
        number_of(text@) == n,
        text@.len() >= 1,
        forall|i: int| 0 <= i < text@.len() ==> '0' <= #[trigger] text@[i] <= '9',
        text@.len() > 1 ==> text@[0] != '0',
{
    lemma_decimal(n as nat);
    assert forall|i: int| 0 <= i < text@.len() implies '0' <= #[trigger] text@[i] <= '9' by {
        assert(48 <= decimal(n as nat)[i] as int <= 57);
    }
}

/// Taking a text apart and putting texts together keeps every character in its place.
pub proof fn law_text_is_kept(
    text: &str,
    all: Vec<char>,
    a: &str,
    b: &str,
    c: &str,
    joined: String,
)
    requires
        call_ensures(characters, (text,), all),
        call_ensures(join3, (a, b, c), joined),
    ensures
        all@ == text@,
        joined@ == a@ + b@ + c@,
{
}

} // verus!
