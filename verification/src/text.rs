use vstd::prelude::*;
use vstd::string::StringExecFns;

verus! {

/// Character-wise equality of two string slices.
pub fn str_eq(a: &str, b: &str) -> (r: bool)
    ensures
        r == (a@ == b@),
{
    let x: String = a.to_owned();
    let y: String = b.to_owned();
    x == y
}

/// The decimal digit character for a value below ten.
pub open spec fn digit_char(d: nat) -> char {
    if d == 0 {
        '0'
    } else if d == 1 {
        '1'
    } else if d == 2 {
        '2'
    } else if d == 3 {
        '3'
    } else if d == 4 {
        '4'
    } else if d == 5 {
        '5'
    } else if d == 6 {
        '6'
    } else if d == 7 {
        '7'
    } else if d == 8 {
        '8'
    } else {
        '9'
    }
}

/// The decimal rendering of a number, most significant digit first.
pub open spec fn dec_of(n: nat) -> Seq<char>
    decreases n,
{
    if n < 10 {
        seq![digit_char(n)]
    } else {
        dec_of(n / 10).push(digit_char(n % 10))
    }
}

/// The one-character string for a decimal digit.
pub fn digit_string(d: u64) -> (r: String)
    requires
        d < 10,
    ensures
        r@ == seq![digit_char(d as nat)],
{
    let s: &str = if d == 0 {
        "0"
    } else if d == 1 {
        "1"
    } else if d == 2 {
        "2"
    } else if d == 3 {
        "3"
    } else if d == 4 {
        "4"
    } else if d == 5 {
        "5"
    } else if d == 6 {
        "6"
    } else if d == 7 {
        "7"
    } else if d == 8 {
        "8"
    } else {
        "9"
    };
    proof {
        reveal_strlit("0");
        reveal_strlit("1");
        reveal_strlit("2");
        reveal_strlit("3");
        reveal_strlit("4");
        reveal_strlit("5");
        reveal_strlit("6");
        reveal_strlit("7");
        reveal_strlit("8");
        reveal_strlit("9");
        assert(s@ =~= seq![digit_char(d as nat)]);
    }
    s.to_owned()
}

/// Renders a number in decimal.
pub fn u64_to_dec(n: u64) -> (r: String)
    ensures
        r@ == dec_of(n as nat),
    decreases n,
{
    if n < 10 {
        digit_string(n)
    } else {
        let head = u64_to_dec(n / 10);
        let tail = digit_string(n % 10);
        let r = head.concat(tail.as_str());
        proof {
            assert(r@ =~= dec_of(n as nat));
        }
        r
    }
}

/// The rendering of a temperature carried in hundredths: the whole part
/// in decimal, a point, and exactly two fractional digits.
pub open spec fn temp_text(h: nat) -> Seq<char> {
    dec_of(h / 100) + seq!['.', digit_char((h % 100) / 10), digit_char(h % 10)]
}

/// Renders a temperature carried in hundredths.
pub fn temp_display(h: u32) -> (r: String)
    ensures
        r@ == temp_text(h as nat),
{
    let whole = u64_to_dec((h as u64) / 100);
    let d1 = digit_string(((h as u64) % 100) / 10);
    let d2 = digit_string((h as u64) % 10);
    let r = whole.concat(".").concat(d1.as_str()).concat(d2.as_str());
    proof {
        reveal_strlit(".");
        assert(r@ =~= temp_text(h as nat));
    }
    r
}


/// Whitespace, for splitting a settings command into words: the
/// Unicode white-space code points, by value.
pub open spec fn is_space_char(c: char) -> bool {
    let u = c as int;
    u == 0x09 || u == 0x0A || u == 0x0B || u == 0x0C || u == 0x0D || u == 0x20 || u == 0x85
        || u == 0xA0 || u == 0x1680 || (0x2000 <= u && u <= 0x200A) || u == 0x2028 || u == 0x2029
        || u == 0x202F || u == 0x205F || u == 0x3000
}

/// Whether a character is Unicode white space.
pub fn is_space(c: char) -> (r: bool)
    ensures
        r == is_space_char(c),
{
    let u = c as u32;
    u == 0x09 || u == 0x0A || u == 0x0B || u == 0x0C || u == 0x0D || u == 0x20 || u == 0x85
        || u == 0xA0 || u == 0x1680 || (0x2000 <= u && u <= 0x200A) || u == 0x2028 || u == 0x2029
        || u == 0x202F || u == 0x205F || u == 0x3000
}

/// One left-to-right pass of word splitting: `cur` is the word being
/// read, `acc` the words already read.
pub open spec fn words_step(s: Seq<char>, i: int, cur: Seq<char>, acc: Seq<Seq<char>>) -> Seq<
    Seq<char>,
>
    decreases s.len() - i,
{
    if i >= s.len() {
        if cur.len() == 0 {
            acc
        } else {
            acc.push(cur)
        }
    } else if is_space_char(s[i]) {
        if cur.len() == 0 {
            words_step(s, i + 1, cur, acc)
        } else {
            words_step(s, i + 1, Seq::empty(), acc.push(cur))
        }
    } else {
        words_step(s, i + 1, cur.push(s[i]), acc)
    }
}

/// The whitespace-separated words of a text, in order.
pub open spec fn words_of(s: Seq<char>) -> Seq<Seq<char>> {
    words_step(s, 0, Seq::empty(), Seq::empty())
}

/// Splits a text into its whitespace-separated words.
pub fn split_words(s: &str) -> (r: Vec<String>)
    ensures
        r.deep_view() == words_of(s@),
{
    let n = s.unicode_len();
    let mut acc: Vec<String> = Vec::new();
    let mut i: usize = 0;
    let mut start: usize = 0;
    let mut in_word: bool = false;
    proof {
        assert(acc.deep_view() =~= Seq::<Seq<char>>::empty());
    }
    while i < n
        invariant
            n == s@.len(),
            i <= n,
            in_word ==> start < i,
            words_step(
                s@,
                i as int,
                if in_word {
                    s@.subrange(start as int, i as int)
                } else {
                    Seq::<char>::empty()
                },
                acc.deep_view(),
            ) == words_of(s@),
        decreases n - i,
    {
        let ghost cur0: Seq<char> = if in_word {
            s@.subrange(start as int, i as int)
        } else {
            Seq::<char>::empty()
        };
        let ghost acc0: Seq<Seq<char>> = acc.deep_view();
        let c = s.get_char(i);
        if is_space(c) {
            if in_word {
                let w = s.substring_char(start, i).to_owned();
                acc.push(w);
                in_word = false;
                proof {
                    assert(acc.deep_view() =~= acc0.push(cur0));
                }
            }
        } else {
            if !in_word {
                start = i;
                in_word = true;
            }
        }
        proof {
            let cur1: Seq<char> = if in_word {
                s@.subrange(start as int, i + 1)
            } else {
                Seq::<char>::empty()
            };
            if in_word {
                assert(s@.subrange(start as int, i + 1) =~= s@.subrange(start as int, i as int)
                    .push(s@[i as int]));
                assert(s@.subrange(i as int, i as int) =~= Seq::<char>::empty());
            }
            assert(words_step(s@, i + 1, cur1, acc.deep_view()) == words_step(
                s@,
                i as int,
                cur0,
                acc0,
            ));
        }
        i = i + 1;
    }
    if in_word {
        let ghost acc0: Seq<Seq<char>> = acc.deep_view();
        let ghost cur0: Seq<char> = s@.subrange(start as int, i as int);
        let w = s.substring_char(start, n).to_owned();
        acc.push(w);
        proof {
            assert(acc.deep_view() =~= acc0.push(cur0));
        }
    }
    acc
}

/// A decimal digit's numeric value, for characters '0' through '9'.
pub open spec fn is_digit_char(c: char) -> bool {
    48 <= c as int && c as int <= 57
}

/// The value of a decimal digit character.
pub open spec fn digit_val(c: char) -> int {
    c as int - 48
}

/// The temperature, in hundredths, that a settings value denotes: one
/// integer digit, optionally followed by a point and one or two
/// fractional digits. Anything else is rejected.
pub open spec fn temp_of(s: Seq<char>) -> Option<u32> {
    if s.len() == 1 && is_digit_char(s[0]) {
        Some((digit_val(s[0]) * 100) as u32)
    } else if s.len() == 3 && is_digit_char(s[0]) && s[1] == '.' && is_digit_char(s[2]) {
        Some((digit_val(s[0]) * 100 + digit_val(s[2]) * 10) as u32)
    } else if s.len() == 4 && is_digit_char(s[0]) && s[1] == '.' && is_digit_char(s[2])
        && is_digit_char(s[3]) {
        Some((digit_val(s[0]) * 100 + digit_val(s[2]) * 10 + digit_val(s[3])) as u32)
    } else {
        None
    }
}

/// Parses a temperature value into hundredths.
pub fn parse_temperature(v: &str) -> (r: Option<u32>)
    ensures
        r == temp_of(v@),
{
    let n = v.unicode_len();
    if n == 1 {
        let c0 = v.get_char(0);
        if '0' <= c0 && c0 <= '9' {
            Some(((c0 as u32) - 48) * 100)
        } else {
            None
        }
    } else if n == 3 {
        let c0 = v.get_char(0);
        let c1 = v.get_char(1);
        let c2 = v.get_char(2);
        if '0' <= c0 && c0 <= '9' && c1 == '.' && '0' <= c2 && c2 <= '9' {
            Some(((c0 as u32) - 48) * 100 + ((c2 as u32) - 48) * 10)
        } else {
            None
        }
    } else if n == 4 {
        let c0 = v.get_char(0);
        let c1 = v.get_char(1);
        let c2 = v.get_char(2);
        let c3 = v.get_char(3);
        if '0' <= c0 && c0 <= '9' && c1 == '.' && '0' <= c2 && c2 <= '9' && '0' <= c3 && c3
            <= '9' {
            Some(((c0 as u32) - 48) * 100 + ((c2 as u32) - 48) * 10 + ((c3 as u32) - 48))
        } else {
            None
        }
    } else {
        None
    }
}

/// The boolean a settings value denotes, if any.
pub open spec fn bool_of(s: Seq<char>) -> Option<bool> {
    if s == "true"@ {
        Some(true)
    } else if s == "false"@ {
        Some(false)
    } else {
        None
    }
}

/// Parses a boolean settings value.
pub fn parse_bool(v: &str) -> (r: Option<bool>)
    ensures
        r == bool_of(v@),
{
    if str_eq(v, "true") {
        Some(true)
    } else if str_eq(v, "false") {
        Some(false)
    } else {
        None
    }
}

/// The rendering of a boolean setting.
pub open spec fn bool_text(b: bool) -> Seq<char> {
    if b {
        "true"@
    } else {
        "false"@
    }
}

/// Renders a boolean setting.
pub fn bool_display(b: bool) -> (r: String)
    ensures
        r@ == bool_text(b),
{
    if b {
        "true".to_owned()
    } else {
        "false".to_owned()
    }
}

} // verus!
