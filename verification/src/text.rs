//! Small verified helpers on strings and on vectors of strings.
use vstd::prelude::*;

verus! {

/// The values of a sequence of strings, in order.
pub open spec fn strings_view(strings: Seq<String>) -> Seq<Seq<char>> {
    strings.map_values(|s: String| s@)
}

/// A run of `n` spaces.
pub open spec fn spaces(n: int) -> Seq<char> {
    Seq::new(
        if n >= 0 {
            n as nat
        } else {
            0
        },
        |i: int| ' ',
    )
}

/// Tells whether two strings hold the same characters.
pub fn same_text(a: &str, b: &str) -> (same: bool)
    ensures
        same == (a@ == b@),
{
    let x = a.as_bytes();
    let y = b.as_bytes();
    proof {
        vstd::utf8::encode_utf8_decode_utf8(a@);
        vstd::utf8::encode_utf8_decode_utf8(b@);
    }
    if x.len() != y.len() {
        return false;
    }
    let mut i: usize = 0;
    while i < x.len()
        invariant
            i <= x.len(),
            x.len() == y.len(),
            x@ == vstd::utf8::encode_utf8(a@),
            y@ == vstd::utf8::encode_utf8(b@),
            vstd::utf8::decode_utf8(x@) == a@,
            vstd::utf8::decode_utf8(y@) == b@,
            x@.take(i as int) == y@.take(i as int),
        decreases x.len() - i,
    {
        if x[i] != y[i] {
            return false;
        }
        proof {
            assert(x@.take(i + 1) =~= x@.take(i as int).push(x[i as int]));
            assert(y@.take(i + 1) =~= y@.take(i as int).push(y[i as int]));
        }
        i += 1;
    }
    proof {
        assert(x@ =~= x@.take(i as int));
        assert(y@ =~= y@.take(i as int));
    }
    true
}

/// Appends `n` spaces to `s`.
pub fn pad(s: &mut String, n: usize)
    ensures
        final(s)@ == old(s)@ + spaces(n as int),
{
    let mut i: usize = 0;
    proof {
        assert(s@ =~= old(s)@ + spaces(0));
    }
    while i < n
        invariant
            i <= n,
            s@ == old(s)@ + spaces(i as int),
        decreases n - i,
    {
        proof {
            reveal_strlit(" ");
            assert(" "@ =~= seq![' ']);
            assert(old(s)@ + spaces(i as int) + seq![' '] =~= old(s)@ + spaces(i + 1));
        }
        s.append(" ");
        i += 1;
    }
}

/// A copy of every string of `strings`, in order.
pub fn copy_strings(strings: &Vec<String>) -> (copy: Vec<String>)
    ensures
        strings_view(copy@) == strings_view(strings@),
{
    let mut copy: Vec<String> = Vec::new();
    let mut i: usize = 0;
    while i < strings.len()
        invariant
            i <= strings.len(),
            strings_view(copy@) == strings_view(strings@).take(i as int),
        decreases strings.len() - i,
    {
        let ghost before = copy@;
        copy.push(strings[i].clone());
        proof {
            assert(strings_view(copy@) =~= strings_view(before).push(strings[i as int]@));
            assert(strings_view(copy@) =~= strings_view(strings@).take(i + 1));
        }
        i += 1;
    }
    proof {
        assert(strings_view(strings@).take(i as int) =~= strings_view(strings@));
    }
    copy
}

/// The lines of a text, as `str::lines` of the standard library yields them.
pub uninterp spec fn text_lines(text: Seq<char>) -> Seq<Seq<char>>;

/// Calls `str::lines` and collects what it yields. Believed, not proved:
/// the result is the sequence of lines that `str::lines` yields for this
/// text, in order.
#[verifier::external_body]
pub(crate) fn split_lines(text: &str) -> (lines: Vec<String>)
    ensures
        strings_view(lines@) == text_lines(text@),
{
    text.lines().map(String::from).collect()
}

/// A text without its leading and trailing white space, as `str::trim` of
/// the standard library returns it.
pub uninterp spec fn trimmed(text: Seq<char>) -> Seq<char>;

/// Calls `str::trim`. Believed, not proved: the result is what `str::trim`
/// returns for this text.
#[verifier::external_body]
pub(crate) fn trim(text: &str) -> (t: String)
    ensures
        t@ == trimmed(text@),
{
    String::from(text.trim())
}

/// The digit `d` as a character.
pub open spec fn digit_char(d: int) -> char {
    if d == 0 {
        '0'
    } else if d == 1 {
        '1'
    } else if d == 2 {
        '2'
    } else if d == 3 {
        '3'
    } else if d == 4 {
        '4'
    } else if d == 5 {
        '5'
    } else if d == 6 {
        '6'
    } else if d == 7 {
        '7'
    } else if d == 8 {
        '8'
    } else {
        '9'
    }
}

/// The decimal digits of `n`, most significant first, without leading
/// zeros.
pub open spec fn decimal_digits(n: nat) -> Seq<char>
    decreases n,
{
    if n < 10 {
        seq![digit_char(n as int)]
    } else {
        decimal_digits(n / 10).push(digit_char((n % 10) as int))
    }
}

/// The decimal text of an integer, with a minus sign when it is negative.
pub open spec fn decimal(i: int) -> Seq<char> {
    if i < 0 {
        seq!['-'] + decimal_digits((-i) as nat)
    } else {
        decimal_digits(i as nat)
    }
}

fn digit_text(d: u32) -> (t: &'static str)
    requires
        d < 10,
    ensures
        t@ == seq![digit_char(d as int)],
{
    proof {
        reveal_strlit("0");
        reveal_strlit("1");
        reveal_strlit("2");
        reveal_strlit("3");
        reveal_strlit("4");
        reveal_strlit("5");
        reveal_strlit("6");
        reveal_strlit("7");
        reveal_strlit("8");
        reveal_strlit("9");
    }
    let t = if d == 0 {
        "0"
    } else if d == 1 {
        "1"
    } else if d == 2 {
        "2"
    } else if d == 3 {
        "3"
    } else if d == 4 {
        "4"
    } else if d == 5 {
        "5"
    } else if d == 6 {
        "6"
    } else if d == 7 {
        "7"
    } else if d == 8 {
        "8"
    } else {
        "9"
    };
    assert(t@ =~= seq![digit_char(d as int)]);
    t
}

fn append_digits(s: &mut String, n: u32)
    ensures
        final(s)@ == old(s)@ + decimal_digits(n as nat),
    decreases n,
{
    if n >= 10 {
        append_digits(s, n / 10);
    }
    s.append(digit_text(n % 10));
    proof {
        if n >= 10 {
            assert(s@ =~= old(s)@ + decimal_digits(n as nat));
        } else {
            assert(s@ =~= old(s)@ + decimal_digits(n as nat));
        }
    }
}

/// Appends the decimal text of `i` to `s`.
pub fn append_decimal(s: &mut String, i: i32)
    ensures
        final(s)@ == old(s)@ + decimal(i as int),
{
    if i < 0 {
        proof {
            reveal_strlit("-");
        }
        s.append("-");
        let magnitude: u32 = if i == i32::MIN {
            2147483648u32
        } else {
            (-i) as u32
        };
        append_digits(s, magnitude);
        proof {
            assert(s@ =~= old(s)@ + decimal(i as int));
        }
    } else {
        append_digits(s, i as u32);
    }
}

/// The value of a string that may be missing.
pub open spec fn optional_text(text: Option<String>) -> Option<Seq<char>> {
    match text {
        Some(t) => Some(t@),
        None => None,
    }
}

/// The value of a list of strings that may be missing.
pub open spec fn optional_strings(strings: Option<Vec<String>>) -> Option<Seq<Seq<char>>> {
    match strings {
        Some(s) => Some(strings_view(s@)),
        None => None,
    }
}

/// A copy of a string that may be missing.
pub fn copy_optional_text(text: &Option<String>) -> (copy: Option<String>)
    ensures
        optional_text(copy) == optional_text(*text),
{
    match text {
        Some(t) => Some(t.clone()),
        None => None,
    }
}

/// A list of strings as the `Debug` formatting of the standard library
/// prints it: in square brackets, each string quoted and escaped.
pub uninterp spec fn debug_text(strings: Seq<Seq<char>>) -> Seq<char>;

/// Formats a list of strings with `{:?}`. Believed, not proved: the result
/// is what the `Debug` formatting of the standard library prints for a
/// list of these strings.
#[verifier::external_body]
pub(crate) fn debug_list(strings: &Vec<String>) -> (text: String)
    ensures
        text@ == debug_text(strings_view(strings@)),
{
    format!("{:?}", strings)
}

} // verus!
