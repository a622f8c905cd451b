//! Text building blocks shared by the code writers: indentation, decimal
//! numbers and separator-joined lists, each with the character sequence it
//! produces.
use vstd::prelude::*;
use vstd::string::*;

verus! {

/// Number of spaces in one level of indentation.
pub open spec fn tab_size() -> nat {
    4
}

/// The indentation for `num` levels: `4 * num` spaces.
pub open spec fn tabs_text(num: nat) -> Seq<char> {
    Seq::new(tab_size() * num, |i: int| ' ')
}

/// The ASCII digit for `d`, for `d < 10`.
pub open spec fn digit_char(d: nat) -> char {
    if d == 0 {
        '0'
    } else if d == 1 {
        '1'
    } else if d == 2 {
        '2'
    } else if d == 3 {
        '3'
    } else if d == 4 {
        '4'
    } else if d == 5 {
        '5'
    } else if d == 6 {
        '6'
    } else if d == 7 {
        '7'
    } else if d == 8 {
        '8'
    } else {
        '9'
    }
}

/// The characters of `n` in decimal, most significant digit first, with no
/// leading zeros.
pub open spec fn decimal(n: nat) -> Seq<char>
    decreases n,
{
    if n < 10 {
        seq![digit_char(n)]
    } else {
        decimal(n / 10).push(digit_char(n % 10))
    }
}

/// `items` joined by `sep`: the items in order with `sep` between each two
/// neighbours.
pub open spec fn join(items: Seq<Seq<char>>, sep: Seq<char>) -> Seq<char>
    decreases items.len(),
{
    if items.len() == 0 {
        Seq::empty()
    } else if items.len() == 1 {
        items[0]
    } else {
        join(items.drop_last(), sep) + sep + items.last()
    }
}

/// The character sequences of a list of strings.
pub open spec fn views(items: Seq<String>) -> Seq<Seq<char>> {
    items.map_values(|s: String| s@)
}

/// The characters of an optional string.
pub open spec fn opt_view(o: Option<String>) -> Option<Seq<char>> {
    match o {
        Some(s) => Some(s@),
        None => None,
    }
}

/// `"//"` where a line is to be commented out, else nothing.
pub open spec fn comment_text(commented: bool) -> Seq<char> {
    if commented {
        "//"@
    } else {
        Seq::empty()
    }
}

/// `String::push`: appends one character at the end of the string.
#[verifier::external_body]
pub(crate) fn push_char(s: &mut String, c: char)
    ensures
        final(s)@ == old(s)@.push(c),
{
    s.push(c);
}

fn digit(d: u16) -> (c: char)
    requires
        d < 10,
    ensures
        c == digit_char(d as nat),
{
    match d {
        0 => '0',
        1 => '1',
        2 => '2',
        3 => '3',
        4 => '4',
        5 => '5',
        6 => '6',
        7 => '7',
        8 => '8',
        _ => '9',
    }
}

/// Appends `n` in decimal.
pub fn write_decimal(out: &mut String, n: u16)
    ensures
        final(out)@ == old(out)@ + decimal(n as nat),
    decreases n,
{
    if n >= 10 {
        write_decimal(out, n / 10);
    }
    push_char(out, digit(n % 10));
    assert(out@ =~= old(out)@ + decimal(n as nat));
}

/// Appends `num` levels of indentation.
pub fn write_tabs(out: &mut String, num: usize)
    ensures
        final(out)@ == old(out)@ + tabs_text(num as nat),
{
    let mut i: usize = 0;
    while i < num
        invariant
            i <= num,
            out@ == old(out)@ + tabs_text(i as nat),
        decreases num - i,
    {
        proof {
            reveal_strlit("    ");
        }
        out.append("    ");
        i = i + 1;
        assert(out@ =~= old(out)@ + tabs_text(i as nat));
    }
}

/// The indentation for `num` levels, as a string of spaces.
pub fn tabs(num: usize) -> (res: String)
    ensures
        res@ == tabs_text(num as nat),
{
    let mut res = String::new();
    write_tabs(&mut res, num);
    assert(res@ =~= tabs_text(num as nat));
    res
}

/// Appends `"//"` where `commented`, else nothing.
pub fn write_comment(out: &mut String, commented: bool)
    ensures
        final(out)@ == old(out)@ + comment_text(commented),
{
    if commented {
        out.append("//");
    } else {
        assert(out@ =~= old(out)@ + comment_text(commented));
    }
}

/// Appends the strings of `items` joined by `sep`.
pub fn write_joined(out: &mut String, items: &[String], sep: &str)
    ensures
        final(out)@ == old(out)@ + join(views(items@), sep@),
{
    let ghost all = views(items@);
    let mut i: usize = 0;
    while i < items.len()
        invariant
            i <= items.len(),
            all == views(items@),
            out@ == old(out)@ + join(all.take(i as int), sep@),
        decreases items.len() - i,
    {
        if i > 0 {
            out.append(sep);
        }
        out.append(items[i].as_str());
        proof {
            let t = all.take(i + 1);
            assert(t.drop_last() =~= all.take(i as int));
            assert(t.last() == items@[i as int]@);
            if i == 0 {
                assert(t.len() == 1);
                assert(out@ =~= old(out)@ + join(t, sep@));
            } else {
                assert(out@ =~= old(out)@ + join(t, sep@));
            }
        }
        i = i + 1;
    }
    assert(all.take(items.len() as int) =~= all);
}

/// A decimal number has at least one digit, and none of its characters is
/// an underscore.
pub proof fn decimal_nonempty_without_underscore(n: nat)
    ensures
        decimal(n).len() >= 1,
        forall|i: int| 0 <= i < decimal(n).len() ==> decimal(n)[i] != '_',
    decreases n,
{
    if n >= 10 {
        decimal_nonempty_without_underscore(n / 10);
    }
}

/// Different numbers have different decimal forms.
pub proof fn decimal_injective(n: nat, m: nat)
    requires
        decimal(n) == decimal(m),
    ensures
        n == m,
    decreases n,
{
    if n >= 10 {
        decimal_nonempty_without_underscore(n / 10);
    }
    if m >= 10 {
        decimal_nonempty_without_underscore(m / 10);
    }
    if n >= 10 && m >= 10 {
        assert(decimal(n).drop_last() =~= decimal(n / 10));
        assert(decimal(m).drop_last() =~= decimal(m / 10));
        decimal_injective(n / 10, m / 10);
        assert(decimal(n).last() == digit_char(n % 10));
        assert(decimal(m).last() == digit_char(m % 10));
        assert(n % 10 == m % 10);
        assert(n == 10 * (n / 10) + n % 10);
        assert(m == 10 * (m / 10) + m % 10);
    } else if n < 10 && m < 10 {
        assert(decimal(n)[0] == digit_char(n));
        assert(decimal(m)[0] == digit_char(m));
    } else if n < 10 {
        assert(decimal(n).len() == 1);
        assert(decimal(m).len() == decimal(m / 10).len() + 1);
    } else {
        assert(decimal(m).len() == 1);
        assert(decimal(n).len() == decimal(n / 10).len() + 1);
    }
}

} // verus!
