//! Values with a textual representation, and how each is written out.
use vstd::prelude::*;
use vstd::string::StringExecFns;

verus! {

/// A value that has a textual representation.
///
/// `text` is the representation as characters; `write_text` appends exactly
/// that representation to a string.
pub trait Textual {
    spec fn text(&self) -> Seq<char>;

    fn write_text(&self, out: &mut String)
        ensures
            final(out)@ == old(out)@ + self.text(),
    ;
}

/// Relies on `String::push`: appends the one character to the end.
#[verifier::external_body]
fn push_char(out: &mut String, c: char)
    ensures
        final(out)@ == old(out)@.push(c),
{
    out.push(c)
}

impl Textual for char {
    open spec fn text(&self) -> Seq<char> {
        seq![*self]
    }

    fn write_text(&self, out: &mut String) {
        push_char(out, *self);
        proof {
            assert(out@ =~= old(out)@ + seq![*self]);
        }
    }
}

impl Textual for str {
    open spec fn text(&self) -> Seq<char> {
        self@
    }

    fn write_text(&self, out: &mut String) {
        out.append(self);
    }
}

impl Textual for String {
    open spec fn text(&self) -> Seq<char> {
        self@
    }

    fn write_text(&self, out: &mut String) {
        out.append(self.as_str());
    }
}

impl<'a, T: Textual + ?Sized> Textual for &'a T {
    open spec fn text(&self) -> Seq<char> {
        (**self).text()
    }

    fn write_text(&self, out: &mut String) {
        (**self).write_text(out);
    }
}

/// The character of a decimal digit.
pub open spec fn digit_char(d: nat) -> char {
    if d == 0 {
        '0'
    } else if d == 1 {
        '1'
    } else if d == 2 {
        '2'
    } else if d == 3 {
        '3'
    } else if d == 4 {
        '4'
    } else if d == 5 {
        '5'
    } else if d == 6 {
        '6'
    } else if d == 7 {
        '7'
    } else if d == 8 {
        '8'
    } else {
        '9'
    }
}

/// The decimal digits of `n`, most significant first, with no leading zero.
pub open spec fn decimal(n: nat) -> Seq<char>
    decreases n,
{
    if n < 10 {
        seq![digit_char(n)]
    } else {
        decimal(n / 10).push(digit_char(n % 10))
    }
}

/// The decimal text of an integer: a minus sign before a negative one.
pub open spec fn signed_decimal(n: int) -> Seq<char> {
    if n < 0 {
        seq!['-'] + decimal((-n) as nat)
    } else {
        decimal(n as nat)
    }
}

fn write_digit(out: &mut String, d: u64)
    requires
        d < 10,
    ensures
        final(out)@ == old(out)@.push(digit_char(d as nat)),
{
    let c: char = match d {
        0 => '0',
        1 => '1',
        2 => '2',
        3 => '3',
        4 => '4',
        5 => '5',
        6 => '6',
        7 => '7',
        8 => '8',
        _ => '9',
    };
    push_char(out, c);
}

/// Appends the decimal digits of `n`.
pub fn write_decimal(out: &mut String, n: u64)
    ensures
        final(out)@ == old(out)@ + decimal(n as nat),
    decreases n,
{
    if n >= 10 {
        write_decimal(out, n / 10);
    }
    write_digit(out, n % 10);
    assert(out@ =~= old(out)@ + decimal(n as nat));
}

/// Appends the decimal text of `n`, with a minus sign when it is negative.
pub fn write_signed_decimal(out: &mut String, n: i64)
    ensures
        final(out)@ == old(out)@ + signed_decimal(n as int),
{
    if n < 0 {
        push_char(out, '-');
        let m: u64 = ((-(n + 1)) as u64) + 1;
        write_decimal(out, m);
        assert(out@ =~= old(out)@ + (seq!['-'] + decimal(m as nat)));
    } else {
        write_decimal(out, n as u64);
    }
}

impl Textual for u64 {
    open spec fn text(&self) -> Seq<char> {
        decimal(*self as nat)
    }

    fn write_text(&self, out: &mut String) {
        write_decimal(out, *self);
    }
}

impl Textual for u32 {
    open spec fn text(&self) -> Seq<char> {
        decimal(*self as nat)
    }

    fn write_text(&self, out: &mut String) {
        write_decimal(out, *self as u64);
    }
}

impl Textual for usize {
    open spec fn text(&self) -> Seq<char> {
        decimal(*self as nat)
    }

    fn write_text(&self, out: &mut String) {
        write_decimal(out, *self as u64);
    }
}

impl Textual for i64 {
    open spec fn text(&self) -> Seq<char> {
        signed_decimal(*self as int)
    }

    fn write_text(&self, out: &mut String) {
        write_signed_decimal(out, *self);
    }
}

impl Textual for i32 {
    open spec fn text(&self) -> Seq<char> {
        signed_decimal(*self as int)
    }

    fn write_text(&self, out: &mut String) {
        write_signed_decimal(out, *self as i64);
    }
}

} // verus!
