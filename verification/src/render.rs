//! The display rendering and the diagnostic rendering of a code.
//!
//! Both are total: any four octets have a rendering, printable or not.

use crate::code::FourCC;
use vstd::prelude::*;

verus! {

/// The lowercase hexadecimal digit that stands for `d`, a value below 16.
pub open spec fn hex_digit(d: int) -> char
    recommends
        0 <= d < 16,
{
    if d < 10 {
        (0x30 + d) as char
    } else {
        (0x57 + d) as char
    }
}

/// How one octet is rendered. Printable ASCII stands for itself, but for
/// the backslash and the double quote, which get a backslash in front; tab,
/// line feed and carriage return become `\t`, `\n` and `\r`; any other octet
/// becomes `\x` and two lowercase hexadecimal digits.
pub open spec fn escape(b: u8) -> Seq<char> {
    if b == 0x5c {
        seq!['\\', '\\']
    } else if b == 0x22 {
        seq!['\\', '"']
    } else if b == 0x09 {
        seq!['\\', 't']
    } else if b == 0x0a {
        seq!['\\', 'n']
    } else if b == 0x0d {
        seq!['\\', 'r']
    } else if 0x20 <= b <= 0x7e {
        seq![b as char]
    } else {
        seq!['\\', 'x', hex_digit(b as int / 16), hex_digit(b as int % 16)]
    }
}

/// The length of the rendering that a text begins with, read off its
/// first two characters.
pub open spec fn first_len(s: Seq<char>) -> int {
    if s[0] != '\\' {
        1
    } else if s[1] == 'x' {
        4
    } else {
        2
    }
}

/// A text that begins with the rendering of an octet shows how long that
/// rendering is: no rendering is the beginning of another.
pub proof fn lemma_escape_first_len(b: u8, rest: Seq<char>)
    ensures
        first_len(escape(b) + rest) == escape(b).len(),
        1 <= escape(b).len() <= 4,
{
    let e = escape(b);
    assert((e + rest)[0] == e[0]);
    if e.len() > 1 {
        assert((e + rest)[1] == e[1]);
    }
}

/// Different octets have different renderings.
pub proof fn lemma_escape_injective(a: u8, b: u8)
    requires
        escape(a) == escape(b),
    ensures
        a == b,
{
    let x = escape(a);
    let y = escape(b);
    assert(x.len() == y.len());
    assert(x[0] == y[0]);
    if x.len() >= 2 {
        assert(x[1] == y[1]);
    }
    if x.len() == 1 {
        assert(x[0] == a as char);
        assert(y[0] == b as char);
    } else if x.len() == 4 {
        assert(x[2] == y[2]);
        assert(x[3] == y[3]);
    }
}

/// Two texts that are equal and begin with renderings of octets begin with
/// the same octet and go on alike.
pub proof fn lemma_escape_split(a: u8, r: Seq<char>, b: u8, t: Seq<char>)
    requires
        escape(a) + r == escape(b) + t,
    ensures
        a == b,
        r == t,
{
    lemma_escape_first_len(a, r);
    lemma_escape_first_len(b, t);
    let n = escape(a).len() as int;
    let whole = escape(a) + r;
    assert(escape(a) =~= whole.subrange(0, n));
    assert(escape(b) =~= whole.subrange(0, n));
    assert(r =~= whole.subrange(n, whole.len() as int));
    assert(t =~= whole.subrange(n, whole.len() as int));
    lemma_escape_injective(a, b);
}

/// `String::push` of std, which appends one character to the end of the
/// string and leaves the rest of it as it was.
#[verifier::external_body]
fn push_char(s: &mut String, c: char)
    ensures
        final(s)@ == old(s)@.push(c),
{
    s.push(c);
}

/// The hexadecimal digit of `d`.
fn hex_char(d: u8) -> (c: char)
    requires
        d < 16,
    ensures
        c == hex_digit(d as int),
{
    if d < 10 {
        (0x30u8 + d) as char
    } else {
        (0x57u8 + d) as char
    }
}

/// Appends the rendering of the octet `b` to `out`.
fn push_escaped(out: &mut Vec<char>, b: u8)
    ensures
        final(out)@ == old(out)@ + escape(b),
{
    if b == 0x5c {
        out.push('\\');
        out.push('\\');
    } else if b == 0x22 {
        out.push('\\');
        out.push('"');
    } else if b == 0x09 {
        out.push('\\');
        out.push('t');
    } else if b == 0x0a {
        out.push('\\');
        out.push('n');
    } else if b == 0x0d {
        out.push('\\');
        out.push('r');
    } else if 0x20 <= b && b <= 0x7e {
        out.push(b as char);
    } else {
        out.push('\\');
        out.push('x');
        out.push(hex_char(b / 16));
        out.push(hex_char(b % 16));
    }
    assert(out@ =~= old(out)@ + escape(b));
}

impl FourCC {
    /// The display rendering: the renderings of the four octets, in order.
    pub open spec fn display(self) -> Seq<char> {
        escape(self.0[0]) + escape(self.0[1]) + escape(self.0[2]) + escape(self.0[3])
    }

    /// The diagnostic rendering: the display rendering inside `FourCC(` and
    /// `)`.
    pub open spec fn diagnostic(self) -> Seq<char> {
        seq!['F', 'o', 'u', 'r', 'C', 'C', '('] + self.display() + seq![')']
    }

    /// The display rendering has between four and sixteen characters, so it
    /// is never empty.
    pub proof fn lemma_display_len(self)
        ensures
            4 <= self.display().len() <= 16,
    {
    }

    /// Codes with the same display rendering are the same code.
    pub proof fn lemma_display_injective(self, other: FourCC)
        requires
            self.display() == other.display(),
        ensures
            self == other,
    {
        let a = self.0;
        let b = other.0;
        let none = Seq::<char>::empty();
        assert(self.display() =~= escape(a[0]) + (escape(a[1]) + (escape(a[2]) + (escape(a[3])
            + none))));
        assert(other.display() =~= escape(b[0]) + (escape(b[1]) + (escape(b[2]) + (escape(b[3])
            + none))));
        lemma_escape_split(
            a[0],
            escape(a[1]) + (escape(a[2]) + (escape(a[3]) + none)),
            b[0],
            escape(b[1]) + (escape(b[2]) + (escape(b[3]) + none)),
        );
        lemma_escape_split(
            a[1],
            escape(a[2]) + (escape(a[3]) + none),
            b[1],
            escape(b[2]) + (escape(b[3]) + none),
        );
        lemma_escape_split(a[2], escape(a[3]) + none, b[2], escape(b[3]) + none);
        lemma_escape_split(a[3], none, b[3], none);
        assert(a =~= b);
    }

    /// The characters of the display rendering.
    pub fn display_chars(&self) -> (out: Vec<char>)
        ensures
            out@ == self.display(),
    {
        let mut out: Vec<char> = Vec::new();
        push_escaped(&mut out, self.0[0]);
        push_escaped(&mut out, self.0[1]);
        push_escaped(&mut out, self.0[2]);
        push_escaped(&mut out, self.0[3]);
        assert(out@ =~= self.display());
        out
    }

    /// The display rendering as a string. It exists for every code and is
    /// never empty.
    pub fn to_string(&self) -> (s: String)
        ensures
            s@ == self.display(),
            4 <= s@.len() <= 16,
    {
        let chars = self.display_chars();
        let mut s = String::new();
        let mut i: usize = 0;
        while i < chars.len()
            invariant
                i <= chars@.len(),
                s@ == chars@.subrange(0, i as int),
            decreases chars@.len() - i,
        {
            push_char(&mut s, chars[i]);
            i += 1;
            assert(s@ =~= chars@.subrange(0, i as int));
        }
        assert(s@ =~= chars@);
        proof {
            self.lemma_display_len();
        }
        s
    }

    /// The diagnostic rendering as a string: `FourCC(`, the display
    /// rendering, `)`.
    pub fn to_debug_string(&self) -> (s: String)
        ensures
            s@ == self.diagnostic(),
            s@ == "FourCC("@ + self.display() + ")"@,
    {
        let mut s = String::from_str("FourCC(");
        let shown = self.to_string();
        s.append(shown.as_str());
        s.append(")");
        proof {
            reveal_strlit("FourCC(");
            reveal_strlit(")");
            assert("FourCC("@ =~= seq!['F', 'o', 'u', 'r', 'C', 'C', '(']);
            assert(")"@ =~= seq![')']);
        }
        s
    }
}

} // verus!
