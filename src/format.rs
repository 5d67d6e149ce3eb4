//! Textual form of a construction: its name by nesting depth, then its
//! coordinates in decimal, as in `Quaternion(1, -2, 3, -4)`.
use vstd::prelude::*;
use vstd::string::StringExecFns;
use crate::traits::Hypercomplex;
use crate::construct::Construct;

verus! {

/// The two renderings of a value; for integer coordinates they coincide.
pub enum FmtType {
    Debug,
    Display,
}

pub open spec fn digit_char(d: int) -> char {
    if d == 0 {
        '0'
    } else if d == 1 {
        '1'
    } else if d == 2 {
        '2'
    } else if d == 3 {
        '3'
    } else if d == 4 {
        '4'
    } else if d == 5 {
        '5'
    } else if d == 6 {
        '6'
    } else if d == 7 {
        '7'
    } else if d == 8 {
        '8'
    } else {
        '9'
    }
}

/// The decimal digits of `n`, most significant first.
pub open spec fn digits(n: nat) -> Seq<char>
    decreases n,
{
    if n < 10 {
        seq![digit_char(n as int)]
    } else {
        digits(n / 10) + seq![digit_char((n % 10) as int)]
    }
}

/// The decimal form of `v`, with a leading `-` when negative.
pub open spec fn decimal(v: int) -> Seq<char> {
    if v < 0 {
        seq!['-'] + digits((-v) as nat)
    } else {
        digits(v as nat)
    }
}

/// The decimal forms of the coordinates, separated by `", "`.
pub open spec fn coords_text(s: Seq<int>) -> Seq<char>
    decreases s.len(),
{
    if s.len() == 0 {
        seq![]
    } else if s.len() == 1 {
        decimal(s[0])
    } else {
        coords_text(s.drop_last()) + seq![',', ' '] + decimal(s.last())
    }
}

/// The name of an algebra of the given nesting depth.
pub open spec fn name_text(level: nat) -> Seq<char> {
    if level == 1 {
        "Complex"@
    } else if level == 2 {
        "Quaternion"@
    } else if level == 3 {
        "Octonion"@
    } else if level == 4 {
        "Sedenion"@
    } else {
        "Construct"@ + decimal(level as int)
    }
}

/// The text of a coordinate sequence joined to another is the two texts
/// with a separator between them.
pub proof fn lemma_coords_text_concat(a: Seq<int>, b: Seq<int>)
    requires
        a.len() > 0,
        b.len() > 0,
    ensures
        coords_text(a + b) == coords_text(a) + seq![',', ' '] + coords_text(b),
    decreases b.len(),
{
    assert((a + b).drop_last() =~= a + b.drop_last());
    assert((a + b).last() == b.last());
    if b.len() == 1 {
        assert(b.drop_last() =~= Seq::<int>::empty());
        assert(a + b.drop_last() =~= a);
    } else {
        lemma_coords_text_concat(a, b.drop_last());
        assert(coords_text(a + b) =~= coords_text(a) + seq![',', ' '] + coords_text(b));
    }
}

fn digit_str(d: u64) -> (r: &'static str)
    requires
        d < 10,
    ensures
        r@ == seq![digit_char(d as int)],
{
    proof {
        reveal_strlit("0");
        reveal_strlit("1");
        reveal_strlit("2");
        reveal_strlit("3");
        reveal_strlit("4");
        reveal_strlit("5");
        reveal_strlit("6");
        reveal_strlit("7");
        reveal_strlit("8");
        reveal_strlit("9");
    }
    if d == 0 {
        "0"
    } else if d == 1 {
        "1"
    } else if d == 2 {
        "2"
    } else if d == 3 {
        "3"
    } else if d == 4 {
        "4"
    } else if d == 5 {
        "5"
    } else if d == 6 {
        "6"
    } else if d == 7 {
        "7"
    } else if d == 8 {
        "8"
    } else {
        "9"
    }
}

/// Appends the decimal digits of `n`.
fn write_digits(out: &mut String, n: u64)
    ensures
        final(out)@ == old(out)@ + digits(n as nat),
    decreases n,
{
    if n >= 10 {
        write_digits(out, n / 10);
    }
    out.append(digit_str(n % 10));
    proof {
        if n >= 10 {
            assert(final(out)@ =~= old(out)@ + digits(n as nat));
        } else {
            assert(final(out)@ =~= old(out)@ + digits(n as nat));
        }
    }
}

/// Appends the decimal form of `v`.
pub fn write_int(out: &mut String, v: i64)
    ensures
        final(out)@ == old(out)@ + decimal(v as int),
{
    if v < 0 {
        out.append("-");
        let m = (0i128 - v as i128) as u64;
        write_digits(out, m);
        proof {
            reveal_strlit("-");
            assert(final(out)@ =~= old(out)@ + decimal(v as int));
        }
    } else {
        write_digits(out, v as u64);
    }
}

/// Appends the name of an algebra of nesting depth `level`.
pub fn write_name(out: &mut String, level: usize)
    ensures
        final(out)@ == old(out)@ + name_text(level as nat),
{
    if level == 1 {
        out.append("Complex");
    } else if level == 2 {
        out.append("Quaternion");
    } else if level == 3 {
        out.append("Octonion");
    } else if level == 4 {
        out.append("Sedenion");
    } else {
        out.append("Construct");
        proof {
            assert(level as int <= u64::MAX);
        }
        write_digits(out, level as u64);
        proof {
            assert(final(out)@ =~= old(out)@ + name_text(level as nat));
        }
    }
}

/// Something whose coordinates can be written out.
pub trait Format: Hypercomplex {
    /// The nesting depth.
    fn level() -> (r: usize)
        requires
            Self::depth() <= usize::MAX,
        ensures
            r == Self::depth(),
    ;

    /// Appends the coordinates in decimal, separated by `", "`.
    fn write_content(&self, out: &mut String)
        ensures
            final(out)@ == old(out)@ + coords_text(self.coords()),
    ;
}

impl Format for i64 {
    fn level() -> (r: usize) {
        0
    }

    fn write_content(&self, out: &mut String) {
        write_int(out, *self);
    }
}

impl Format for i32 {
    fn level() -> (r: usize) {
        0
    }

    fn write_content(&self, out: &mut String) {
        write_int(out, *self as i64);
    }
}

impl Format for i16 {
    fn level() -> (r: usize) {
        0
    }

    fn write_content(&self, out: &mut String) {
        write_int(out, *self as i64);
    }
}

impl Format for i8 {
    fn level() -> (r: usize) {
        0
    }

    fn write_content(&self, out: &mut String) {
        write_int(out, *self as i64);
    }
}

impl<T: Copy, U: Format> Format for Construct<T, U> {
    fn level() -> (r: usize) {
        U::level() + 1
    }

    fn write_content(&self, out: &mut String) {
        proof {
            self.lemma_coords_split();
            crate::model::lemma_pow2_pos(U::depth());
            lemma_coords_text_concat(self.re_spec().coords(), self.im_spec().coords());
            reveal_strlit(", ");
        }
        self.re_ref().write_content(out);
        out.append(", ");
        self.im_ref().write_content(out);
        proof {
            assert(final(out)@ =~= old(out)@ + coords_text(self.coords()));
        }
    }
}

impl<T: Copy, U: Format> Construct<T, U> {
    /// The textual form: the algebra's name, then its coordinates in
    /// parentheses, as in `Complex(1, -2)`.
    pub fn format(&self, _kind: FmtType) -> (r: String)
        requires
            Self::depth() <= usize::MAX,
        ensures
            r@ == name_text(Self::depth()) + "("@ + coords_text(self.coords()) + ")"@,
    {
        let mut out = String::new();
        write_name(&mut out, Self::level());
        out.append("(");
        self.write_content(&mut out);
        out.append(")");
        proof {
            assert(out@ =~= name_text(Self::depth()) + "("@ + coords_text(self.coords()) + ")"@);
        }
        out
    }
}

} // verus!
