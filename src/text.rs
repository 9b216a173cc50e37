use vstd::prelude::*;
use vstd::string::StringExecFns;

use crate::asset::{Color, Error, FontFace};
use crate::time::Duration;

use std::rc::Rc;

verus! {

/// A value shown as text, with the part of it that the text shows: the text
/// is rendered again only when that part changes.
pub trait Cached {
    spec fn cached_spec(&self) -> u64;

    fn cached(&self) -> (r: u64)
        ensures
            r == self.cached_spec(),
    ;
}

impl Cached for Duration {
    /// A countdown shows whole seconds.
    open spec fn cached_spec(&self) -> u64 {
        (self.nanos / crate::time::NANOS_PER_SEC) as u64
    }

    fn cached(&self) -> (r: u64) {
        self.as_secs()
    }
}

impl Cached for u32 {
    open spec fn cached_spec(&self) -> u64 {
        *self as u64
    }

    fn cached(&self) -> (r: u64) {
        *self as u64
    }
}

pub open spec fn digit_char(d: nat) -> char {
    if d == 0 {
        '0'
    } else if d == 1 {
        '1'
    } else if d == 2 {
        '2'
    } else if d == 3 {
        '3'
    } else if d == 4 {
        '4'
    } else if d == 5 {
        '5'
    } else if d == 6 {
        '6'
    } else if d == 7 {
        '7'
    } else if d == 8 {
        '8'
    } else {
        '9'
    }
}

/// The decimal digits of `v`, most significant first, without leading zeros.
pub open spec fn digits(v: nat) -> Seq<char>
    decreases v,
{
    if v < 10 {
        seq![digit_char(v)]
    } else {
        digits(v / 10) + seq![digit_char(v % 10)]
    }
}

/// The decimal digits of `v`, led by zeros up to `width` characters.
pub open spec fn zero_padded(v: nat, width: nat) -> Seq<char> {
    let d = digits(v);
    if d.len() >= width {
        d
    } else {
        Seq::new((width - d.len()) as nat, |i: int| '0') + d
    }
}

fn digit_str(d: u64) -> (r: &'static str)
    requires
        d < 10,
    ensures
        r@ == seq![digit_char(d as nat)],
{
    proof {
        reveal_strlit("0");
        reveal_strlit("1");
        reveal_strlit("2");
        reveal_strlit("3");
        reveal_strlit("4");
        reveal_strlit("5");
        reveal_strlit("6");
        reveal_strlit("7");
        reveal_strlit("8");
        reveal_strlit("9");
    }
    if d == 0 {
        "0"
    } else if d == 1 {
        "1"
    } else if d == 2 {
        "2"
    } else if d == 3 {
        "3"
    } else if d == 4 {
        "4"
    } else if d == 5 {
        "5"
    } else if d == 6 {
        "6"
    } else if d == 7 {
        "7"
    } else if d == 8 {
        "8"
    } else {
        "9"
    }
}

fn digit_count(v: u64) -> (r: usize)
    ensures
        r == digits(v as nat).len(),
    decreases v,
{
    if v < 10 {
        1
    } else {
        let n = digit_count(v / 10);
        proof {
            assert(digits(v as nat) == digits((v / 10) as nat) + seq![digit_char((v % 10) as nat)]);
        }
        proof {
            lemma_u64_digits(v as nat);
        }
        n + 1
    }
}

/// Every `u64` has at most twenty digits.
proof fn lemma_u64_digits(v: nat)
    requires
        v <= u64::MAX,
    ensures
        1 <= digits(v).len() <= 20,
{
    reveal_with_fuel(pow10, 21);
    assert(pow10(20) == 100000000000000000000nat);
    lemma_digits_len_le(v, 20);
}

/// Fewer than `10^n` needs at most `n` digits.
proof fn lemma_digits_len_le(v: nat, n: nat)
    requires
        n >= 1,
        v < pow10(n),
    ensures
        1 <= digits(v).len() <= n,
    decreases v,
{
    if v >= 10 {
        if n == 1 {
            assert(pow10(1) == 10 * pow10(0));
        } else {
            assert(pow10(n) == 10 * pow10((n - 1) as nat));
            assert(v / 10 < pow10((n - 1) as nat));
            lemma_digits_len_le(v / 10, (n - 1) as nat);
        }
    }
}

pub open spec fn pow10(n: nat) -> nat
    decreases n,
{
    if n == 0 {
        1
    } else {
        10 * pow10((n - 1) as nat)
    }
}

fn push_digits(s: &mut String, v: u64)
    ensures
        final(s)@ == old(s)@ + digits(v as nat),
    decreases v,
{
    if v >= 10 {
        push_digits(s, v / 10);
    }
    s.append(digit_str(v % 10));
    proof {
        if v >= 10 {
            assert(old(s)@ + digits((v / 10) as nat) + seq![digit_char((v % 10) as nat)] =~= old(s)@ + digits(
                v as nat,
            ));
        } else {
            assert(v % 10 == v);
        }
    }
}

/// How a value is written: a fixed prefix, then the value's digits led by
/// zeros up to `width`.
#[derive(Clone, Copy, Debug)]
pub struct Pattern {
    pub prefix: &'static str,
    pub width: usize,
}

impl Pattern {
    pub open spec fn render_spec(self, v: u64) -> Seq<char> {
        self.prefix@ + zero_padded(v as nat, self.width as nat)
    }

    pub fn render(&self, v: u64) -> (r: String)
        ensures
            r@ == self.render_spec(v),
    {
        let mut s = String::from_str(self.prefix);
        let n = digit_count(v);
        let mut i: usize = n;
        while i < self.width
            invariant
                n <= i,
                n == digits(v as nat).len(),
                i <= self.width || i == n,
                s@ == self.prefix@ + Seq::new((i - n) as nat, |j: int| '0'),
            decreases self.width - i,
        {
            proof {
                reveal_strlit("0");
            }
            s.append("0");
            assert(s@ =~= self.prefix@ + Seq::new((i + 1 - n) as nat, |j: int| '0'));
            i = i + 1;
        }
        let ghost before = s@;
        push_digits(&mut s, v);
        proof {
            if n >= self.width {
                assert(i == n);
                assert(before =~= self.prefix@);
            } else {
                assert(i == self.width);
            }
            assert(s@ =~= self.render_spec(v));
        }
        s
    }
}

/// A text texture that shows a value and is rendered again only when the
/// shown part of the value changes.
pub struct Text<T, F, V> {
    pub value: V,
    pub texture: T,
    pub pattern: Pattern,
    pub font: Rc<F>,
}

/// The color texts are written in: yellow.
pub fn text_color() -> (r: Color)
    ensures
        r == Color(255, 255, 0, 255),
{
    Color(255, 255, 0, 255)
}

impl<T, F: FontFace<Texture = T>, V: Cached> Text<T, F, V> {
    /// What the text shows.
    pub open spec fn shown(self) -> Seq<char> {
        self.pattern.render_spec(self.value.cached_spec())
    }

    /// Renders `value` through `pattern` with `font`.
    pub fn load(value: V, font: Rc<F>, pattern: Pattern) -> (r: Result<Text<T, F, V>, Error>)
        ensures
            r matches Ok(t) ==> t.value == value && t.pattern == pattern && t.font == font,
    {
        let text = pattern.render(value.cached());
        let texture = (*font).texturize(text.as_str(), text_color())?;
        Ok(Text { value, texture, pattern, font })
    }

    /// Follows a new value; the texture is rendered again only where what
    /// the text shows changes. On failure the text is left as it was.
    pub fn update(&mut self, value: V) -> (r: Result<(), Error>)
        ensures
            value.cached_spec() == old(self).value.cached_spec() ==> r is Ok && *final(self) == *old(self),
            value.cached_spec() != old(self).value.cached_spec() && r is Ok ==> final(self).value == value
                && final(self).pattern == old(self).pattern && final(self).font == old(self).font,
            r is Err ==> *final(self) == *old(self),
    {
        if value.cached() != self.value.cached() {
            let text = self.pattern.render(value.cached());
            let texture = (*self.font).texturize(text.as_str(), text_color())?;
            self.texture = texture;
            self.value = value;
        }
        Ok(())
    }
}

} // verus!
