use vstd::prelude::*;
use vstd::string::{StrSliceExecFns, StringExecFns};

use crate::asset::{self, Color, Error, FontFace, Helper, Image, Loader};
use crate::input::{Input, Key};
use crate::outcome::Outcome;
use crate::score::Score;
use crate::text::zero_padded;

verus! {

/// The high-score table, waiting for the player to go back.
#[derive(Clone, Copy, Debug, PartialEq, Eq, Structural)]
pub struct HighScore {}

impl HighScore {
    /// Ends when the return key is pressed.
    pub fn update(self, input: &Input) -> (r: Outcome<HighScore, ()>)
        ensures
            r == (if input.pressed.has(Key::Return) {
                Outcome::<HighScore, ()>::Quit(())
            } else {
                Outcome::Running(self)
            }),
            (r is Quit) <==> input.pressed.has(Key::Return),
    {
        if input.did_press_key(Key::Return) {
            Outcome::Quit(())
        } else {
            Outcome::Running(self)
        }
    }
}

pub open spec fn spaces(n: nat) -> Seq<char> {
    Seq::new(n, |i: int| ' ')
}

/// A table line: the points in six digits, five spaces, and the name
/// right-aligned in six characters.
pub open spec fn score_line_spec(points: u32, name: Seq<char>) -> Seq<char> {
    let pad: nat = if name.len() < 6 {
        (6 - name.len()) as nat
    } else {
        0
    };
    zero_padded(points as nat, 6) + spaces(5) + spaces(pad) + name
}

fn push_spaces(s: &mut String, n: usize)
    ensures
        final(s)@ == old(s)@ + spaces(n as nat),
{
    let mut i: usize = 0;
    while i < n
        invariant
            i <= n,
            s@ == old(s)@ + spaces(i as nat),
        decreases n - i,
    {
        proof {
            reveal_strlit(" ");
        }
        s.append(" ");
        assert(s@ =~= old(s)@ + spaces((i + 1) as nat));
        i = i + 1;
    }
}

pub fn score_line(points: u32, name: &str) -> (r: String)
    ensures
        r@ == score_line_spec(points, name@),
{
    let pattern = crate::text::Pattern { prefix: "", width: 6 };
    proof {
        reveal_strlit("");
    }
    let mut line = pattern.render(points as u64);
    assert(line@ =~= zero_padded(points as nat, 6));
    push_spaces(&mut line, 5);
    let len = name.unicode_len();
    let pad: usize = if len < 6 {
        6 - len
    } else {
        0
    };
    push_spaces(&mut line, pad);
    line.append(name);
    line
}

pub struct Assets<T> {
    pub title: Image<T>,
    pub instructions: Image<T>,
    pub scores: Vec<Image<T>>,
}

impl<T> Assets<T> {
    /// The title, the way back, and one line per stored score.
    pub fn load<F: FontFace<Texture = T>, L: Loader<Texture = T, Font = F>>(helper: &mut Helper<L>) -> (r: Result<
        Assets<T>,
        Error,
    >)
        ensures
            final(helper).data == old(helper).data,
    {
        let color = Color(255, 255, 0, 255);
        let title = {
            let text = "High Scores";
            let font = helper.font(asset::Font::KenPixel, 64)?;
            Image { texture: (*font).texturize(text, color)?, dims: (*font).measure(text)? }
        };
        let instructions = {
            let text = "<PRESS ENTER TO GO TO MAIN MENU>";
            let font = helper.font(asset::Font::KenPixel, 32)?;
            Image { texture: (*font).texturize(text, color)?, dims: (*font).measure(text)? }
        };
        let font = helper.font(asset::Font::Joystix, 32)?;
        let white = Color(255, 255, 255, 255);
        let stored = helper.high_scores();
        let mut scores: Vec<Image<T>> = Vec::new();
        let mut i: usize = 0;
        while i < stored.len()
            invariant
                i <= stored.len(),
                scores.len() == i,
                helper.data == old(helper).data,
            decreases stored.len() - i,
        {
            let line = score_line(stored[i].points, stored[i].name.as_str());
            let texture = (*font).texturize(line.as_str(), white)?;
            let dims = (*font).measure(line.as_str())?;
            scores.push(Image { texture, dims });
            i = i + 1;
        }
        Ok(Assets { title, instructions, scores })
    }
}

} // verus!
