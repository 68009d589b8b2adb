//! Scoring three dice by the combinations of the game of 421.

use vstd::prelude::*;

use rand::Rng;

verus! {

/// How many of the three dice show `v`.
pub open spec fn count(des: [u8; 3], v: u8) -> int {
    (if des[0] == v { 1int } else { 0int }) + (if des[1] == v { 1int } else { 0int })
        + (if des[2] == v { 1int } else { 0int })
}

/// The points of a throw: 10 for 4-2-1, 7 for three ones, 6 for 6-1-1 or
/// three sixes, 5 for 5-1-1 or three fives, and 1 for anything else; the
/// order of the dice does not matter.
pub open spec fn points(des: [u8; 3]) -> u32 {
    if count(des, 1) == 1 && count(des, 2) == 1 && count(des, 4) == 1 {
        10
    } else if count(des, 1) == 3 {
        7
    } else if (count(des, 1) == 2 && count(des, 6) == 1) || count(des, 6) == 3 {
        6
    } else if (count(des, 1) == 2 && count(des, 5) == 1) || count(des, 5) == 3 {
        5
    } else {
        1
    }
}

/// Relies on rand's `thread_rng` and `Rng::gen_range`, which draws a value of
/// the inclusive range `low..=high` and panics only when it is empty.
#[verifier::external_body]
fn draw_between(low: u8, high: u8) -> (r: u8)
    requires
        low <= high,
    ensures
        low <= r <= high,
{
    rand::thread_rng().gen_range(low..=high)
}

/// Rolls the three dice: each shows a face from 1 to 6.
pub fn lancer_des(des: &mut [u8; 3])
    ensures
        forall|i: int| 0 <= i < 3 ==> 1 <= #[trigger] final(des)[i] <= 6,
{
    let mut k: usize = 0;
    while k < 3
        invariant
            0 <= k <= 3,
            forall|i: int| 0 <= i < k ==> 1 <= #[trigger] des[i] <= 6,
        decreases 3 - k,
    {
        des[k] = draw_between(1, 6);
        k = k + 1;
    }
}

/// The points of a throw.
pub fn calculer_points(des: &[u8; 3]) -> (r: u32)
    ensures
        r == points(*des),
{
    let mut a: u8 = des[0];
    let mut b: u8 = des[1];
    let mut c: u8 = des[2];
    if a > b {
        let t = a;
        a = b;
        b = t;
    }
    if b > c {
        let t = b;
        b = c;
        c = t;
    }
    if a > b {
        let t = a;
        a = b;
        b = t;
    }
    if a == 1 && b == 2 && c == 4 {
        10
    } else if a == 1 && b == 1 && c == 1 {
        7
    } else if (a == 1 && b == 1 && c == 6) || (a == 6 && b == 6 && c == 6) {
        6
    } else if (a == 1 && b == 1 && c == 5) || (a == 5 && b == 5 && c == 5) {
        5
    } else {
        1
    }
}

/// What follows a throw: the game is won with 4-2-1, over when no throw is
/// left, and otherwise the player is asked whether to throw again.
#[derive(Clone, Copy, Debug, PartialEq, Eq, Structural)]
pub enum Suite {
    Gagne,
    Terminee,
    Demander,
}

/// One game: up to `max_lancers` throws, keeping the best throw so far.
#[derive(Clone, Copy, Debug)]
pub struct Partie {
    pub max_lancers: u32,
    pub lancers: u32,
    pub meilleur_score: u32,
    pub meilleure_combinaison: [u8; 3],
}

impl Partie {
    /// A game of `max_lancers` throws, none made yet.
    pub fn new(max_lancers: u32) -> (r: Partie)
        ensures
            r.max_lancers == max_lancers,
            r.lancers == 0,
            r.meilleur_score == 0,
            r.meilleure_combinaison == [0u8, 0u8, 0u8],
    {
        Partie { max_lancers, lancers: 0, meilleur_score: 0, meilleure_combinaison: [0, 0, 0] }
    }

    /// Records a throw: counts it, keeps it as the best when it scores more
    /// than the best so far, and says what follows.
    pub fn noter_lancer(&mut self, des: [u8; 3]) -> (r: Suite)
        requires
            old(self).lancers < old(self).max_lancers,
        ensures
            final(self).max_lancers == old(self).max_lancers,
            final(self).lancers == old(self).lancers + 1,
            points(des) > old(self).meilleur_score ==> final(self).meilleur_score == points(des)
                && final(self).meilleure_combinaison == des,
            points(des) <= old(self).meilleur_score ==> final(self).meilleur_score
                == old(self).meilleur_score && final(self).meilleure_combinaison
                == old(self).meilleure_combinaison,
            r == (if points(des) == 10 {
                Suite::Gagne
            } else if final(self).lancers == final(self).max_lancers {
                Suite::Terminee
            } else {
                Suite::Demander
            }),
    {
        self.lancers = self.lancers + 1;
        let p = calculer_points(&des);
        if p > self.meilleur_score {
            self.meilleur_score = p;
            self.meilleure_combinaison = des;
        }
        if p == 10 {
            Suite::Gagne
        } else if self.lancers == self.max_lancers {
            Suite::Terminee
        } else {
            Suite::Demander
        }
    }
}

} // verus!
