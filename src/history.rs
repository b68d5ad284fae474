//! The bounded list of colours that were frozen, oldest first.
use vstd::prelude::*;

use crate::color::Rgb;

verus! {

/// How many colours the history keeps.
pub const MAX_HISTORY: usize = 10;

/// No colour directly follows an equal one.
pub open spec fn no_adjacent_repeats(h: Seq<Rgb>) -> bool {
    forall|i: int| 0 <= i < h.len() - 1 ==> #[trigger] h[i] != h[i + 1]
}

/// At most [`MAX_HISTORY`] colours, none directly after an equal one.
pub open spec fn history_ok(h: Seq<Rgb>) -> bool {
    &&& h.len() <= MAX_HISTORY
    &&& no_adjacent_repeats(h)
}

/// `h` after `c` was frozen: unchanged when `c` equals the newest colour;
/// otherwise `c` is appended and, past the bound, the oldest colour dropped.
pub open spec fn remember(h: Seq<Rgb>, c: Rgb) -> Seq<Rgb> {
    if h.len() > 0 && h.last() == c {
        h
    } else if h.len() + 1 > MAX_HISTORY {
        h.push(c).drop_first()
    } else {
        h.push(c)
    }
}

/// The history that remembering `colors` in order builds from nothing.
pub open spec fn replay(colors: Seq<Rgb>) -> Seq<Rgb>
    decreases colors.len(),
{
    if colors.len() == 0 {
        Seq::empty()
    } else {
        remember(replay(colors.drop_last()), colors.last())
    }
}

/// Remembering a colour keeps a history bounded and free of adjacent repeats.
pub proof fn lemma_remember_keeps_history_ok(h: Seq<Rgb>, c: Rgb)
    requires
        history_ok(h),
    ensures
        history_ok(remember(h, c)),
{
    let r = remember(h, c);
    if !(h.len() > 0 && h.last() == c) {
        let p = h.push(c);
        assert(no_adjacent_repeats(p)) by {
            assert forall|i: int| 0 <= i < p.len() - 1 implies #[trigger] p[i] != p[i + 1] by {
                if i < h.len() - 1 {
                    assert(h[i] != h[i + 1]);
                }
            }
        }
        if h.len() + 1 > MAX_HISTORY {
            assert forall|i: int| 0 <= i < r.len() - 1 implies #[trigger] r[i] != r[i + 1] by {
                assert(r[i] == p[i + 1]);
                assert(r[i + 1] == p[i + 2]);
            }
        }
    }
}

/// Remembering the colour just remembered changes nothing.
pub proof fn lemma_remember_twice(h: Seq<Rgb>, c: Rgb)
    ensures
        remember(remember(h, c), c) == remember(h, c),
{
    let r = remember(h, c);
    assert(r.len() > 0 && r.last() == c);
}

/// Every history built by [`replay`] is bounded and free of adjacent repeats.
pub proof fn lemma_replay_history_ok(colors: Seq<Rgb>)
    ensures
        history_ok(replay(colors)),
    decreases colors.len(),
{
    if colors.len() > 0 {
        lemma_replay_history_ok(colors.drop_last());
        lemma_remember_keeps_history_ok(replay(colors.drop_last()), colors.last());
    }
}

/// Records a frozen colour in `history`.
pub fn remember_color(history: &mut Vec<Rgb>, c: Rgb)
    ensures
        final(history)@ == remember(old(history)@, c),
{
    let n = history.len();
    if n > 0 && history[n - 1] == c {
        return;
    }
    history.push(c);
    if history.len() > MAX_HISTORY {
        history.remove(0);
        assert(final(history)@ =~= old(history)@.push(c).drop_first());
    }
}

/// The history that remembering `colors` in order builds from nothing; used
/// to take in a stored list, which may break the bound or repeat colours.
pub fn restore_history(colors: &Vec<Rgb>) -> (h: Vec<Rgb>)
    ensures
        h@ == replay(colors@),
        history_ok(h@),
{
    let mut h: Vec<Rgb> = Vec::new();
    let mut i: usize = 0;
    while i < colors.len()
        invariant
            i <= colors@.len(),
            h@ == replay(colors@.take(i as int)),
        decreases colors@.len() - i,
    {
        proof {
            assert(colors@.take(i as int + 1).drop_last() =~= colors@.take(i as int));
        }
        remember_color(&mut h, colors[i]);
        i += 1;
    }
    proof {
        assert(colors@.take(colors@.len() as int) =~= colors@);
        lemma_replay_history_ok(colors@);
    }
    h
}

} // verus!
