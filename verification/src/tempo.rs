//! The audio expressions of an effect. Only a change of speed reaches the
//! audio. One tempo stage of the engine takes a factor from one half to one
//! hundred, so a slow rate is taken apart into stages at one half and a
//! last stage that holds the rest. A rate outside the range that cannot be
//! taken apart in this way is written as one stage and left to the engine.

use crate::effect::Effect;
use crate::filter::{is_near, labelled, near, EPSILON};
use crate::fixed::six_decimals;
use crate::text::{texts, texts_empty, texts_push};
use vstd::prelude::*;
use vstd::string::*;

verus! {

/// The least rate, in millionths, that one tempo stage takes: one half.
pub const LEAST_TEMPO: i64 = 500_000;

/// The tempo stages for a rate. A rate above zero and below one half gets
/// a stage at one half followed by the stages for twice the rate. Every
/// other rate gets one stage at the rate itself: a rate from one half on,
/// also one above the engine's range, and a rate of zero or less, which no
/// doubling brings up to one half.
pub open spec fn tempo_stages(rate: int) -> Seq<Seq<char>>
    decreases 1_000_000 - rate,
{
    if 0 < rate < 500_000 {
        seq!["atempo=0.5"@] + tempo_stages(2 * rate)
    } else {
        seq!["atempo="@ + six_decimals(rate)]
    }
}

/// How many stages at one half the rate needs before its last stage.
pub open spec fn halvings(rate: int) -> nat
    decreases 1_000_000 - rate,
{
    if 0 < rate < 500_000 {
        1 + halvings(2 * rate)
    } else {
        0
    }
}

/// The rate that is left for the last stage.
pub open spec fn remaining_rate(rate: int) -> int
    decreases 1_000_000 - rate,
{
    if 0 < rate < 500_000 {
        remaining_rate(2 * rate)
    } else {
        rate
    }
}

/// `rate` doubled `times` times.
pub open spec fn doubled(rate: int, times: nat) -> int
    decreases times,
{
    if times == 0 {
        rate
    } else {
        doubled(2 * rate, (times - 1) as nat)
    }
}

/// A rate between zero and one half is taken apart into at least one stage
/// at one half and one last stage; the last stage holds the rate doubled
/// once for each stage before it, which lies from one half up to one.
pub proof fn tempo_stages_of_slow_rate(rate: int)
    requires
        0 < rate < 500_000,
    ensures
        halvings(rate) >= 1,
        tempo_stages(rate).len() == halvings(rate) + 1,
        forall|i: int| 0 <= i < halvings(rate) ==> tempo_stages(rate)[i] == "atempo=0.5"@,
        tempo_stages(rate).last() == "atempo="@ + six_decimals(remaining_rate(rate)),
        remaining_rate(rate) == doubled(rate, halvings(rate)),
        500_000 <= remaining_rate(rate) < 1_000_000,
    decreases 1_000_000 - rate,
{
    let rest = tempo_stages(2 * rate);
    let all = tempo_stages(rate);
    assert(all == seq!["atempo=0.5"@] + rest);
    if 2 * rate < 500_000 {
        tempo_stages_of_slow_rate(2 * rate);
    }
    assert(rest.len() == halvings(2 * rate) + 1);
    assert(all.len() == rest.len() + 1);
    assert(all.last() == rest.last());
    assert(halvings(rate) == 1 + halvings(2 * rate));
    assert(doubled(rate, halvings(rate)) == doubled(2 * rate, halvings(2 * rate)));
    assert(doubled(2 * rate, 0) == 2 * rate);
    assert forall|i: int| 0 <= i < halvings(rate) implies all[i] == "atempo=0.5"@ by {
        if i > 0 {
            assert(all[i] == rest[i - 1]);
        }
    }
}

/// Every rate gets at least one stage, and a rate that is not between zero
/// and one half gets exactly one, at the rate itself.
pub proof fn tempo_stages_of_other_rates(rate: int)
    ensures
        tempo_stages(rate).len() == halvings(rate) + 1,
        !(0 < rate < 500_000) ==> tempo_stages(rate) == seq!["atempo="@ + six_decimals(rate)],
    decreases 1_000_000 - rate,
{
    if 0 < rate < 500_000 {
        tempo_stages_of_other_rates(2 * rate);
    }
}

/// The expressions that the effect puts into a clip's audio chain: the
/// tempo stages of a change of speed whose rate is not neutral, and nothing
/// else.
pub open spec fn audio_texts(e: Effect) -> Seq<Seq<char>> {
    match e {
        Effect::PlaybackSpeed { rate } => if near(rate as int, 1_000_000, EPSILON as int) {
            Seq::<Seq<char>>::empty()
        } else {
            tempo_stages(rate as int)
        },
        _ => Seq::<Seq<char>>::empty(),
    }
}

/// Appends the tempo stages for `rate` to `out`.
pub fn push_tempo_stages(out: &mut Vec<String>, rate: i64)
    ensures
        texts(final(out)@) == texts(old(out)@) + tempo_stages(rate as int),
{
    let ghost before = texts(out@);
    let mut remaining: i64 = rate;
    assert(before + tempo_stages(rate as int) =~= texts(out@) + tempo_stages(remaining as int));
    while 0 < remaining && remaining < LEAST_TEMPO
        invariant
            texts(out@) + tempo_stages(remaining as int) == before + tempo_stages(rate as int),
        decreases 1_000_000 - remaining,
    {
        let ghost so_far = out@;
        let stage = String::from_str("atempo=0.5");
        out.push(stage);
        proof {
            texts_push(so_far, stage);
            assert(texts(out@) + tempo_stages(2 * remaining) =~= texts(so_far) + tempo_stages(
                remaining as int,
            ));
        }
        remaining = remaining * 2;
    }
    let ghost so_far = out@;
    let last = labelled("atempo=", remaining as i128);
    out.push(last);
    proof {
        texts_push(so_far, last);
        assert(texts(out@) =~= texts(so_far) + tempo_stages(remaining as int));
    }
}

impl Effect {
    /// Compiles the effect to its expressions for a clip's audio chain.
    pub fn audio_filters(&self) -> (r: Vec<String>)
        ensures
            texts(r@) == audio_texts(*self),
    {
        let mut r: Vec<String> = Vec::new();
        proof {
            texts_empty();
        }
        match *self {
            Effect::PlaybackSpeed { rate } => {
                if !is_near(rate, 1_000_000, EPSILON) {
                    push_tempo_stages(&mut r, rate);
                    assert(texts(r@) =~= tempo_stages(rate as int));
                }
            },
            _ => {},
        }
        r
    }
}

} // verus!
