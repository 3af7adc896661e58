//! The effect stack of a clip, compiled in the stack's order: each effect
//! as it arrives gives at most one video expression and any number of audio
//! expressions. An effect that is switched off, or of a kind that is not
//! known, gives nothing.

use crate::effect::{decoded, AppliedEffect, EffectView};
use crate::filter::video_text;
use crate::tempo::audio_texts;
use crate::text::{texts, texts_empty, texts_push, views};
use vstd::prelude::*;

verus! {

/// The expression that an effect puts into the video chain: none where it
/// is switched off, of an unknown kind, or neutral.
pub open spec fn video_expression(e: EffectView) -> Option<Seq<char>> {
    if !e.enabled {
        None
    } else {
        match decoded(e) {
            Some(known) => video_text(known),
            None => None,
        }
    }
}

/// The expressions that an effect puts into the audio chain: none where it
/// is switched off or of an unknown kind.
pub open spec fn audio_expressions(e: EffectView) -> Seq<Seq<char>> {
    if !e.enabled {
        Seq::<Seq<char>>::empty()
    } else {
        match decoded(e) {
            Some(known) => audio_texts(known),
            None => Seq::<Seq<char>>::empty(),
        }
    }
}

/// One text as a list, or the empty list.
pub open spec fn listed(t: Option<Seq<char>>) -> Seq<Seq<char>> {
    match t {
        Some(s) => seq![s],
        None => Seq::<Seq<char>>::empty(),
    }
}

/// The video expressions of an effect stack, in the stack's order.
pub open spec fn video_filters(effects: Seq<EffectView>) -> Seq<Seq<char>>
    decreases effects.len(),
{
    if effects.len() == 0 {
        Seq::<Seq<char>>::empty()
    } else {
        video_filters(effects.drop_last()) + listed(video_expression(effects.last()))
    }
}

/// The audio expressions of an effect stack, in the stack's order.
pub open spec fn audio_filters(effects: Seq<EffectView>) -> Seq<Seq<char>>
    decreases effects.len(),
{
    if effects.len() == 0 {
        Seq::<Seq<char>>::empty()
    } else {
        audio_filters(effects.drop_last()) + audio_expressions(effects.last())
    }
}

/// An effect that is switched off puts nothing into either chain, whatever
/// its kind and its parameters.
pub proof fn disabled_effect_emits_nothing(e: EffectView)
    requires
        !e.enabled,
    ensures
        video_expression(e) is None,
        audio_expressions(e).len() == 0,
{
}

/// A stack of effects that are all switched off compiles to nothing.
pub proof fn disabled_stack_emits_nothing(effects: Seq<EffectView>)
    requires
        forall|i: int| 0 <= i < effects.len() ==> !(#[trigger] effects[i]).enabled,
    ensures
        video_filters(effects).len() == 0,
        audio_filters(effects).len() == 0,
    decreases effects.len(),
{
    if effects.len() > 0 {
        let rest = effects.drop_last();
        assert forall|i: int| 0 <= i < rest.len() implies !(#[trigger] rest[i]).enabled by {
            assert(rest[i] == effects[i]);
        }
        disabled_stack_emits_nothing(rest);
        assert(!effects[effects.len() - 1].enabled);
    }
}

/// The order of a stack is kept: the expressions of one stack followed by
/// another are those of the first followed by those of the second.
pub proof fn stack_compiles_in_order(a: Seq<EffectView>, b: Seq<EffectView>)
    ensures
        video_filters(a + b) == video_filters(a) + video_filters(b),
        audio_filters(a + b) == audio_filters(a) + audio_filters(b),
    decreases b.len(),
{
    if b.len() == 0 {
        assert(a + b =~= a);
        assert(video_filters(a) + video_filters(b) =~= video_filters(a));
        assert(audio_filters(a) + audio_filters(b) =~= audio_filters(a));
    } else {
        assert((a + b).drop_last() =~= a + b.drop_last());
        assert((a + b).last() == b.last());
        stack_compiles_in_order(a, b.drop_last());
        assert(video_filters(a + b) =~= video_filters(a) + video_filters(b));
        assert(audio_filters(a + b) =~= audio_filters(a) + audio_filters(b));
    }
}

impl AppliedEffect {
    /// Compiles the effect to at most one expression for the video chain.
    pub fn video_filter(&self) -> (r: Option<String>)
        ensures
            match r {
                Some(s) => video_expression(self@) == Some(s@),
                None => video_expression(self@) is None,
            },
    {
        if !self.enabled {
            return None;
        }
        match self.decode() {
            Some(e) => e.video_filter(),
            None => None,
        }
    }

    /// Compiles the effect to its expressions for the audio chain.
    pub fn audio_filters(&self) -> (r: Vec<String>)
        ensures
            texts(r@) == audio_expressions(self@),
    {
        if self.enabled {
            match self.decode() {
                Some(e) => {
                    return e.audio_filters();
                },
                None => {},
            }
        }
        proof {
            texts_empty();
        }
        Vec::new()
    }
}

/// Compiles an effect stack to the expressions of a clip's video chain.
pub fn build_effect_filters(effects: &[AppliedEffect]) -> (filters: Vec<String>)
    ensures
        texts(filters@) == video_filters(views(effects@)),
{
    let mut filters: Vec<String> = Vec::new();
    proof {
        texts_empty();
    }
    let ghost all = views(effects@);
    let mut i: usize = 0;
    assert(all.take(0) =~= Seq::<EffectView>::empty());
    while i < effects.len()
        invariant
            i <= effects.len(),
            all == views(effects@),
            texts(filters@) == video_filters(all.take(i as int)),
        decreases effects.len() - i,
    {
        let ghost so_far = filters@;
        proof {
            assert(all.take(i + 1).drop_last() =~= all.take(i as int));
            assert(all.take(i + 1).last() == effects@[i as int]@);
        }
        match effects[i].video_filter() {
            Some(s) => {
                filters.push(s);
                proof {
                    texts_push(so_far, s);
                    assert(texts(filters@) =~= texts(so_far) + seq![s@]);
                }
            },
            None => {
                assert(texts(filters@) =~= texts(so_far) + Seq::<Seq<char>>::empty());
            },
        }
        i += 1;
    }
    assert(all.take(i as int) =~= all);
    filters
}

/// Compiles an effect stack to the expressions of a clip's audio chain.
pub fn build_audio_filters(effects: &[AppliedEffect]) -> (filters: Vec<String>)
    ensures
        texts(filters@) == audio_filters(views(effects@)),
{
    let mut filters: Vec<String> = Vec::new();
    proof {
        texts_empty();
    }
    let ghost all = views(effects@);
    let mut i: usize = 0;
    assert(all.take(0) =~= Seq::<EffectView>::empty());
    while i < effects.len()
        invariant
            i <= effects.len(),
            all == views(effects@),
            texts(filters@) == audio_filters(all.take(i as int)),
        decreases effects.len() - i,
    {
        let ghost so_far = filters@;
        proof {
            assert(all.take(i + 1).drop_last() =~= all.take(i as int));
            assert(all.take(i + 1).last() == effects@[i as int]@);
        }
        let mut stages = effects[i].audio_filters();
        let ghost added = stages@;
        filters.append(&mut stages);
        assert(texts(filters@) =~= texts(so_far) + texts(added));
        i += 1;
    }
    assert(all.take(i as int) =~= all);
    filters
}

} // verus!
