//! Effects as they arrive (a kind, named numbers, a switch) and as the
//! compiler reads them (one variant per kind, with defaults filled in).

use crate::text::{chars_of, same_text, spells, views};
use vstd::prelude::*;

verus! {

/// One named number of an effect, in millionths.
#[derive(Debug, Clone)]
pub struct EffectParam {
    pub name: String,
    pub value: i64,
}

/// A named number over plain text.
pub struct ParamView {
    pub name: Seq<char>,
    pub value: i64,
}

impl View for EffectParam {
    type V = ParamView;

    open spec fn view(&self) -> ParamView {
        ParamView { name: self.name@, value: self.value }
    }
}

/// An effect instance on a clip. The kind is `effect_id`; `parameters` are
/// read by name, and where a name occurs twice the first entry counts.
#[derive(Debug, Clone)]
pub struct AppliedEffect {
    pub id: String,
    pub effect_id: String,
    pub parameters: Vec<EffectParam>,
    pub enabled: bool,
}

/// An effect instance over plain text.
pub struct EffectView {
    pub id: Seq<char>,
    pub kind: Seq<char>,
    pub parameters: Seq<ParamView>,
    pub enabled: bool,
}

impl View for AppliedEffect {
    type V = EffectView;

    open spec fn view(&self) -> EffectView {
        EffectView {
            id: self.id@,
            kind: self.effect_id@,
            parameters: views(self.parameters@),
            enabled: self.enabled,
        }
    }
}

/// An effect of a known kind with every number it uses, in millionths.
/// Each variant names its kind and the parameters it is read from, with the
/// value that a missing parameter takes.
#[derive(Debug, Clone, Copy, PartialEq, Eq, Structural)]
pub enum Effect {
    /// `scale`: `scale`, else one.
    Scale { factor: i64 },
    /// `position`: `positionX` and `positionY` in pixels, else zero.
    Position { x: i64, y: i64 },
    /// `rotation`: `degrees`, else zero.
    Rotation { degrees: i64 },
    /// `opacity`: `opacity`, else one.
    Opacity { opacity: i64 },
    /// `crop`: `width` and `height`, else 1920 and 1080; `x` and `y`, else
    /// zero.
    Crop { width: i64, height: i64, x: i64, y: i64 },
    /// `brightness`: `brightness`, else zero.
    Brightness { value: i64 },
    /// `contrast`: `contrast`, else one.
    Contrast { value: i64 },
    /// `saturation`: `saturation`, else one.
    Saturation { value: i64 },
    /// `exposure`: `exposure`, else zero.
    Exposure { value: i64 },
    /// `color_temperature`: `temperature` in kelvin, else 6500.
    ColorTemperature { kelvin: i64 },
    /// `hue_rotate`: `degrees`, else zero.
    HueRotate { degrees: i64 },
    /// `grayscale`: `amount`, else one.
    Grayscale { amount: i64 },
    /// `gaussian_blur`: `sigma`, else zero.
    GaussianBlur { sigma: i64 },
    /// `sharpen`: `amount`, else zero.
    Sharpen { amount: i64 },
    /// `sepia`: `amount`, else one.
    Sepia { amount: i64 },
    /// `vignette`: `angle`, else zero.
    Vignette { angle: i64 },
    /// `fade_in`: `duration` in seconds, else one.
    FadeIn { duration: i64 },
    /// `fade_out`: `start` in seconds, else zero; `duration`, else one.
    FadeOut { start: i64, duration: i64 },
    /// `playback_speed`: `rate`, else one.
    PlaybackSpeed { rate: i64 },
}

/// The value of the first entry named `name` at or after position `from`.
pub open spec fn lookup_from(params: Seq<ParamView>, name: Seq<char>, from: int) -> Option<i64>
    decreases params.len() - from,
{
    if from < 0 || from >= params.len() {
        None
    } else if params[from].name == name {
        Some(params[from].value)
    } else {
        lookup_from(params, name, from + 1)
    }
}

/// The value of the first entry named `name`, if there is one.
pub open spec fn lookup(params: Seq<ParamView>, name: Seq<char>) -> Option<i64> {
    lookup_from(params, name, 0)
}

/// The value of the first entry named `name`, or `default` without one.
pub open spec fn value_or(params: Seq<ParamView>, name: Seq<char>, default: i64) -> i64 {
    match lookup(params, name) {
        Some(v) => v,
        None => default,
    }
}

/// Whether no name occurs twice among the entries.
pub open spec fn distinct_names(params: Seq<ParamView>) -> bool {
    forall|i: int, j: int|
        0 <= i < j < params.len() ==> (#[trigger] params[i]).name != (#[trigger] params[j]).name
}

/// Among entries with distinct names, every entry is found under its name:
/// the entries are a mapping from names to numbers.
pub proof fn lookup_finds_each_entry(params: Seq<ParamView>, k: int)
    requires
        distinct_names(params),
        0 <= k < params.len(),
    ensures
        lookup(params, params[k].name) == Some(params[k].value),
{
    lookup_reaches(params, k, 0);
}

/// Among entries with distinct names, the search from any earlier position
/// arrives at entry `k`.
proof fn lookup_reaches(params: Seq<ParamView>, k: int, from: int)
    requires
        distinct_names(params),
        0 <= from <= k < params.len(),
    ensures
        lookup_from(params, params[k].name, from) == Some(params[k].value),
    decreases k - from,
{
    if from < k {
        assert(params[from].name != params[k].name);
        lookup_reaches(params, k, from + 1);
    }
}

/// A name that no entry carries is not found.
pub proof fn lookup_misses_absent_name(params: Seq<ParamView>, name: Seq<char>)
    requires
        forall|i: int| 0 <= i < params.len() ==> (#[trigger] params[i]).name != name,
    ensures
        lookup(params, name) is None,
{
    lookup_misses_from(params, name, 0);
}

/// The search from any position misses a name that no entry carries.
proof fn lookup_misses_from(params: Seq<ParamView>, name: Seq<char>, from: int)
    requires
        forall|i: int| 0 <= i < params.len() ==> (#[trigger] params[i]).name != name,
        0 <= from,
    ensures
        lookup_from(params, name, from) is None,
    decreases params.len() - from,
{
    if from < params.len() {
        assert(params[from].name != name);
        lookup_misses_from(params, name, from + 1);
    }
}

/// The number that the effect stores under `name`, or `default` without
/// one.
pub open spec fn number(e: EffectView, name: Seq<char>, default: i64) -> i64 {
    value_or(e.parameters, name, default)
}

/// The effect read as one of the known kinds, each number taken from the
/// parameter of its name or from the kind's default; `None` for a kind
/// that is not known.
pub open spec fn decoded(e: EffectView) -> Option<Effect> {
    let kind = e.kind;
    if kind == "scale"@ {
        Some(Effect::Scale { factor: number(e, "scale"@, 1_000_000) })
    } else if kind == "position"@ {
        Some(Effect::Position { x: number(e, "positionX"@, 0), y: number(e, "positionY"@, 0) })
    } else if kind == "rotation"@ {
        Some(Effect::Rotation { degrees: number(e, "degrees"@, 0) })
    } else if kind == "opacity"@ {
        Some(Effect::Opacity { opacity: number(e, "opacity"@, 1_000_000) })
    } else if kind == "crop"@ {
        Some(
            Effect::Crop {
                width: number(e, "width"@, 1_920_000_000),
                height: number(e, "height"@, 1_080_000_000),
                x: number(e, "x"@, 0),
                y: number(e, "y"@, 0),
            },
        )
    } else if kind == "brightness"@ {
        Some(Effect::Brightness { value: number(e, "brightness"@, 0) })
    } else if kind == "contrast"@ {
        Some(Effect::Contrast { value: number(e, "contrast"@, 1_000_000) })
    } else if kind == "saturation"@ {
        Some(Effect::Saturation { value: number(e, "saturation"@, 1_000_000) })
    } else if kind == "exposure"@ {
        Some(Effect::Exposure { value: number(e, "exposure"@, 0) })
    } else if kind == "color_temperature"@ {
        Some(Effect::ColorTemperature { kelvin: number(e, "temperature"@, 6_500_000_000) })
    } else if kind == "hue_rotate"@ {
        Some(Effect::HueRotate { degrees: number(e, "degrees"@, 0) })
    } else if kind == "grayscale"@ {
        Some(Effect::Grayscale { amount: number(e, "amount"@, 1_000_000) })
    } else if kind == "gaussian_blur"@ {
        Some(Effect::GaussianBlur { sigma: number(e, "sigma"@, 0) })
    } else if kind == "sharpen"@ {
        Some(Effect::Sharpen { amount: number(e, "amount"@, 0) })
    } else if kind == "sepia"@ {
        Some(Effect::Sepia { amount: number(e, "amount"@, 1_000_000) })
    } else if kind == "vignette"@ {
        Some(Effect::Vignette { angle: number(e, "angle"@, 0) })
    } else if kind == "fade_in"@ {
        Some(Effect::FadeIn { duration: number(e, "duration"@, 1_000_000) })
    } else if kind == "fade_out"@ {
        Some(
            Effect::FadeOut {
                start: number(e, "start"@, 0),
                duration: number(e, "duration"@, 1_000_000),
            },
        )
    } else if kind == "playback_speed"@ {
        Some(Effect::PlaybackSpeed { rate: number(e, "rate"@, 1_000_000) })
    } else {
        None
    }
}

impl AppliedEffect {
    /// Reads the number stored under `name`.
    pub fn number_or(&self, name: &str, default: i64) -> (v: i64)
        ensures
            v == number(self@, name@, default),
    {
        let mut i: usize = 0;
        while i < self.parameters.len()
            invariant
                i <= self.parameters.len(),
                lookup(self@.parameters, name@) == lookup_from(self@.parameters, name@, i as int),
            decreases self.parameters.len() - i,
        {
            assert(self@.parameters[i as int] == self.parameters@[i as int]@);
            if same_text(self.parameters[i].name.as_str(), name) {
                return self.parameters[i].value;
            }
            i += 1;
        }
        default
    }

    /// Reads the effect as one of the known kinds.
    pub fn decode(&self) -> (r: Option<Effect>)
        ensures
            r == decoded(self@),
    {
        let kind = chars_of(self.effect_id.as_str());
        if spells(&kind, "scale") {
            Some(Effect::Scale { factor: self.number_or("scale", 1_000_000) })
        } else if spells(&kind, "position") {
            Some(
                Effect::Position {
                    x: self.number_or("positionX", 0),
                    y: self.number_or("positionY", 0),
                },
            )
        } else if spells(&kind, "rotation") {
            Some(Effect::Rotation { degrees: self.number_or("degrees", 0) })
        } else if spells(&kind, "opacity") {
            Some(Effect::Opacity { opacity: self.number_or("opacity", 1_000_000) })
        } else if spells(&kind, "crop") {
            Some(
                Effect::Crop {
                    width: self.number_or("width", 1_920_000_000),
                    height: self.number_or("height", 1_080_000_000),
                    x: self.number_or("x", 0),
                    y: self.number_or("y", 0),
                },
            )
        } else if spells(&kind, "brightness") {
            Some(Effect::Brightness { value: self.number_or("brightness", 0) })
        } else if spells(&kind, "contrast") {
            Some(Effect::Contrast { value: self.number_or("contrast", 1_000_000) })
        } else if spells(&kind, "saturation") {
            Some(Effect::Saturation { value: self.number_or("saturation", 1_000_000) })
        } else if spells(&kind, "exposure") {
            Some(Effect::Exposure { value: self.number_or("exposure", 0) })
        } else if spells(&kind, "color_temperature") {
            Some(Effect::ColorTemperature { kelvin: self.number_or("temperature", 6_500_000_000) })
        } else if spells(&kind, "hue_rotate") {
            Some(Effect::HueRotate { degrees: self.number_or("degrees", 0) })
        } else if spells(&kind, "grayscale") {
            Some(Effect::Grayscale { amount: self.number_or("amount", 1_000_000) })
        } else if spells(&kind, "gaussian_blur") {
            Some(Effect::GaussianBlur { sigma: self.number_or("sigma", 0) })
        } else if spells(&kind, "sharpen") {
            Some(Effect::Sharpen { amount: self.number_or("amount", 0) })
        } else if spells(&kind, "sepia") {
            Some(Effect::Sepia { amount: self.number_or("amount", 1_000_000) })
        } else if spells(&kind, "vignette") {
            Some(Effect::Vignette { angle: self.number_or("angle", 0) })
        } else if spells(&kind, "fade_in") {
            Some(Effect::FadeIn { duration: self.number_or("duration", 1_000_000) })
        } else if spells(&kind, "fade_out") {
            Some(
                Effect::FadeOut {
                    start: self.number_or("start", 0),
                    duration: self.number_or("duration", 1_000_000),
                },
            )
        } else if spells(&kind, "playback_speed") {
            Some(Effect::PlaybackSpeed { rate: self.number_or("rate", 1_000_000) })
        } else {
            None
        }
    }
}

} // verus!
