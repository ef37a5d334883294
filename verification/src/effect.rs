//! The choice of a visual effect, and how an effect is named to the shaders.
use vstd::prelude::*;
use crate::text::str_eq;

verus! {

/// The axis along which the wave effect oscillates.
#[derive(Clone, Copy, Debug, PartialEq, Eq)]
pub enum WaveDirection {
    Vertical,
    Horizontal,
    Radial,
}

/// The number that stands for a wave direction, on the command line and in the
/// effect uniform.
pub open spec fn wave_direction_code(d: WaveDirection) -> u32 {
    match d {
        WaveDirection::Vertical => 0,
        WaveDirection::Horizontal => 1,
        WaveDirection::Radial => 2,
    }
}

impl WaveDirection {
    /// The direction that a number names: 0 vertical, 1 horizontal, 2 radial.
    pub fn from_code(code: u32) -> (d: Option<WaveDirection>)
        ensures
            code <= 2 ==> d is Some && wave_direction_code(d->0) == code,
            code > 2 ==> d is None,
            code == 0 ==> d == Some(WaveDirection::Vertical),
            code == 1 ==> d == Some(WaveDirection::Horizontal),
            code == 2 ==> d == Some(WaveDirection::Radial),
    {
        match code {
            0 => Some(WaveDirection::Vertical),
            1 => Some(WaveDirection::Horizontal),
            2 => Some(WaveDirection::Radial),
            _ => None,
        }
    }

    /// The number that names this direction.
    pub fn code(&self) -> (c: u32)
        ensures
            c == wave_direction_code(*self),
            *self == WaveDirection::Vertical ==> c == 0,
            *self == WaveDirection::Horizontal ==> c == 1,
            *self == WaveDirection::Radial ==> c == 2,
    {
        match self {
            WaveDirection::Vertical => 0,
            WaveDirection::Horizontal => 1,
            WaveDirection::Radial => 2,
        }
    }
}

/// Naming a direction and reading the name back gives the direction.
pub proof fn lemma_wave_direction_code_round_trip(d: WaveDirection)
    ensures
        wave_direction_code(d) <= 2,
        forall|e: WaveDirection| wave_direction_code(e) == wave_direction_code(d) ==> e == d,
{
}

/// The number under which a direction travels to the shaders is the number by
/// which the command line asked for it: a wave request with direction number
/// `n` yields a direction numbered `n`, for every `n`; vertical is 0,
/// horizontal 1 and radial 2.
pub proof fn lemma_wave_request_keeps_direction_number(n: u32, d: WaveDirection)
    ensures
        effect_named("wave"@, n) == Ok::<EffectChoice, EffectChoiceError>(EffectChoice::Wave(d))
            ==> wave_direction_code(d) == n,
        effect_named("wave"@, 0) == Ok::<EffectChoice, EffectChoiceError>(
            EffectChoice::Wave(WaveDirection::Vertical),
        ),
        effect_named("wave"@, 1) == Ok::<EffectChoice, EffectChoiceError>(
            EffectChoice::Wave(WaveDirection::Horizontal),
        ),
        effect_named("wave"@, 2) == Ok::<EffectChoice, EffectChoiceError>(
            EffectChoice::Wave(WaveDirection::Radial),
        ),
{
    reveal_strlit("wave");
    reveal_strlit("voxelize");
    reveal_strlit("edge_melt");
    reveal_strlit("mirage");
    assert("wave"@.len() == 4);
    assert("voxelize"@.len() == 8);
    assert("edge_melt"@.len() == 9);
    assert("mirage"@.len() == 6);
    assert("wave"@ != "voxelize"@);
    assert("wave"@ != "edge_melt"@);
    assert("wave"@ != "mirage"@);
}

/// Which effect is applied to the scene, without its tuning parameters.
#[derive(Clone, Copy, Debug, PartialEq, Eq)]
pub enum EffectChoice {
    NoEffect,
    Wave(WaveDirection),
    EdgeMelt,
    Voxelize,
    Mirage,
}

/// Why an effect request was refused.
#[derive(Clone, Copy, Debug, PartialEq, Eq)]
pub enum EffectChoiceError {
    /// The effect name is none of the known ones.
    UnknownEffect,
    /// The wave effect was asked for with a direction number above 2.
    InvalidWaveDirection,
}

/// The effect that a command-line request names: `voxelize`, `edge_melt`,
/// `mirage`, `wave` (with its direction number) or `none`.
pub open spec fn effect_named(name: Seq<char>, direction: u32) -> Result<
    EffectChoice,
    EffectChoiceError,
> {
    if name == "voxelize"@ {
        Ok(EffectChoice::Voxelize)
    } else if name == "edge_melt"@ {
        Ok(EffectChoice::EdgeMelt)
    } else if name == "mirage"@ {
        Ok(EffectChoice::Mirage)
    } else if name == "wave"@ {
        if direction == 0 {
            Ok(EffectChoice::Wave(WaveDirection::Vertical))
        } else if direction == 1 {
            Ok(EffectChoice::Wave(WaveDirection::Horizontal))
        } else if direction == 2 {
            Ok(EffectChoice::Wave(WaveDirection::Radial))
        } else {
            Err(EffectChoiceError::InvalidWaveDirection)
        }
    } else if name == "none"@ {
        Ok(EffectChoice::NoEffect)
    } else {
        Err(EffectChoiceError::UnknownEffect)
    }
}

/// The effect type number that the shaders read for an effect.
pub open spec fn effect_type_code(e: EffectChoice) -> u32 {
    match e {
        EffectChoice::NoEffect => 0,
        EffectChoice::Wave(_) => 1,
        EffectChoice::EdgeMelt => 2,
        EffectChoice::Voxelize => 3,
        EffectChoice::Mirage => 4,
    }
}

impl EffectChoice {
    /// Reads an effect request from the command line; the direction number is
    /// read only for the wave effect.
    pub fn from_request(name: &str, direction: u32) -> (r: Result<EffectChoice, EffectChoiceError>)
        ensures
            r == effect_named(name@, direction),
            forall|d: WaveDirection|
                r == Ok::<EffectChoice, EffectChoiceError>(EffectChoice::Wave(d))
                    ==> wave_direction_code(d) == direction,
    {
        if str_eq(name, "voxelize") {
            Ok(EffectChoice::Voxelize)
        } else if str_eq(name, "edge_melt") {
            Ok(EffectChoice::EdgeMelt)
        } else if str_eq(name, "mirage") {
            Ok(EffectChoice::Mirage)
        } else if str_eq(name, "wave") {
            match WaveDirection::from_code(direction) {
                Some(d) => Ok(EffectChoice::Wave(d)),
                None => Err(EffectChoiceError::InvalidWaveDirection),
            }
        } else if str_eq(name, "none") {
            Ok(EffectChoice::NoEffect)
        } else {
            Err(EffectChoiceError::UnknownEffect)
        }
    }

    /// The effect type number written to the effect uniform.
    pub fn effect_type(&self) -> (code: u32)
        ensures
            code == effect_type_code(*self),
    {
        match self {
            EffectChoice::NoEffect => 0,
            EffectChoice::Wave(_) => 1,
            EffectChoice::EdgeMelt => 2,
            EffectChoice::Voxelize => 3,
            EffectChoice::Mirage => 4,
        }
    }
}

/// Distinct effects reach the shaders under distinct numbers (wave directions
/// travel separately), and no effect is numbered like the absence of one.
pub proof fn lemma_effect_type_codes_distinct(a: EffectChoice, b: EffectChoice)
    ensures
        effect_type_code(a) == effect_type_code(b) ==> (a is Wave && b is Wave) || a == b,
        a != EffectChoice::NoEffect ==> effect_type_code(a) != 0,
{
}

} // verus!
