//! The lighting configuration and the validation of its parts.
use vstd::prelude::*;
use crate::color::{ColorError, parsed_colors, padded, parse_colors, pad_colors};

verus! {

/// The lighting animation of the keyboard.
#[derive(Clone, Copy, Debug, PartialEq, Eq, Structural)]
pub enum Effect {
    Off,
    Static,
    Breath,
    Wave,
    Hue,
}

impl Effect {
    /// The protocol byte of the effect; `Off` shares the byte of `Static`.
    pub open spec fn code(self) -> u8 {
        match self {
            Effect::Off => 1,
            Effect::Static => 1,
            Effect::Breath => 3,
            Effect::Wave => 4,
            Effect::Hue => 6,
        }
    }

    /// Whether the effect shows the zone colours.
    pub open spec fn shows_colors(self) -> bool {
        self is Static || self is Breath
    }

    /// Maps each effect to its protocol byte.
    pub fn as_byte(effect: Effect) -> (r: u8)
        ensures
            r == effect.code(),
    {
        match effect {
            Effect::Off => 1,
            Effect::Static => 1,
            Effect::Breath => 3,
            Effect::Wave => 4,
            Effect::Hue => 6,
        }
    }
}

/// Why a lighting configuration could not be built.
#[derive(Debug, PartialEq, Eq)]
pub enum ParamError {
    /// No effect was named.
    MissingEffect,
    /// The argument parser's own message.
    Arguments(String),
    /// The named effect is not one of `off`, `static`, `breath`, `wave`, `hue`.
    InvalidEffect(String),
    /// A speed outside `1..=4`.
    SpeedOutOfRange(u8),
    /// A brightness outside `1..=2`.
    BrightnessOutOfRange(u8),
    /// A direction other than `ltr` or `rtl`.
    InvalidDirection(String),
    /// A pair of direction flags other than `(0, 0)`, `(0, 1)` and `(1, 0)`.
    InvalidDirectionFlags(u8, u8),
    /// A colour that could not be read.
    Color(ColorError),
    /// More colours than the keyboard has zones.
    TooManyColors(usize),
}

/// The effect that `name` selects, if any.
pub open spec fn effect_named(name: Seq<char>) -> Option<Effect> {
    if name == "off"@ {
        Some(Effect::Off)
    } else if name == "static"@ {
        Some(Effect::Static)
    } else if name == "breath"@ {
        Some(Effect::Breath)
    } else if name == "wave"@ {
        Some(Effect::Wave)
    } else if name == "hue"@ {
        Some(Effect::Hue)
    } else {
        None
    }
}

/// Whether `s` and `t` hold the same characters.
fn same_text(s: &str, t: &str) -> (r: bool)
    ensures
        r == (s@ == t@),
{
    let n = s.unicode_len();
    if n != t.unicode_len() {
        return false;
    }
    let mut i: usize = 0;
    while i < n
        invariant
            n == s@.len(),
            n == t@.len(),
            i <= n,
            s@.subrange(0, i as int) == t@.subrange(0, i as int),
        decreases n - i,
    {
        if s.get_char(i) != t.get_char(i) {
            return false;
        }
        assert(s@.subrange(0, i + 1) =~= s@.subrange(0, i as int).push(s@[i as int]));
        assert(t@.subrange(0, i + 1) =~= t@.subrange(0, i as int).push(t@[i as int]));
        i = i + 1;
    }
    assert(s@ =~= s@.subrange(0, n as int));
    assert(t@ =~= t@.subrange(0, n as int));
    true
}

/// Reads the name of an effect: `off`, `static`, `breath`, `wave` or `hue`.
pub fn effect_from_str(effect: &str) -> (r: Result<Effect, ParamError>)
    ensures
        match effect_named(effect@) {
            Some(e) => r == Ok::<Effect, ParamError>(e),
            None => r is Err && r->Err_0 is InvalidEffect && r->Err_0->InvalidEffect_0@
                == effect@,
        },
{
    if same_text(effect, "off") {
        Ok(Effect::Off)
    } else if same_text(effect, "static") {
        Ok(Effect::Static)
    } else if same_text(effect, "breath") {
        Ok(Effect::Breath)
    } else if same_text(effect, "wave") {
        Ok(Effect::Wave)
    } else if same_text(effect, "hue") {
        Ok(Effect::Hue)
    } else {
        Err(ParamError::InvalidEffect(effect.to_owned()))
    }
}

/// The speed that an optional argument gives: 1 when none is given.
pub open spec fn speed_of(value: Option<u8>) -> Result<u8, ParamError> {
    match value {
        None => Ok(1),
        Some(v) => if 1 <= v <= 4 {
            Ok(v)
        } else {
            Err(ParamError::SpeedOutOfRange(v))
        },
    }
}

/// The brightness that an optional argument gives: 1 when none is given.
pub open spec fn brightness_of(value: Option<u8>) -> Result<u8, ParamError> {
    match value {
        None => Ok(1),
        Some(v) => if 1 <= v <= 2 {
            Ok(v)
        } else {
            Err(ParamError::BrightnessOutOfRange(v))
        },
    }
}

/// The direction flags that an optional argument gives: `rtl` sets the
/// first, `ltr` the second, and no direction neither.
pub open spec fn direction_of(dir: Option<String>) -> Result<(u8, u8), ParamError> {
    match dir {
        None => Ok((0u8, 0u8)),
        Some(d) => if d@ == "ltr"@ {
            Ok((0u8, 1u8))
        } else if d@ == "rtl"@ {
            Ok((1u8, 0u8))
        } else {
            Err(ParamError::InvalidDirection(d))
        },
    }
}

/// Whether a pair of direction flags is one that a direction gives.
pub open spec fn valid_direction(flags: (u8, u8)) -> bool {
    flags == (0u8, 0u8) || flags == (0u8, 1u8) || flags == (1u8, 0u8)
}

/// Checks a speed; none given means 1.
pub fn validate_speed_range(opt_val: Option<u8>) -> (r: Result<u8, ParamError>)
    ensures
        r == speed_of(opt_val),
{
    match opt_val {
        Some(value) => if 1 <= value && value <= 4 {
            Ok(value)
        } else {
            Err(ParamError::SpeedOutOfRange(value))
        },
        None => Ok(1),
    }
}

/// Checks a brightness; none given means 1.
pub fn validate_brightness_range(opt_val: Option<u8>) -> (r: Result<u8, ParamError>)
    ensures
        r == brightness_of(opt_val),
{
    match opt_val {
        Some(value) => if 1 <= value && value <= 2 {
            Ok(value)
        } else {
            Err(ParamError::BrightnessOutOfRange(value))
        },
        None => Ok(1),
    }
}

/// Reads a wave direction, `ltr` or `rtl`, into its pair of flags.
pub fn validate_direction(opt_dir: Option<String>) -> (r: Result<(u8, u8), ParamError>)
    ensures
        r == direction_of(opt_dir),
{
    match opt_dir {
        Some(dir) => if same_text(dir.as_str(), "ltr") {
            Ok((0, 1))
        } else if same_text(dir.as_str(), "rtl") {
            Ok((1, 0))
        } else {
            Err(ParamError::InvalidDirection(dir))
        },
        None => Ok((0, 0)),
    }
}

/// A complete lighting configuration, ready to be encoded.
#[derive(Debug, PartialEq, Eq)]
pub struct Parameters {
    pub effect: Effect,
    /// Animation speed, 1 (slow) to 4 (fast).
    pub speed: u8,
    /// Brightness, 1 (dim) or 2 (bright).
    pub brightness: u8,
    /// Wave direction flags: (right-to-left, left-to-right).
    pub wave_direction: (u8, u8),
    /// One colour for each zone, from left to right.
    pub colors: Vec<(u8, u8, u8)>,
}

/// What a lighting configuration holds, with its zone colours as a sequence.
pub ghost struct ParametersView {
    pub effect: Effect,
    pub speed: u8,
    pub brightness: u8,
    pub wave_direction: (u8, u8),
    pub colors: Seq<(u8, u8, u8)>,
}

impl ParametersView {
    /// Every value in range, and one colour for each of the four zones.
    pub open spec fn wf(self) -> bool {
        &&& 1 <= self.speed <= 4
        &&& 1 <= self.brightness <= 2
        &&& valid_direction(self.wave_direction)
        &&& self.colors.len() == 4
    }
}

impl View for Parameters {
    type V = ParametersView;

    open spec fn view(&self) -> ParametersView {
        ParametersView {
            effect: self.effect,
            speed: self.speed,
            brightness: self.brightness,
            wave_direction: self.wave_direction,
            colors: self.colors@,
        }
    }
}

/// The configuration that checked values give, once the colours are
/// brought to four zones, or the first check that fails.
pub open spec fn checked_parameters(
    effect: Effect,
    speed: u8,
    brightness: u8,
    wave_direction: (u8, u8),
    colors: Seq<(u8, u8, u8)>,
) -> Result<ParametersView, ParamError> {
    if !(1 <= speed <= 4) {
        Err(ParamError::SpeedOutOfRange(speed))
    } else if !(1 <= brightness <= 2) {
        Err(ParamError::BrightnessOutOfRange(brightness))
    } else if !valid_direction(wave_direction) {
        Err(ParamError::InvalidDirectionFlags(wave_direction.0, wave_direction.1))
    } else if colors.len() > 4 {
        Err(ParamError::TooManyColors(colors.len() as usize))
    } else {
        Ok(
            ParametersView {
                effect,
                speed,
                brightness,
                wave_direction,
                colors: padded(colors),
            },
        )
    }
}

impl Parameters {
    /// Builds a configuration from values given one by one, such as those of
    /// a stored rule. Fewer than four colours are padded with the last, none
    /// at all gives four black zones.
    pub fn new(
        effect: Effect,
        speed: u8,
        brightness: u8,
        wave_direction: (u8, u8),
        colors: Vec<(u8, u8, u8)>,
    ) -> (r: Result<Parameters, ParamError>)
        ensures
            match checked_parameters(effect, speed, brightness, wave_direction, colors@) {
                Err(e) => r == Err::<Parameters, ParamError>(e),
                Ok(v) => r is Ok && r->Ok_0@ == v,
            },
            r is Ok ==> r->Ok_0@.wf(),
    {
        if !(1 <= speed && speed <= 4) {
            return Err(ParamError::SpeedOutOfRange(speed));
        }
        if !(1 <= brightness && brightness <= 2) {
            return Err(ParamError::BrightnessOutOfRange(brightness));
        }
        let (d0, d1) = wave_direction;
        if !((d0 == 0 && d1 == 0) || (d0 == 0 && d1 == 1) || (d0 == 1 && d1 == 0)) {
            return Err(ParamError::InvalidDirectionFlags(d0, d1));
        }
        if colors.len() > 4 {
            return Err(ParamError::TooManyColors(colors.len()));
        }
        let mut colors = colors;
        pad_colors(&mut colors);
        Ok(Parameters { effect, speed, brightness, wave_direction, colors })
    }
}

/// The configuration that the command-line arguments give, or the first
/// error met when reading them in order: effect, speed, brightness,
/// direction, colours. Each argument is handed over as the argument parser
/// gave it; a colour argument is `None` where it is not valid Unicode.
pub open spec fn parameters_from(
    effect: Result<Option<String>, String>,
    speed: Result<Option<u8>, String>,
    brightness: Result<Option<u8>, String>,
    direction: Result<Option<String>, String>,
    colors: Seq<Option<String>>,
) -> Result<ParametersView, ParamError> {
    match effect {
        Err(m) => Err(ParamError::Arguments(m)),
        Ok(None) => Err(ParamError::MissingEffect),
        Ok(Some(name)) => match effect_named(name@) {
            None => Err(ParamError::InvalidEffect(name)),
            Some(e) => match speed {
                Err(m) => Err(ParamError::Arguments(m)),
                Ok(sv) => match speed_of(sv) {
                    Err(x) => Err(x),
                    Ok(sp) => match brightness {
                        Err(m) => Err(ParamError::Arguments(m)),
                        Ok(bv) => match brightness_of(bv) {
                            Err(x) => Err(x),
                            Ok(br) => match direction {
                                Err(m) => Err(ParamError::Arguments(m)),
                                Ok(dv) => match direction_of(dv) {
                                    Err(x) => Err(x),
                                    Ok(dir) => match parsed_colors(colors) {
                                        Err(c) => Err(ParamError::Color(c)),
                                        Ok(cs) => checked_parameters(e, sp, br, dir, cs),
                                    },
                                },
                            },
                        },
                    },
                },
            },
        },
    }
}

/// Builds the lighting configuration from the command-line arguments: the
/// effect's name, the optional speed, brightness and wave direction, and
/// up to four colours in hexadecimal.
pub fn parse_parameters(
    effect: Result<Option<String>, String>,
    speed: Result<Option<u8>, String>,
    brightness: Result<Option<u8>, String>,
    direction: Result<Option<String>, String>,
    colors: Vec<Option<String>>,
) -> (r: Result<Parameters, ParamError>)
    ensures
        match parameters_from(effect, speed, brightness, direction, colors@) {
            Err(e) => r == Err::<Parameters, ParamError>(e),
            Ok(v) => r is Ok && r->Ok_0@ == v,
        },
        r is Ok ==> r->Ok_0@.wf(),
{
    let effect = match effect {
        Err(m) => return Err(ParamError::Arguments(m)),
        Ok(None) => return Err(ParamError::MissingEffect),
        Ok(Some(name)) => match effect_from_str(name.as_str()) {
            Ok(e) => e,
            Err(_) => return Err(ParamError::InvalidEffect(name)),
        },
    };
    let speed = match speed {
        Err(m) => return Err(ParamError::Arguments(m)),
        Ok(v) => match validate_speed_range(v) {
            Ok(sp) => sp,
            Err(x) => return Err(x),
        },
    };
    let brightness = match brightness {
        Err(m) => return Err(ParamError::Arguments(m)),
        Ok(v) => match validate_brightness_range(v) {
            Ok(br) => br,
            Err(x) => return Err(x),
        },
    };
    let wave_direction = match direction {
        Err(m) => return Err(ParamError::Arguments(m)),
        Ok(v) => match validate_direction(v) {
            Ok(d) => d,
            Err(x) => return Err(x),
        },
    };
    let ghost args = colors@;
    let colors = match parse_colors(colors) {
        Ok(cs) => cs,
        Err(c) => return Err(ParamError::Color(c)),
    };
    assert(padded(colors@) == padded(parsed_colors(args)->Ok_0));
    Parameters::new(effect, speed, brightness, wave_direction, colors)
}

} // verus!
