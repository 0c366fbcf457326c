use l5p_kbl::color::ColorError;
use l5p_kbl::params::{
    effect_from_str, parse_parameters, validate_brightness_range, validate_direction,
    validate_speed_range, Effect, ParamError, Parameters,
};

fn some(s: &str) -> Option<String> {
    Some(s.to_string())
}

#[test]
fn effect_bytes() {
    assert_eq!(Effect::as_byte(Effect::Off), 1);
    assert_eq!(Effect::as_byte(Effect::Static), 1);
    assert_eq!(Effect::as_byte(Effect::Breath), 3);
    assert_eq!(Effect::as_byte(Effect::Wave), 4);
    assert_eq!(Effect::as_byte(Effect::Hue), 6);
}

#[test]
fn effect_names() {
    assert_eq!(effect_from_str("off"), Ok(Effect::Off));
    assert_eq!(effect_from_str("static"), Ok(Effect::Static));
    assert_eq!(effect_from_str("breath"), Ok(Effect::Breath));
    assert_eq!(effect_from_str("wave"), Ok(Effect::Wave));
    assert_eq!(effect_from_str("hue"), Ok(Effect::Hue));
}

#[test]
fn effect_unknown_name() {
    assert_eq!(effect_from_str("Static"), Err(ParamError::InvalidEffect("Static".to_string())));
    assert_eq!(effect_from_str(""), Err(ParamError::InvalidEffect(String::new())));
    assert_eq!(effect_from_str("offf"), Err(ParamError::InvalidEffect("offf".to_string())));
}

#[test]
fn speed_range() {
    assert_eq!(validate_speed_range(None), Ok(1));
    assert_eq!(validate_speed_range(Some(1)), Ok(1));
    assert_eq!(validate_speed_range(Some(4)), Ok(4));
    assert_eq!(validate_speed_range(Some(0)), Err(ParamError::SpeedOutOfRange(0)));
    assert_eq!(validate_speed_range(Some(5)), Err(ParamError::SpeedOutOfRange(5)));
}

#[test]
fn brightness_range() {
    assert_eq!(validate_brightness_range(None), Ok(1));
    assert_eq!(validate_brightness_range(Some(2)), Ok(2));
    assert_eq!(validate_brightness_range(Some(0)), Err(ParamError::BrightnessOutOfRange(0)));
    assert_eq!(validate_brightness_range(Some(3)), Err(ParamError::BrightnessOutOfRange(3)));
}

#[test]
fn direction_names() {
    assert_eq!(validate_direction(some("rtl")), Ok((1, 0)));
    assert_eq!(validate_direction(some("ltr")), Ok((0, 1)));
    assert_eq!(validate_direction(None), Ok((0, 0)));
    assert_eq!(validate_direction(some("up")), Err(ParamError::InvalidDirection("up".to_string())));
}

#[test]
fn parse_full_arguments() {
    let p = parse_parameters(
        Ok(some("breath")),
        Ok(Some(3)),
        Ok(Some(2)),
        Ok(some("ltr")),
        vec![some("ff0000"), some("00ff00")],
    )
    .unwrap();
    assert_eq!(p.effect, Effect::Breath);
    assert_eq!(p.speed, 3);
    assert_eq!(p.brightness, 2);
    assert_eq!(p.wave_direction, (0, 1));
    assert_eq!(p.colors, vec![(255, 0, 0), (0, 255, 0), (0, 255, 0), (0, 255, 0)]);
}

#[test]
fn parse_defaults() {
    let p = parse_parameters(Ok(some("static")), Ok(None), Ok(None), Ok(None), vec![]).unwrap();
    assert_eq!(p.speed, 1);
    assert_eq!(p.brightness, 1);
    assert_eq!(p.wave_direction, (0, 0));
    assert_eq!(p.colors, vec![(0, 0, 0); 4]);
}

#[test]
fn parse_errors_in_order() {
    assert_eq!(
        parse_parameters(Ok(None), Ok(Some(9)), Ok(None), Ok(None), vec![]),
        Err(ParamError::MissingEffect)
    );
    assert_eq!(
        parse_parameters(Err("bad".to_string()), Ok(None), Ok(None), Ok(None), vec![]),
        Err(ParamError::Arguments("bad".to_string()))
    );
    assert_eq!(
        parse_parameters(Ok(some("blink")), Ok(Some(9)), Ok(None), Ok(None), vec![]),
        Err(ParamError::InvalidEffect("blink".to_string()))
    );
    assert_eq!(
        parse_parameters(Ok(some("hue")), Ok(Some(9)), Ok(Some(9)), Ok(None), vec![]),
        Err(ParamError::SpeedOutOfRange(9))
    );
    assert_eq!(
        parse_parameters(Ok(some("hue")), Ok(None), Err("x".to_string()), Ok(None), vec![]),
        Err(ParamError::Arguments("x".to_string()))
    );
    assert_eq!(
        parse_parameters(Ok(some("hue")), Ok(None), Ok(Some(3)), Ok(some("up")), vec![]),
        Err(ParamError::BrightnessOutOfRange(3))
    );
    assert_eq!(
        parse_parameters(Ok(some("wave")), Ok(None), Ok(None), Ok(some("up")), vec![None]),
        Err(ParamError::InvalidDirection("up".to_string()))
    );
    assert_eq!(
        parse_parameters(Ok(some("wave")), Ok(None), Ok(None), Ok(None), vec![some("ff")]),
        Err(ParamError::Color(ColorError::TooShort))
    );
}

#[test]
fn parse_rejects_five_colors() {
    let colors = vec![some("000000"), some("000000"), some("000000"), some("000000"), some("000000")];
    assert_eq!(
        parse_parameters(Ok(some("static")), Ok(None), Ok(None), Ok(None), colors),
        Err(ParamError::TooManyColors(5))
    );
}

#[test]
fn new_checks_and_pads() {
    let p = Parameters::new(Effect::Static, 2, 1, (0, 0), vec![(9, 8, 7)]).unwrap();
    assert_eq!(p.colors, vec![(9, 8, 7); 4]);
    assert_eq!(
        Parameters::new(Effect::Wave, 1, 1, (1, 1), vec![]),
        Err(ParamError::InvalidDirectionFlags(1, 1))
    );
    assert_eq!(
        Parameters::new(Effect::Wave, 0, 1, (0, 0), vec![]),
        Err(ParamError::SpeedOutOfRange(0))
    );
    assert_eq!(
        Parameters::new(Effect::Wave, 1, 5, (0, 0), vec![]),
        Err(ParamError::BrightnessOutOfRange(5))
    );
    assert_eq!(
        Parameters::new(Effect::Wave, 1, 1, (0, 0), vec![(0, 0, 0); 5]),
        Err(ParamError::TooManyColors(5))
    );
}
