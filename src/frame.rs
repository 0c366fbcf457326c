//! The 32-byte command frame that sets the keyboard's lighting.
//!
//! Layout: a header `cc 16`, the effect byte, speed, brightness, the four
//! zone colours as red, green and blue, one unused byte, the two wave
//! direction flags (right-to-left, left-to-right) and twelve unused bytes.
use vstd::prelude::*;
use crate::params::{Effect, Parameters, ParametersView};

verus! {

/// `n` zero bytes.
pub open spec fn zeros(n: nat) -> Seq<u8> {
    Seq::new(n, |i: int| 0u8)
}

/// The zone colours as bytes: red, green and blue of each zone in order.
pub open spec fn color_bytes(cs: Seq<(u8, u8, u8)>) -> Seq<u8>
    decreases cs.len(),
{
    if cs.len() == 0 {
        Seq::empty()
    } else {
        color_bytes(cs.drop_last()) + seq![cs.last().0, cs.last().1, cs.last().2]
    }
}

/// The frame that sets the lighting to `p`.
///
/// For `Off` only the header and the effect byte are set. The zone colours
/// are written for `Static` and `Breath`; the other effects cycle through
/// colours of their own and get zeros there.
pub open spec fn frame(p: ParametersView) -> Seq<u8> {
    if p.effect is Off {
        seq![0xccu8, 0x16u8, p.effect.code()] + zeros(29)
    } else {
        seq![0xccu8, 0x16u8, p.effect.code(), p.speed, p.brightness] + (if p.effect.shows_colors() {
            color_bytes(p.colors)
        } else {
            zeros(12)
        }) + seq![0u8, p.wave_direction.0, p.wave_direction.1] + zeros(12)
    }
}

/// Three bytes for each colour.
pub proof fn lemma_color_bytes_len(cs: Seq<(u8, u8, u8)>)
    ensures
        color_bytes(cs).len() == 3 * cs.len(),
    decreases cs.len(),
{
    if cs.len() > 0 {
        lemma_color_bytes_len(cs.drop_last());
    }
}

fn push_zeros(buf: &mut Vec<u8>, n: usize)
    ensures
        final(buf)@ == old(buf)@ + zeros(n as nat),
{
    let mut i: usize = 0;
    while i < n
        invariant
            i <= n,
            buf@ == old(buf)@ + zeros(i as nat),
        decreases n - i,
    {
        buf.push(0);
        assert(zeros((i + 1) as nat) =~= zeros(i as nat).push(0u8));
        i = i + 1;
    }
}

fn push_colors(buf: &mut Vec<u8>, colors: &Vec<(u8, u8, u8)>)
    ensures
        final(buf)@ == old(buf)@ + color_bytes(colors@),
{
    let mut i: usize = 0;
    while i < colors.len()
        invariant
            i <= colors@.len(),
            buf@ == old(buf)@ + color_bytes(colors@.take(i as int)),
        decreases colors@.len() - i,
    {
        let (r, g, b) = colors[i];
        buf.push(r);
        buf.push(g);
        buf.push(b);
        assert(colors@.take(i + 1).drop_last() =~= colors@.take(i as int));
        assert(buf@ =~= old(buf)@ + color_bytes(colors@.take(i + 1)));
        i = i + 1;
    }
    assert(colors@.take(i as int) =~= colors@);
}

/// Every frame of a configuration with four zone colours is 32 bytes long.
pub proof fn lemma_frame_len(p: ParametersView)
    requires
        p.colors.len() == 4,
    ensures
        frame(p).len() == 32,
{
    lemma_color_bytes_len(p.colors);
}

/// For every effect but `Off`, the speed stands at offset 3 and the
/// brightness at offset 4.
pub proof fn lemma_speed_brightness_offsets(p: ParametersView)
    requires
        p.colors.len() == 4,
        !(p.effect is Off),
    ensures
        frame(p)[3] == p.speed,
        frame(p)[4] == p.brightness,
{
    lemma_color_bytes_len(p.colors);
}

/// The frame for `Off` is the header, the effect byte 1 and 29 zeros,
/// whatever the other fields hold.
pub proof fn lemma_off_frame(p: ParametersView)
    requires
        p.effect is Off,
    ensures
        frame(p) == seq![0xccu8, 0x16u8, 1u8] + zeros(29),
        frame(p).len() == 32,
        forall|i: int| 3 <= i < 32 ==> frame(p)[i] == 0,
{
}

/// For `Wave` and `Hue` the twelve colour bytes, offsets 5 to 16, are zero
/// whatever the zone colours are.
pub proof fn lemma_animated_effects_ignore_colors(p: ParametersView)
    requires
        p.colors.len() == 4,
        p.effect is Wave || p.effect is Hue,
    ensures
        forall|i: int| 5 <= i <= 16 ==> frame(p)[i] == 0,
{
}

/// For every effect but `Off`, the wave direction flags stand at offsets 18
/// (right-to-left) and 19 (left-to-right), and offsets 17 and 20 to 31 are
/// zero.
pub proof fn lemma_direction_offsets(p: ParametersView)
    requires
        p.colors.len() == 4,
        !(p.effect is Off),
    ensures
        frame(p)[18] == p.wave_direction.0,
        frame(p)[19] == p.wave_direction.1,
        frame(p)[17] == 0,
        forall|i: int| 20 <= i < 32 ==> frame(p)[i] == 0,
{
    lemma_color_bytes_len(p.colors);
}

/// For `Static` and `Breath`, zone `z` stands at offsets `5 + 3 * z` to
/// `7 + 3 * z` as red, green and blue.
pub proof fn lemma_zone_offsets(p: ParametersView, z: int)
    requires
        p.colors.len() == 4,
        p.effect is Static || p.effect is Breath,
        0 <= z < 4,
    ensures
        frame(p)[5 + 3 * z] == p.colors[z].0,
        frame(p)[6 + 3 * z] == p.colors[z].1,
        frame(p)[7 + 3 * z] == p.colors[z].2,
{
    lemma_color_bytes_len(p.colors);
    lemma_color_bytes_index(p.colors, z);
}

proof fn lemma_color_bytes_index(cs: Seq<(u8, u8, u8)>, z: int)
    requires
        0 <= z < cs.len(),
    ensures
        color_bytes(cs)[3 * z] == cs[z].0,
        color_bytes(cs)[3 * z + 1] == cs[z].1,
        color_bytes(cs)[3 * z + 2] == cs[z].2,
    decreases cs.len(),
{
    lemma_color_bytes_len(cs.drop_last());
    if z < cs.len() - 1 {
        lemma_color_bytes_index(cs.drop_last(), z);
    }
}

/// Encodes a lighting configuration as the frame that the keyboard expects.
pub fn build_control_buffer(params: &Parameters) -> (r: Vec<u8>)
    requires
        params.colors@.len() == 4,
    ensures
        r@ == frame(params@),
        r@.len() == 32,
{
    let mut buf: Vec<u8> = Vec::with_capacity(32);
    buf.push(0xcc);
    buf.push(0x16);
    let code = Effect::as_byte(params.effect);
    buf.push(code);
    if let Effect::Off = params.effect {
        push_zeros(&mut buf, 29);
        assert(buf@ =~= frame(params@));
        return buf;
    }
    buf.push(params.speed);
    buf.push(params.brightness);
    let ghost head = buf@;
    match params.effect {
        Effect::Static | Effect::Breath => push_colors(&mut buf, &params.colors),
        _ => push_zeros(&mut buf, 12),
    }
    let ghost zones = buf@.subrange(5, buf@.len() as int);
    assert(buf@ =~= head + zones);
    buf.push(0);
    buf.push(params.wave_direction.0);
    buf.push(params.wave_direction.1);
    push_zeros(&mut buf, 12);
    proof { lemma_color_bytes_len(params.colors@); }
    assert(buf@ =~= frame(params@));
    buf
}

} // verus!
