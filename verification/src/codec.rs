//! The profile codec: an `EngineState` as bytes and back.
//!
//! The format is one tag byte for the effect, the two levels, a zone count,
//! then three channel bytes per zone. Encoding is injective, and decoding
//! accepts exactly the encodings, so a saved profile loads back as the very
//! state that was saved.

use vstd::prelude::*;
use vstd::arithmetic::div_mod::lemma_fundamental_div_mod;
use crate::types::{EffectKind, ErrorKind, Rgb};
use crate::engine::{state_eq, EngineState};

verus! {

/// The byte that stands for each effect on disk.
pub open spec fn effect_tag(k: EffectKind) -> u8 {
    match k {
        EffectKind::Static => 0,
        EffectKind::Breathing => 1,
        EffectKind::Wave => 2,
        EffectKind::Reactive => 3,
    }
}

/// The effect a tag byte stands for, if any.
pub open spec fn tag_effect(t: u8) -> Option<EffectKind> {
    if t == 0 {
        Some(EffectKind::Static)
    } else if t == 1 {
        Some(EffectKind::Breathing)
    } else if t == 2 {
        Some(EffectKind::Wave)
    } else if t == 3 {
        Some(EffectKind::Reactive)
    } else {
        None
    }
}

/// A color table flattened to bytes, three per zone.
pub open spec fn color_bytes(cs: Seq<Rgb>) -> Seq<u8>
    decreases cs.len(),
{
    if cs.len() == 0 {
        Seq::empty()
    } else {
        seq![cs[0].red, cs[0].green, cs[0].blue] + color_bytes(cs.drop_first())
    }
}

/// The whole profile: tag, brightness, speed, zone count, then the table.
pub open spec fn encode_spec(s: EngineState) -> Seq<u8> {
    seq![
        effect_tag(s.effect),
        s.brightness,
        s.speed,
        s.zone_colors@.len() as u8,
    ] + color_bytes(s.zone_colors@)
}

/// The flattened table is three bytes per zone, and byte `3i + c` is
/// channel `c` of zone `i`.
pub proof fn lemma_color_bytes_index(cs: Seq<Rgb>)
    ensures
        color_bytes(cs).len() == 3 * cs.len(),
        forall|i: int|
            0 <= i < cs.len() ==> {
                &&& color_bytes(cs)[3 * i] == cs[i].red
                &&& color_bytes(cs)[3 * i + 1] == cs[i].green
                &&& color_bytes(cs)[3 * i + 2] == cs[i].blue
            },
    decreases cs.len(),
{
    if cs.len() == 0 {
    } else {
        lemma_color_bytes_index(cs.drop_first());
        assert forall|i: int| 0 <= i < cs.len() implies {
            &&& color_bytes(cs)[3 * i] == cs[i].red
            &&& color_bytes(cs)[3 * i + 1] == cs[i].green
            &&& color_bytes(cs)[3 * i + 2] == cs[i].blue
        } by {
            if i > 0 {
                assert(cs.drop_first()[i - 1] == cs[i]);
                assert(color_bytes(cs)[3 * i] == color_bytes(cs.drop_first())[3 * (i - 1)]);
                assert(color_bytes(cs)[3 * i + 1] == color_bytes(cs.drop_first())[3 * (i - 1)
                    + 1]);
                assert(color_bytes(cs)[3 * i + 2] == color_bytes(cs.drop_first())[3 * (i - 1)
                    + 2]);
            }
        }
    }
}

/// Flattening commutes with appending one zone.
pub proof fn lemma_color_bytes_push(cs: Seq<Rgb>, c: Rgb)
    ensures
        color_bytes(cs.push(c)) == color_bytes(cs) + seq![c.red, c.green, c.blue],
    decreases cs.len(),
{
    if cs.len() == 0 {
        let p = cs.push(c);
        assert(p.len() == 1);
        assert(p[0] == c);
        assert(p.drop_first() =~= Seq::<Rgb>::empty());
        assert(p.drop_first().len() == 0);
        assert(color_bytes(p.drop_first()) =~= Seq::<u8>::empty());
        assert(color_bytes(p) == seq![c.red, c.green, c.blue] + color_bytes(p.drop_first()));
        assert(color_bytes(cs) =~= Seq::<u8>::empty());
        assert(color_bytes(cs.push(c)) =~= color_bytes(cs) + seq![c.red, c.green, c.blue]);
    } else {
        lemma_color_bytes_push(cs.drop_first(), c);
        assert(cs.push(c).drop_first() =~= cs.drop_first().push(c));
        assert(cs.push(c)[0] == cs[0]);
        assert(color_bytes(cs.push(c)) =~= color_bytes(cs) + seq![c.red, c.green, c.blue]);
    }
}

/// Flattening is injective on tables of equal length.
pub proof fn lemma_color_bytes_injective(c1: Seq<Rgb>, c2: Seq<Rgb>)
    requires
        c1.len() == c2.len(),
        color_bytes(c1) == color_bytes(c2),
    ensures
        c1 == c2,
    decreases c1.len(),
{
    lemma_color_bytes_index(c1);
    lemma_color_bytes_index(c2);
    assert forall|i: int| 0 <= i < c1.len() implies c1[i] == c2[i] by {
        assert(c1[i].red == color_bytes(c1)[3 * i]);
        assert(c1[i].green == color_bytes(c1)[3 * i + 1]);
        assert(c1[i].blue == color_bytes(c1)[3 * i + 2]);
    }
    assert(c1 =~= c2);
}

/// Encoding is injective: profiles that serialize to the same bytes hold
/// the same configuration. Together with the decoder's contract this is the
/// round trip: loading a saved profile yields the state that was saved.
pub proof fn lemma_encode_injective(s1: EngineState, s2: EngineState)
    requires
        s1.zone_colors@.len() <= 255,
        s2.zone_colors@.len() <= 255,
        encode_spec(s1) == encode_spec(s2),
    ensures
        state_eq(s1, s2),
{
    lemma_color_bytes_index(s1.zone_colors@);
    lemma_color_bytes_index(s2.zone_colors@);
    assert(encode_spec(s1)[0] == effect_tag(s1.effect));
    assert(encode_spec(s2)[0] == effect_tag(s2.effect));
    assert(s1.effect == s2.effect);
    assert(encode_spec(s1)[1] == s1.brightness && encode_spec(s2)[1] == s2.brightness);
    assert(encode_spec(s1)[2] == s1.speed && encode_spec(s2)[2] == s2.speed);
    assert(encode_spec(s1)[3] == s1.zone_colors@.len() as u8);
    assert(encode_spec(s2)[3] == s2.zone_colors@.len() as u8);
    assert(s1.zone_colors@.len() == s2.zone_colors@.len());
    assert(color_bytes(s1.zone_colors@) =~= color_bytes(s2.zone_colors@)) by {
        assert forall|i: int| 0 <= i < color_bytes(s1.zone_colors@).len() implies color_bytes(
            s1.zone_colors@,
        )[i] == color_bytes(s2.zone_colors@)[i] by {
            assert(color_bytes(s1.zone_colors@)[i] == encode_spec(s1)[4 + i]);
            assert(color_bytes(s2.zone_colors@)[i] == encode_spec(s2)[4 + i]);
        }
    }
    lemma_color_bytes_injective(s1.zone_colors@, s2.zone_colors@);
}

/// Serialize a profile. The zone table must fit the one count byte; every
/// configuration an engine holds does, its zone count being a byte.
pub fn encode_profile(s: &EngineState) -> (b: Vec<u8>)
    requires
        s.zone_colors@.len() <= 255,
    ensures
        b@ == encode_spec(*s),
{
    let mut b: Vec<u8> = Vec::new();
    let tag: u8 = match s.effect {
        EffectKind::Static => 0,
        EffectKind::Breathing => 1,
        EffectKind::Wave => 2,
        EffectKind::Reactive => 3,
    };
    b.push(tag);
    b.push(s.brightness);
    b.push(s.speed);
    b.push(s.zone_colors.len() as u8);
    let n = s.zone_colors.len();
    proof {
        assert(s.zone_colors@.take(0) =~= Seq::<Rgb>::empty());
    }
    for i in 0..n
        invariant
            n == s.zone_colors@.len() <= 255,
            b@ == seq![
                effect_tag(s.effect),
                s.brightness,
                s.speed,
                s.zone_colors@.len() as u8,
            ] + color_bytes(s.zone_colors@.take(i as int)),
    {
        let c = s.zone_colors[i];
        proof {
            assert(s.zone_colors@.take(i + 1) =~= s.zone_colors@.take(i as int).push(
                s.zone_colors@[i as int],
            ));
            lemma_color_bytes_push(s.zone_colors@.take(i as int), s.zone_colors@[i as int]);
        }
        b.push(c.red);
        b.push(c.green);
        b.push(c.blue);
        proof {
            assert(b@ =~= seq![
                effect_tag(s.effect),
                s.brightness,
                s.speed,
                s.zone_colors@.len() as u8,
            ] + color_bytes(s.zone_colors@.take(i + 1)));
        }
    }
    proof {
        assert(s.zone_colors@.take(n as int) =~= s.zone_colors@);
    }
    b
}

/// Deserialize a profile. Accepts exactly the byte strings some
/// configuration encodes to, and hands back the configuration whose
/// encoding the input is; anything else is the `IoError` of a corrupt
/// profile, if and only if so.
pub fn decode_profile(b: &Vec<u8>) -> (r: Result<EngineState, ErrorKind>)
    ensures
        match r {
            Ok(s) => {
                &&& b@ == encode_spec(s)
                &&& s.zone_colors@.len() <= 255
            },
            Err(k) => {
                &&& k == ErrorKind::IoError
                &&& forall|s: EngineState|
                    s.zone_colors@.len() <= 255 ==> b@ != encode_spec(s)
            },
        },
{
    if b.len() < 4 {
        proof {
            assert forall|s: EngineState| s.zone_colors@.len() <= 255 implies b@ != encode_spec(
                s,
            ) by {
                lemma_color_bytes_index(s.zone_colors@);
            }
        }
        return Err(ErrorKind::IoError);
    }
    let tag = b[0];
    let effect = if tag == 0 {
        EffectKind::Static
    } else if tag == 1 {
        EffectKind::Breathing
    } else if tag == 2 {
        EffectKind::Wave
    } else if tag == 3 {
        EffectKind::Reactive
    } else {
        proof {
            assert forall|s: EngineState| s.zone_colors@.len() <= 255 implies b@ != encode_spec(
                s,
            ) by {
                assert(encode_spec(s)[0] == effect_tag(s.effect));
            }
        }
        return Err(ErrorKind::IoError);
    };
    let n = b[3] as usize;
    if b.len() != 4 + 3 * n {
        proof {
            assert forall|s: EngineState| s.zone_colors@.len() <= 255 implies b@ != encode_spec(
                s,
            ) by {
                if b@ == encode_spec(s) {
                    lemma_color_bytes_index(s.zone_colors@);
                    assert(b@[3] == s.zone_colors@.len() as u8);
                    assert(s.zone_colors@.len() == n);
                }
            }
        }
        return Err(ErrorKind::IoError);
    }
    let mut colors: Vec<Rgb> = Vec::new();
    for i in 0..n
        invariant
            n == b[3],
            b@.len() == 4 + 3 * n,
            colors@.len() == i,
            forall|j: int|
                0 <= j < i ==> colors@[j] == (Rgb {
                    red: b@[4 + 3 * j],
                    green: b@[4 + 3 * j + 1],
                    blue: b@[4 + 3 * j + 2],
                }),
    {
        let c = Rgb { red: b[4 + 3 * i], green: b[4 + 3 * i + 1], blue: b[4 + 3 * i + 2] };
        colors.push(c);
    }
    let s = EngineState { effect, brightness: b[1], speed: b[2], zone_colors: colors };
    proof {
        lemma_color_bytes_index(s.zone_colors@);
        assert(b@ =~= encode_spec(s)) by {
            assert(encode_spec(s).len() == 4 + 3 * n);
            assert forall|k: int| 0 <= k < b@.len() implies b@[k] == encode_spec(s)[k] by {
                if k >= 4 {
                    let q = (k - 4) / 3;
                    let m = (k - 4) % 3;
                    lemma_fundamental_div_mod(k - 4, 3);
                    assert(0 <= m < 3);
                    assert(k - 4 == 3 * q + m);
                    assert(0 <= q < n);
                    assert(encode_spec(s)[k] == color_bytes(s.zone_colors@)[3 * q + m]);
                    if m == 0 {
                        assert(color_bytes(s.zone_colors@)[3 * q] == s.zone_colors@[q].red);
                    } else if m == 1 {
                        assert(color_bytes(s.zone_colors@)[3 * q + 1] == s.zone_colors@[q].green);
                    } else {
                        assert(color_bytes(s.zone_colors@)[3 * q + 2] == s.zone_colors@[q].blue);
                    }
                }
            }
        }
    }
    Ok(s)
}

} // verus!
