//! Portable light sources and sight within a radius.
use vstd::prelude::*;

verus! {

/// A portable light source.
#[derive(Debug, Clone, Copy, PartialEq, Eq, Structural)]
pub enum LightSource {
    Candle,
    OilLamp,
    BrassLantern,
    MagicLamp,
    Sunsword,
    WandOfLight,
    SpellLight,
}

/// The radius each source lights.
pub open spec fn radius_of(source: LightSource) -> int {
    match source {
        LightSource::Candle => 2,
        LightSource::OilLamp => 3,
        LightSource::BrassLantern => 4,
        LightSource::MagicLamp => 5,
        LightSource::Sunsword => 3,
        LightSource::WandOfLight => 8,
        LightSource::SpellLight => 6,
    }
}

/// The radius a source lights.
pub fn light_radius(source: LightSource) -> (r: i32)
    ensures
        r == radius_of(source),
{
    match source {
        LightSource::Candle => 2,
        LightSource::OilLamp => 3,
        LightSource::BrassLantern => 4,
        LightSource::MagicLamp => 5,
        LightSource::Sunsword => 3,
        LightSource::WandOfLight => 8,
        LightSource::SpellLight => 6,
    }
}

/// How many turns a source burns; the magic lamp and Sunsword never run out.
pub fn light_duration(source: LightSource) -> (r: Option<i32>)
    ensures
        r == (match source {
            LightSource::Candle => Some(400i32),
            LightSource::OilLamp => Some(1500i32),
            LightSource::BrassLantern => Some(3000i32),
            LightSource::MagicLamp | LightSource::Sunsword => None,
            LightSource::WandOfLight => Some(50i32),
            LightSource::SpellLight => Some(100i32),
        }),
{
    match source {
        LightSource::Candle => Some(400),
        LightSource::OilLamp => Some(1500),
        LightSource::BrassLantern => Some(3000),
        LightSource::MagicLamp | LightSource::Sunsword => None,
        LightSource::WandOfLight => Some(50),
        LightSource::SpellLight => Some(100),
    }
}

/// How a creature sees.
#[derive(Debug, Clone, Copy, PartialEq, Eq, Structural)]
pub enum VisionType {
    Normal,
    Infravision,
    Telepathy,
    Blind,
}

/// The distance between two squares counting diagonal steps as one.
pub open spec fn chebyshev(vx: int, vy: int, tx: int, ty: int) -> int {
    let dx = if vx - tx >= 0 { vx - tx } else { tx - vx };
    let dy = if vy - ty >= 0 { vy - ty } else { ty - vy };
    if dx > dy { dx } else { dy }
}

/// Whether a viewer at `(vx, vy)` sees `(tx, ty)`: never when blind,
/// always by telepathy, within `radius` (counting diagonal steps as one)
/// by normal sight, and also anything warm with infravision.
pub fn can_see_at(vx: i32, vy: i32, tx: i32, ty: i32, radius: i32, vision: VisionType, warm: bool) -> (r: bool)
    requires
        i32::MIN < vx - tx <= i32::MAX,
        i32::MIN < vy - ty <= i32::MAX,
    ensures
        r == (match vision {
            VisionType::Blind => false,
            VisionType::Telepathy => true,
            VisionType::Infravision => warm || chebyshev(vx as int, vy as int, tx as int, ty as int) <= radius,
            VisionType::Normal => chebyshev(vx as int, vy as int, tx as int, ty as int) <= radius,
        }),
{
    let ddx = vx - tx;
    let ddy = vy - ty;
    let ax = if ddx >= 0 { ddx } else { -ddx };
    let ay = if ddy >= 0 { ddy } else { -ddy };
    let dist = if ax > ay { ax } else { ay };
    match vision {
        VisionType::Blind => false,
        VisionType::Telepathy => true,
        VisionType::Infravision => warm || dist <= radius,
        VisionType::Normal => dist <= radius,
    }
}

} // verus!
