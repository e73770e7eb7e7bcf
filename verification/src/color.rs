//! Colours and the closed palettes that give a marker its meaning.
//!
//! Marker pixels are discrete render states of the user interface, not a
//! continuous signal, so membership in a palette is exact equality with one of
//! its colours; no distance or tolerance is involved.

use vstd::prelude::*;

verus! {

/// A colour as three 8-bit channels: red, green, blue.
#[derive(Clone, Copy, Debug, PartialEq, Eq, Structural)]
pub struct Rgb(pub u8, pub u8, pub u8);

/// Health bar colour when the character is at full health.
#[verifier::allow_in_spec]
pub fn full_green() -> Rgb
    returns
        Rgb(0, 137, 0),
{
    Rgb(0, 137, 0)
}

/// Health bar colour when the character is slightly hurt.
#[verifier::allow_in_spec]
pub fn greenish() -> Rgb
    returns
        Rgb(79, 114, 3),
{
    Rgb(79, 114, 3)
}

/// Health bar colour when health is low.
#[verifier::allow_in_spec]
pub fn yellow() -> Rgb
    returns
        Rgb(144, 110, 6),
{
    Rgb(144, 110, 6)
}

/// Health bar colour when health is critical.
#[verifier::allow_in_spec]
pub fn red() -> Rgb
    returns
        Rgb(137, 34, 34),
{
    Rgb(137, 34, 34)
}

/// Health bar colour when health is critical, darker shade.
#[verifier::allow_in_spec]
pub fn deep_red() -> Rgb
    returns
        Rgb(137, 0, 0),
{
    Rgb(137, 0, 0)
}

/// Health bar colour when the character is almost dead.
#[verifier::allow_in_spec]
pub fn red_wine() -> Rgb
    returns
        Rgb(69, 0, 0),
{
    Rgb(69, 0, 0)
}

/// Attack marker colour while the attack can be used.
#[verifier::allow_in_spec]
pub fn attack_available() -> Rgb
    returns
        Rgb(56, 11, 0),
{
    Rgb(56, 11, 0)
}

/// Attack marker colour while the attack is cooling down.
#[verifier::allow_in_spec]
pub fn attack_in_cooldown() -> Rgb
    returns
        Rgb(184, 38, 1),
{
    Rgb(184, 38, 1)
}

/// The critical palette: the three shades of red.
pub open spec fn is_critical(c: Rgb) -> bool {
    c == deep_red() || c == red_wine() || c == red()
}

/// The low palette: yellow alone.
pub open spec fn is_low(c: Rgb) -> bool {
    c == yellow()
}

/// The healthy palette: the two shades of green.
pub open spec fn is_healthy(c: Rgb) -> bool {
    c == greenish() || c == full_green()
}

impl Rgb {
    /// Whether this colour belongs to the critical palette.
    pub fn is_critical(&self) -> (b: bool)
        ensures
            b == is_critical(*self),
    {
        *self == deep_red() || *self == red_wine() || *self == red()
    }

    /// Whether this colour belongs to the low palette.
    pub fn is_low(&self) -> (b: bool)
        ensures
            b == is_low(*self),
    {
        *self == yellow()
    }

    /// Whether this colour belongs to the healthy palette.
    pub fn is_healthy(&self) -> (b: bool)
        ensures
            b == is_healthy(*self),
    {
        *self == greenish() || *self == full_green()
    }
}

} // verus!
