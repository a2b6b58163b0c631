//! The DPI mode a platform runs in, and what it decides about scaling.
use vstd::prelude::*;

verus! {

/// The DPI mode in effect, without the factor that a locked mode carries.
#[derive(Clone, Copy, Debug, PartialEq, Eq, Structural)]
pub enum ActiveHiDpiMode {
    /// The window's own DPI factor is used as it is.
    Default,
    /// The window's DPI factor is rounded to an integer.
    Rounded,
    /// A fixed DPI factor is used, whatever the window reports.
    Locked,
}

/// How the platform's DPI factor follows a change of the window's scale factor.
#[derive(Clone, Copy, Debug, PartialEq, Eq, Structural)]
pub enum ScaleFactorUpdate {
    /// Take the window's new factor as it is.
    Adopt,
    /// Take the window's new factor rounded to an integer.
    AdoptRounded,
    /// Keep the current factor and leave the ImGui state alone.
    Ignore,
}

/// The update that a mode makes on a scale factor change: the default mode adopts
/// the new factor, the rounded mode adopts it rounded, a locked mode ignores it.
pub open spec fn scale_update_of(mode: ActiveHiDpiMode) -> ScaleFactorUpdate {
    match mode {
        ActiveHiDpiMode::Default => ScaleFactorUpdate::Adopt,
        ActiveHiDpiMode::Rounded => ScaleFactorUpdate::AdoptRounded,
        ActiveHiDpiMode::Locked => ScaleFactorUpdate::Ignore,
    }
}

/// Only a locked mode ignores the window's scale factor changes, and only the
/// rounded mode rounds the new factor; the default mode takes it as it is.
pub proof fn lemma_scale_update_follows_mode(mode: ActiveHiDpiMode)
    ensures
        scale_update_of(mode) is Ignore <==> mode is Locked,
        scale_update_of(mode) is AdoptRounded <==> mode is Rounded,
        scale_update_of(mode) is Adopt <==> mode is Default,
{
}

impl ActiveHiDpiMode {
    /// Whether logical coordinates must be converted between the window's DPI factor
    /// and the platform's: only outside the default mode do the two factors differ.
    pub fn rescales_coordinates(&self) -> (r: bool)
        ensures
            r == !(*self is Default),
    {
        match self {
            ActiveHiDpiMode::Default => false,
            _ => true,
        }
    }

    /// How the platform's DPI factor follows a change of the window's scale factor.
    pub fn scale_factor_update(&self) -> (r: ScaleFactorUpdate)
        ensures
            r == scale_update_of(*self),
    {
        match self {
            ActiveHiDpiMode::Default => ScaleFactorUpdate::Adopt,
            ActiveHiDpiMode::Rounded => ScaleFactorUpdate::AdoptRounded,
            _ => ScaleFactorUpdate::Ignore,
        }
    }
}

} // verus!
