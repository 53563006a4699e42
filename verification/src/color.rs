//! The discrete decisions of the colour model: which channel a hue sector
//! feeds, and how many channels a slice of a given length holds. The channel
//! values themselves are floating point and are computed by the caller.

use vstd::prelude::*;

verus! {

/// What one colour channel receives in a sector of the hue circle.
#[derive(Copy, Clone, Debug, PartialEq, Eq, Structural)]
pub enum ChannelLevel {
    /// The full chroma, `value * saturation`.
    Chroma,
    /// The chroma scaled by the position inside the pair of sectors.
    Ramp,
    /// Nothing but the common offset `value - chroma`.
    Zero,
}

/// The levels of red, green and blue in one hue sector.
#[derive(Copy, Clone, Debug, PartialEq, Eq, Structural)]
pub struct SectorLevels {
    pub r: ChannelLevel,
    pub g: ChannelLevel,
    pub b: ChannelLevel,
}

/// The number of sectors of 60 degrees in the hue circle.
pub const HUE_SECTORS: u32 = 6;

/// The levels of the sector with the given index, for the six sectors of the
/// hue circle in order from red; none for any other index.
pub open spec fn spec_sector_levels(sector: u32) -> Option<SectorLevels> {
    if sector == 0 {
        Some(SectorLevels { r: ChannelLevel::Chroma, g: ChannelLevel::Ramp, b: ChannelLevel::Zero })
    } else if sector == 1 {
        Some(SectorLevels { r: ChannelLevel::Ramp, g: ChannelLevel::Chroma, b: ChannelLevel::Zero })
    } else if sector == 2 {
        Some(SectorLevels { r: ChannelLevel::Zero, g: ChannelLevel::Chroma, b: ChannelLevel::Ramp })
    } else if sector == 3 {
        Some(SectorLevels { r: ChannelLevel::Zero, g: ChannelLevel::Ramp, b: ChannelLevel::Chroma })
    } else if sector == 4 {
        Some(SectorLevels { r: ChannelLevel::Ramp, g: ChannelLevel::Zero, b: ChannelLevel::Chroma })
    } else if sector == 5 {
        Some(SectorLevels { r: ChannelLevel::Chroma, g: ChannelLevel::Zero, b: ChannelLevel::Ramp })
    } else {
        None
    }
}

/// The levels of red, green and blue in a hue sector. An index outside the
/// six sectors gives `None`, for which the caller falls back to black; it
/// never indexes out of bounds.
#[verifier::when_used_as_spec(spec_sector_levels)]
pub fn sector_levels(sector: u32) -> (levels: Option<SectorLevels>)
    ensures
        levels == spec_sector_levels(sector),
        levels is Some <==> sector < HUE_SECTORS,
{
    match sector {
        0 => Some(
            SectorLevels { r: ChannelLevel::Chroma, g: ChannelLevel::Ramp, b: ChannelLevel::Zero },
        ),
        1 => Some(
            SectorLevels { r: ChannelLevel::Ramp, g: ChannelLevel::Chroma, b: ChannelLevel::Zero },
        ),
        2 => Some(
            SectorLevels { r: ChannelLevel::Zero, g: ChannelLevel::Chroma, b: ChannelLevel::Ramp },
        ),
        3 => Some(
            SectorLevels { r: ChannelLevel::Zero, g: ChannelLevel::Ramp, b: ChannelLevel::Chroma },
        ),
        4 => Some(
            SectorLevels { r: ChannelLevel::Ramp, g: ChannelLevel::Zero, b: ChannelLevel::Chroma },
        ),
        5 => Some(
            SectorLevels { r: ChannelLevel::Chroma, g: ChannelLevel::Zero, b: ChannelLevel::Ramp },
        ),
        _ => None,
    }
}

/// Whether the three levels are the three different levels, in some order.
pub open spec fn is_permutation(levels: SectorLevels) -> bool {
    &&& levels.r != levels.g
    &&& levels.g != levels.b
    &&& levels.r != levels.b
}

/// In every sector each channel has a level of its own: one channel has the
/// full chroma, one the ramp and one nothing.
pub proof fn lemma_sector_levels_permute(sector: u32)
    requires
        sector < HUE_SECTORS,
    ensures
        sector_levels(sector) is Some,
        is_permutation(sector_levels(sector)->0),
{
}

/// No two sectors share their levels: the six sectors are the six orders of
/// the three levels.
pub proof fn lemma_sector_levels_distinct(s: u32, t: u32)
    requires
        s < HUE_SECTORS,
        t < HUE_SECTORS,
        s != t,
    ensures
        sector_levels(s) != sector_levels(t),
{
}

/// The primaries sit where their sectors begin: red has the full chroma in
/// the sectors on both sides of 0 degrees, green on both sides of 120 and
/// blue on both sides of 240.
pub proof fn lemma_primary_sectors()
    ensures
        sector_levels(5)->0.r == ChannelLevel::Chroma && sector_levels(0)->0.r
            == ChannelLevel::Chroma,
        sector_levels(1)->0.g == ChannelLevel::Chroma && sector_levels(2)->0.g
            == ChannelLevel::Chroma,
        sector_levels(3)->0.b == ChannelLevel::Chroma && sector_levels(4)->0.b
            == ChannelLevel::Chroma,
{
}

/// How the elements of a slice are read as a colour.
#[derive(Copy, Clone, Debug, PartialEq, Eq, Structural)]
pub enum SliceLayout {
    /// Red, green and blue; the colour is opaque.
    Rgb,
    /// Red, green, blue and alpha; further elements are ignored.
    Rgba,
}

/// How a slice of `len` elements is read: exactly three elements are an
/// opaque colour, four or more start with a colour and its alpha, fewer than
/// three are no colour.
pub open spec fn spec_slice_layout(len: usize) -> Option<SliceLayout> {
    if len == 3 {
        Some(SliceLayout::Rgb)
    } else if len >= 4 {
        Some(SliceLayout::Rgba)
    } else {
        None
    }
}

/// How a slice of `len` elements is read as a colour; `None` where it holds
/// too few elements, which the caller treats as a programming error.
#[verifier::when_used_as_spec(spec_slice_layout)]
pub fn slice_layout(len: usize) -> (layout: Option<SliceLayout>)
    ensures
        layout == spec_slice_layout(len),
        layout is None <==> len < 3,
{
    if len == 3 {
        Some(SliceLayout::Rgb)
    } else if len >= 4 {
        Some(SliceLayout::Rgba)
    } else {
        None
    }
}

} // verus!
