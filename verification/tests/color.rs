use linear_math::color::ChannelLevel::{Chroma, Ramp, Zero};
use linear_math::color::{sector_levels, slice_layout, ChannelLevel, SectorLevels, SliceLayout};

#[test]
fn sector_levels_of_the_six_sectors() {
    assert_eq!(sector_levels(0), Some(SectorLevels { r: Chroma, g: Ramp, b: Zero }));
    assert_eq!(sector_levels(1), Some(SectorLevels { r: Ramp, g: Chroma, b: Zero }));
    assert_eq!(sector_levels(2), Some(SectorLevels { r: Zero, g: Chroma, b: Ramp }));
    assert_eq!(sector_levels(3), Some(SectorLevels { r: Zero, g: Ramp, b: Chroma }));
    assert_eq!(sector_levels(4), Some(SectorLevels { r: Ramp, g: Zero, b: Chroma }));
    assert_eq!(sector_levels(5), Some(SectorLevels { r: Chroma, g: Zero, b: Ramp }));
}

#[test]
fn sector_levels_outside_the_circle() {
    assert_eq!(sector_levels(6), None);
    assert_eq!(sector_levels(7), None);
    assert_eq!(sector_levels(u32::MAX), None);
}

#[test]
fn sector_levels_are_six_different_orders() {
    for s in 0..6 {
        let levels = sector_levels(s).unwrap();
        assert_ne!(levels.r, levels.g);
        assert_ne!(levels.g, levels.b);
        assert_ne!(levels.r, levels.b);
        for t in 0..6 {
            if s != t {
                assert_ne!(sector_levels(s), sector_levels(t));
            }
        }
    }
}

#[test]
fn primaries_have_full_chroma_where_their_sectors_begin() {
    assert_eq!(sector_levels(0).unwrap().r, ChannelLevel::Chroma);
    assert_eq!(sector_levels(2).unwrap().g, ChannelLevel::Chroma);
    assert_eq!(sector_levels(4).unwrap().b, ChannelLevel::Chroma);
}

#[test]
fn slice_layout_by_length() {
    assert_eq!(slice_layout(0), None);
    assert_eq!(slice_layout(1), None);
    assert_eq!(slice_layout(2), None);
    assert_eq!(slice_layout(3), Some(SliceLayout::Rgb));
    assert_eq!(slice_layout(4), Some(SliceLayout::Rgba));
    assert_eq!(slice_layout(5), Some(SliceLayout::Rgba));
    assert_eq!(slice_layout(usize::MAX), Some(SliceLayout::Rgba));
}
