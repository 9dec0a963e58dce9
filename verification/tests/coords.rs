use snake_game::draw::to_coord_u32;

#[test]
fn grid_to_pixel_scales_by_block_size() {
    assert_eq!(to_coord_u32(0), 0);
    assert_eq!(to_coord_u32(1), 25);
    assert_eq!(to_coord_u32(2), 50);
    assert_eq!(to_coord_u32(29), 725);
}

#[test]
fn grid_to_pixel_clamps_to_the_u32_range() {
    assert_eq!(to_coord_u32(-1), 0);
    assert_eq!(to_coord_u32(-100), 0);
    assert_eq!(to_coord_u32(i32::MAX), u32::MAX);
}
