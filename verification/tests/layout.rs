use tachyon::layout::{centered_rect, screen_areas, Area};

fn share(whole: u16, percent: u16) -> u16 {
    ((u32::from(whole) * u32::from(percent) + 50) / 100) as u16
}

fn centre(percent: u16, whole: u16) -> (u16, u16) {
    let side = (100 - percent) / 2;
    let from = share(whole, side);
    (from, share(whole, side + percent) - from)
}

#[test]
fn screens_with_room_are_cut_exactly() {
    for height in 4..400u16 {
        for y in [0u16, 7] {
            let screen = Area { x: 2, y, width: 9, height };
            assert_eq!(
                screen_areas(screen),
                vec![
                    Area { x: 2, y, width: 9, height: 3 },
                    Area { x: 2, y: y + 3, width: 9, height: height - 4 },
                    Area { x: 2, y: y + height - 1, width: 9, height: 1 },
                ]
            );
        }
    }
}

#[test]
fn screens_without_room_are_cut_in_order() {
    for height in 0..4u16 {
        let areas = screen_areas(Area { x: 0, y: 5, width: 9, height });
        assert_eq!(areas.len(), 3);
        assert!(areas[0].y >= 5);
        assert!(areas[0].y + areas[0].height <= areas[1].y);
        assert!(areas[1].y + areas[1].height <= areas[2].y);
        assert!(areas[2].y + areas[2].height <= 5 + height);
    }
}

#[test]
fn centred_areas_end_at_the_nearest_cells() {
    for percent in 0..=100u16 {
        for size in [0u16, 1, 2, 3, 5, 10, 24, 25, 37, 80, 99, 200, 333] {
            let r = Area { x: 3, y: 11, width: size, height: size + 1 };
            let (left, width) = centre(percent, r.width);
            let (top, height) = centre(100 - percent, r.height);
            assert_eq!(
                centered_rect(percent, 100 - percent, r),
                Area { x: 3 + left, y: 11 + top, width, height }
            );
        }
    }
}

#[test]
fn popups_of_every_size_are_centred() {
    for size in 0..400u16 {
        let r = Area { x: 0, y: 0, width: size, height: 400 - size };
        let area = centered_rect(80, 80, r);
        let (left, width) = centre(80, r.width);
        let (top, height) = centre(80, r.height);
        assert_eq!(area, Area { x: left, y: top, width, height });
        let right = r.width - left - width;
        let bottom = r.height - top - height;
        assert!(left.abs_diff(right) <= 1);
        assert!(top.abs_diff(bottom) <= 1);
    }
}

#[test]
fn areas_at_the_far_end_of_the_coordinates_are_cut_exactly() {
    let screen = Area { x: 0, y: u16::MAX - 100, width: u16::MAX, height: 100 };
    assert_eq!(screen_areas(screen)[1].height, 96);
    let (left, width) = centre(80, u16::MAX);
    assert_eq!(
        centered_rect(80, 80, screen),
        Area { x: left, y: u16::MAX - 90, width, height: 80 }
    );
}

#[test]
fn areas_beyond_the_coordinates_are_cut_as_far_as_they_reach() {
    for reach in [0u16, 1, 4, 7, 50, 333] {
        for beyond in [1u16, 9, 40_000] {
            let r = Area {
                x: u16::MAX - reach,
                y: u16::MAX - reach,
                width: reach + beyond,
                height: reach + beyond,
            };
            for percent in [0u16, 33, 80, 100] {
                let (from, size) = centre(percent, reach);
                assert_eq!(
                    centered_rect(percent, percent, r),
                    Area { x: r.x + from, y: r.y + from, width: size, height: size }
                );
            }
            if reach >= 4 {
                assert_eq!(
                    screen_areas(r),
                    vec![
                        Area { height: 3, ..r },
                        Area { y: r.y + 3, height: reach - 4, ..r },
                        Area { y: u16::MAX - 1, height: 1, ..r },
                    ]
                );
            }
        }
    }
}
