use ogc_engine::color::Color;
use ogc_engine::geometry::{clip, Point, Rectangle, Size};

#[test]
fn clip_keeps_a_fully_inside_rectangle() {
    let area = Rectangle::new(Point::new(10, 20), Size::new(30, 40));
    assert_eq!(clip(&area, 640, 528), Some((10, 20, 39, 59)));
}

#[test]
fn clip_trims_a_straddling_rectangle() {
    let area = Rectangle::new(Point::new(-5, -5), Size::new(20, 20));
    assert_eq!(clip(&area, 640, 528), Some((0, 0, 14, 14)));
    let area = Rectangle::new(Point::new(630, 520), Size::new(50, 50));
    assert_eq!(clip(&area, 640, 528), Some((630, 520, 639, 527)));
}

#[test]
fn clip_drops_a_rectangle_off_the_surface() {
    assert_eq!(
        clip(&Rectangle::new(Point::new(640, 0), Size::new(5, 5)), 640, 528),
        None
    );
    assert_eq!(
        clip(&Rectangle::new(Point::new(0, 528), Size::new(5, 5)), 640, 528),
        None
    );
    assert_eq!(
        clip(&Rectangle::new(Point::new(-10, -10), Size::new(5, 5)), 640, 528),
        None
    );
}

#[test]
fn clip_drops_an_empty_rectangle() {
    assert_eq!(
        clip(&Rectangle::new(Point::new(5, 5), Size::new(0, 10)), 640, 528),
        None
    );
    assert_eq!(
        clip(&Rectangle::new(Point::new(5, 5), Size::new(10, 0)), 640, 528),
        None
    );
}

#[test]
fn clip_survives_extreme_coordinates() {
    let area = Rectangle::new(Point::new(i32::MIN, i32::MIN), Size::new(u32::MAX, u32::MAX));
    assert_eq!(clip(&area, 640, 528), Some((0, 0, 639, 527)));
    let area = Rectangle::new(Point::new(i32::MAX, i32::MAX), Size::new(u32::MAX, u32::MAX));
    assert_eq!(clip(&area, 640, 528), None);
}

#[test]
fn rgb_implies_full_opacity() {
    let c = Color::rgb(10, 20, 30);
    assert_eq!(c, Color::new(10, 20, 30, 255));
}
