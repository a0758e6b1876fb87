use launchpad_pro_rs::hal::color::convert_to_6_bit;
use launchpad_pro_rs::hal::surface::Pads;
use launchpad_pro_rs::hal::{Blue, Green, Grid, Point, Red, Rgb};
use std::ops::Add;

#[test]
fn adc_offset_calculation() {
    assert_eq!(Pads::point_to_offset(Point::new(0, 0)), None);
    assert_eq!(Pads::point_to_offset(Point::new(1, 1)), Some(0));
    assert_eq!(Pads::point_to_offset(Point::new(2, 2)), Some(18));
    assert_eq!(Pads::point_to_offset(Point::new(3, 3)), Some(36));
    assert_eq!(Pads::point_to_offset(Point::new(4, 4)), Some(54));
    assert_eq!(Pads::point_to_offset(Point::new(5, 5)), Some(9));
    assert_eq!(Pads::point_to_offset(Point::new(6, 6)), Some(27));
    assert_eq!(Pads::point_to_offset(Point::new(7, 7)), Some(45));
    assert_eq!(Pads::point_to_offset(Point::new(8, 8)), Some(63));
    assert_eq!(Pads::point_to_offset(Point::new(9, 9)), None);
    assert_eq!(Pads::point_to_offset(Point::new(8, 1)), Some(14));
    assert_eq!(Pads::point_to_offset(Point::new(4, 3)), Some(38));
    assert_eq!(Pads::point_to_offset(Point::new(3, 6)), Some(21));
    assert_eq!(Pads::point_to_offset(Point::new(1, 8)), Some(49));
    assert_eq!(Pads::point_to_offset(Point::new(4, 4)), Some(54));
    assert_eq!(Pads::point_to_offset(Point::new(5, 5)), Some(9));
    assert_eq!(Pads::point_to_offset(Point::new(11, 11)), Some(0));
    assert_eq!(Pads::point_to_offset(Point::new(7, 5)), Some(13));
    assert_eq!(Pads::point_to_offset(Point::new(8, 8)), Some(63));
    assert_eq!(Pads::point_to_offset(Point::new(10, 10)), None);
    assert_eq!(Pads::point_to_offset(Point::from_index(11)), Some(0));
    assert_eq!(Pads::point_to_offset(Point::from_index(51)), Some(1));
    assert_eq!(Pads::point_to_offset(Point::from_index(12)), Some(2));
    assert_eq!(Pads::point_to_offset(Point::from_index(52)), Some(3));
    assert_eq!(Pads::point_to_offset(Point::from_index(0)), None);
}

#[test]
fn read_adc_value() {
    let mut values = [0u16; 64];
    let pads = Pads::new(values);

    assert_eq!(pads.read(Point::new(0, 0)), None);

    values[16] = 7;
    let pads = Pads::new(values);
    assert_eq!(pads.read(Point::new(1, 2)), Some(7));

    values[16] = 34;
    let pads = Pads::new(values);
    assert_eq!(pads.read(Point::new(1, 2)), Some(34));
}

#[test]
fn can_construct_point() {
    let p = Point::new(7, 3);
    assert_eq!(p.x(), 7);
    assert_eq!(p.y(), 3);
    assert_eq!(p.to_index(), 37);
}

#[test]
fn points_are_wrapped() {
    let p = Point::new(-1, -1);
    assert_eq!(p.x(), 9);
    assert_eq!(p.y(), 9);
    assert_eq!(p.to_index(), 99);
}

#[test]
fn can_construct_point_from_index() {
    let p = Point::from_index(42);
    assert_eq!(p.x(), 2);
    assert_eq!(p.y(), 4);
}

#[test]
fn can_add_points() {
    let p = Point::new(0, 0).add(Point::new(-1, -1));
    assert_eq!(p.x(), 9);
    assert_eq!(p.y(), 9);
    assert_eq!(p.to_index(), 99);
}

#[test]
fn can_iterate_over_all_grid_points() {
    assert_eq!(Grid::points().into_iter().count(), Grid::size() as usize);

    let mut points = Grid::points().into_iter();
    assert_eq!(points.next().unwrap(), Point::new(0, 0));
    assert_eq!(points.next().unwrap(), Point::new(1, 0));
    assert_eq!(points.next().unwrap(), Point::new(2, 0));
    assert_eq!(points.next().unwrap(), Point::new(3, 0));
    assert_eq!(points.next().unwrap(), Point::new(4, 0));
    assert_eq!(points.next().unwrap(), Point::new(5, 0));
    assert_eq!(points.next().unwrap(), Point::new(6, 0));
    assert_eq!(points.next().unwrap(), Point::new(7, 0));
    assert_eq!(points.next().unwrap(), Point::new(8, 0));
    assert_eq!(points.next().unwrap(), Point::new(9, 0));
    assert_eq!(points.next().unwrap(), Point::new(0, 1));
    assert_eq!(points.next().unwrap(), Point::new(1, 1));
    // ... and so on
}

#[test]
fn colors_get_converted_to_18_bit() {
    let (red, green, blue) = Rgb::new(Red::new(255), Green::new(127), Blue::new(63)).components();
    assert_eq!(red, 63);
    assert_eq!(green, 31);
    assert_eq!(blue, 15);
}

#[test]
fn wrapping_is_closed_and_periodic() {
    for x in i8::MIN..=i8::MAX {
        for y in [i8::MIN, -11, -10, -1, 0, 1, 9, 10, 11, 117, i8::MAX] {
            let p = Point::new(x, y);
            assert!((0..10).contains(&p.x()));
            assert!((0..10).contains(&p.y()));
            assert_eq!(p.x() as i32, (x as i32).rem_euclid(10));
            assert_eq!(p.y() as i32, (y as i32).rem_euclid(10));
            if x <= i8::MAX - 10 {
                assert_eq!(Point::new(x + 10, y), p);
            }
            if y <= i8::MAX - 10 {
                assert_eq!(Point::new(x, y + 10), p);
            }
        }
    }
    assert_eq!(Point::new(10, 10), Point::new(0, 0));
    assert_eq!(Point::new(-128, 127), Point::new(2, 7));
}

#[test]
fn index_round_trip() {
    for i in 0..100u8 {
        let p = Point::from_index(i);
        assert_eq!(p.x(), (i % 10) as i8);
        assert_eq!(p.y(), (i / 10) as i8);
        assert_eq!(p.to_index(), i);
        assert_eq!(Point::new(p.x(), p.y()), p);
    }
}

#[test]
fn indices_past_the_grid_wrap() {
    assert_eq!(Point::from_index(55), Point::new(5, 5));
    assert_eq!(Point::from_index(100), Point::new(0, 0));
    assert_eq!(Point::from_index(137), Point::new(7, 3));
    assert_eq!(Point::from_index(255), Point::new(5, 5));
    assert_eq!(Point::new(10, 10).to_index(), 0);
}

#[test]
fn addition_wraps() {
    assert_eq!(Point::new(9, 9) + Point::new(1, 1), Point::new(0, 0));
    assert_eq!(Point::new(9, 9) + Point::new(9, 9), Point::new(8, 8));
    assert_eq!(Point::new(3, 4) + Point::new(2, 1), Point::new(5, 5));
    assert_eq!(Point::new(0, 5) + Point::new(-1, 0), Point::new(9, 5));
    assert_eq!(Point::new(5, 0) + Point::new(0, -1), Point::new(5, 9));
}

#[test]
fn grid_is_ten_by_ten() {
    assert_eq!(Grid::width(), 10);
    assert_eq!(Grid::height(), 10);
    assert_eq!(Grid::size(), 100);
}

#[test]
fn enumeration_is_complete_distinct_and_row_major() {
    let points = Grid::points();
    assert_eq!(points.len(), 100);
    for (i, p) in points.iter().enumerate() {
        assert_eq!(p.x() as usize, i % 10);
        assert_eq!(p.y() as usize, i / 10);
        assert_eq!(p.to_index() as usize, i);
    }
    for i in 0..100 {
        for j in 0..i {
            assert_ne!(points[i], points[j]);
        }
    }
    // restartable: a second enumeration is the same
    assert_eq!(Grid::points(), points);
}

#[test]
fn six_bit_conversion() {
    assert_eq!(convert_to_6_bit(0), 0);
    assert_eq!(convert_to_6_bit(1), 0);
    assert_eq!(convert_to_6_bit(4), 0);
    assert_eq!(convert_to_6_bit(5), 1);
    assert_eq!(convert_to_6_bit(63), 15);
    assert_eq!(convert_to_6_bit(127), 31);
    assert_eq!(convert_to_6_bit(128), 31);
    assert_eq!(convert_to_6_bit(254), 62);
    assert_eq!(convert_to_6_bit(255), 63);
    assert_eq!(Red::new(255).value(), 63);
    assert_eq!(Green::new(127).value(), 31);
    assert_eq!(Blue::new(63).value(), 15);
}

#[test]
fn named_colours() {
    assert_eq!(Rgb::red().components(), (63, 0, 0));
    assert_eq!(Rgb::green().components(), (0, 63, 0));
    assert_eq!(Rgb::blue().components(), (0, 0, 63));
    assert_eq!(Rgb::yellow().components(), (63, 63, 0));
    assert_eq!(Rgb::cyan().components(), (0, 63, 63));
    assert_eq!(Rgb::magenta().components(), (63, 0, 63));
    assert_eq!(Rgb::white().components(), (63, 63, 63));
    assert_eq!(Rgb::black().components(), (0, 0, 0));
    assert_eq!(Rgb::red(), Rgb::new(Red::new(255), Green::new(0), Blue::new(0)));
}

#[test]
fn raw_colours_must_fit_in_six_bits() {
    assert_eq!(Rgb::from_components(63, 0, 17).map(|c| c.components()), Some((63, 0, 17)));
    assert_eq!(Rgb::from_components(0, 0, 0), Some(Rgb::black()));
    assert_eq!(Rgb::from_components(64, 0, 0), None);
    assert_eq!(Rgb::from_components(0, 64, 0), None);
    assert_eq!(Rgb::from_components(0, 0, 255), None);
}

#[test]
fn pads_fill_the_inner_eight_by_eight() {
    let mut adc = [0u16; 64];
    for (offset, value) in adc.iter_mut().enumerate() {
        *value = 1000 + offset as u16;
    }
    let pads = Pads::new(adc);
    let mut seen = [false; 64];
    for point in Grid::points() {
        let inner = (1..=8).contains(&point.x()) && (1..=8).contains(&point.y());
        match Pads::point_to_offset(point) {
            Some(offset) => {
                assert!(inner);
                let row = if point.y() <= 4 { point.y() - 1 } else { point.y() - 5 } as usize;
                let odd = if point.y() <= 4 { 0 } else { 1 };
                assert_eq!(offset, (point.x() as usize - 1) * 2 + row * 16 + odd);
                assert!(!seen[offset]);
                seen[offset] = true;
                assert_eq!(pads.read(point), Some(1000 + offset as u16));
            }
            None => {
                assert!(!inner);
                assert_eq!(pads.read(point), None);
            }
        }
    }
    assert!(seen.iter().all(|&s| s));
}
