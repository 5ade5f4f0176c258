use weekend_raytracer::color;
use weekend_raytracer::color::Color;
use weekend_raytracer::decimal::u32_to_decimal;
use weekend_raytracer::ppm;
use weekend_raytracer::ppm::encode_pixels;

#[test]
fn test_test() {
    const EXPECTED: &str = "P3\n1 1\n255\n0 0 0\n";
    let ppm_string = ppm::get_file_content(1, 1, |_, _| color::Color::new(0, 0, 0));
    assert_eq!(EXPECTED, ppm_string);
}

#[test]
fn renders_decimals() {
    assert_eq!("0", u32_to_decimal(0));
    assert_eq!("7", u32_to_decimal(7));
    assert_eq!("10", u32_to_decimal(10));
    assert_eq!("255", u32_to_decimal(255));
    assert_eq!("1000", u32_to_decimal(1000));
    assert_eq!("4294967295", u32_to_decimal(4294967295));
}

#[test]
fn emits_rows_from_the_top() {
    let content = ppm::get_file_content(2, 2, |x, y| Color::new(x as u8, y as u8, 0));

    assert_eq!("P3\n2 2\n255\n0 1 0\n1 1 0\n0 0 0\n1 0 0\n", content);
}

#[test]
fn encodes_a_listed_grid() {
    let grid = vec![Color::new(1, 2, 3), Color::new(200, 100, 0)];
    let content = encode_pixels(2, 1, &grid);

    assert_eq!("P3\n2 1\n255\n1 2 3\n200 100 0\n", content);
}

#[test]
fn encodes_an_empty_image() {
    let grid: Vec<Color> = Vec::new();
    let content = encode_pixels(0, 0, &grid);

    assert_eq!("P3\n0 0\n255\n", content);
}
