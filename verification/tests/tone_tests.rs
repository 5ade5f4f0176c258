use weekend_raytracer::color::Color;
use weekend_raytracer::tone::simple_gamma_correction;
use weekend_raytracer::tone::simple_gamma_on_component;

#[test]
fn gamma_keeps_the_range_ends() {
    assert_eq!(0, simple_gamma_on_component(0));
    assert_eq!(255, simple_gamma_on_component(255));
}

#[test]
fn gamma_brightens_midtones() {
    assert_eq!(16, simple_gamma_on_component(1));
    assert_eq!(57, simple_gamma_on_component(13));
    assert_eq!(128, simple_gamma_on_component(64));
    assert_eq!(160, simple_gamma_on_component(100));
    assert_eq!(181, simple_gamma_on_component(128));
    assert_eq!(226, simple_gamma_on_component(200));
    assert_eq!(255, simple_gamma_on_component(254));
}

#[test]
fn gamma_corrects_each_channel() {
    let c = simple_gamma_correction(Color::new(64, 0, 255));

    assert_eq!(Color::new(128, 0, 255), c);
}
