use iced_blocks::frame::{Alignment, ContentFit};
use iced_blocks::placement::{uv_transform, Ratio, UvTransform};

fn value(r: Ratio) -> f64 {
    r.num as f64 / r.den as f64
}

fn values(t: UvTransform) -> [f64; 4] {
    [value(t.scale_x), value(t.scale_y), value(t.offset_x), value(t.offset_y)]
}

#[test]
fn contain_letterboxes_a_wide_frame() {
    // A 200×100 frame in a 100×100 widget: full width, half height.
    let t = uv_transform(200, 100, 100, 100, ContentFit::Contain, Alignment::Center);
    assert_eq!(values(t), [1.0, 2.0, 0.0, -0.5]);
    let top = uv_transform(200, 100, 100, 100, ContentFit::Contain, Alignment::TopLeft);
    assert_eq!(values(top), [1.0, 2.0, 0.0, 0.0]);
    let bottom = uv_transform(200, 100, 100, 100, ContentFit::Contain, Alignment::BottomRight);
    assert_eq!(values(bottom), [1.0, 2.0, 0.0, -1.0]);
}

#[test]
fn contain_pillarboxes_a_tall_frame() {
    let t = uv_transform(100, 200, 100, 100, ContentFit::Contain, Alignment::Center);
    assert_eq!(values(t), [2.0, 1.0, -0.5, 0.0]);
}

#[test]
fn cover_crops_a_wide_frame() {
    // A 200×100 frame covering a 100×100 widget shows its middle half.
    let t = uv_transform(200, 100, 100, 100, ContentFit::Cover, Alignment::Center);
    assert_eq!(values(t), [0.5, 1.0, 0.25, 0.0]);
    let right = uv_transform(200, 100, 100, 100, ContentFit::Cover, Alignment::CenterRight);
    assert_eq!(values(right), [0.5, 1.0, 0.5, 0.0]);
}

#[test]
fn fill_fit_and_unscaled() {
    let fill = uv_transform(640, 480, 100, 50, ContentFit::Fill, Alignment::Center);
    assert_eq!(values(fill), [1.0, 1.0, 0.0, 0.0]);
    let fw = uv_transform(200, 100, 100, 100, ContentFit::FitWidth, Alignment::TopLeft);
    assert_eq!(values(fw), [1.0, 2.0, 0.0, 0.0]);
    let fh = uv_transform(200, 100, 100, 100, ContentFit::FitHeight, Alignment::TopLeft);
    assert_eq!(values(fh), [0.5, 1.0, 0.0, 0.0]);
    let none = uv_transform(400, 200, 100, 100, ContentFit::Unscaled, Alignment::TopLeft);
    assert_eq!(values(none), [0.25, 0.5, 0.0, 0.0]);
}

#[test]
fn zero_sizes_count_as_one_pixel() {
    let t = uv_transform(0, 0, 0, 0, ContentFit::Unscaled, Alignment::Center);
    assert_eq!(values(t), [1.0, 1.0, 0.0, 0.0]);
    let big = uv_transform(u32::MAX, 1, 1, u32::MAX, ContentFit::Contain, Alignment::Center);
    assert!(value(big.scale_x) >= 1.0 && value(big.scale_y) >= 1.0);
}
