use iced_blocks::frame::{Alignment, ContentFit, FilterMode};
use iced_blocks::native_webview::{Content as NativeContent, WebViewConfig as NativeConfig};
use iced_blocks::skin::{AnimationMode, ArmVariant, BodyPart, Skin, Source};
use iced_blocks::uv::{
    body, body_layer, head, head_layer, left_arm, left_arm_layer, left_leg, left_leg_layer,
    right_arm, right_arm_layer, right_leg, right_leg_layer, CubeFaceUvs, FaceUv,
};
use iced_blocks::webview::{Content, IpcMessage, WebViewConfig};

#[test]
fn frame_defaults_and_names() {
    assert_eq!(ContentFit::default(), ContentFit::Fill);
    assert_eq!(Alignment::default(), Alignment::Center);
    assert_eq!(FilterMode::default(), FilterMode::Linear);
    assert_eq!(ContentFit::Unscaled.to_string(), "None");
    assert_eq!(ContentFit::FitWidth.to_string(), "FitWidth");
    assert_eq!(Alignment::BottomRight.to_string(), "BottomRight");
    assert_eq!(FilterMode::Nearest.to_string(), "Nearest");
}

#[test]
fn skin_handles() {
    let data = vec![1u8, 2, 3, 4];
    let s = Skin::create(data.clone());
    assert_eq!(s.raw(), &data[..]);
    let t = s.clone();
    assert!(s.eq(&t));
    assert!(!s.eq(&Skin::create(data.clone())));
    let src = Source::create(vec![9u8; 8]);
    assert_eq!(src.raw().len(), 8);
    assert!(src.eq(&src.clone()));
}

#[test]
fn enums_and_names() {
    assert_eq!(ArmVariant::default(), ArmVariant::Classic);
    assert_eq!(ArmVariant::Slim.to_string(), "Slim");
    assert_eq!(ArmVariant::Classic.arm_width(), 4);
    assert_eq!(ArmVariant::Slim.arm_width(), 3);
    assert_eq!(AnimationMode::default(), AnimationMode::Idle);
    assert_eq!(AnimationMode::Walk.to_string(), "Walk");
    assert!(BodyPart::HeadLayer.is_layer());
    assert!(BodyPart::LeftLegLayer.is_layer());
    assert!(!BodyPart::Head.is_layer());
    assert!(!BodyPart::RightArm.is_layer());
}

fn f(x0: u64, y0: u64, x1: u64, y1: u64) -> FaceUv {
    FaceUv { x0, y0, x1, y1 }
}

#[test]
fn head_layout() {
    let h = head();
    assert_eq!(
        h,
        CubeFaceUvs {
            right: f(0, 8, 8, 16),
            front: f(8, 8, 16, 16),
            left: f(16, 8, 24, 16),
            back: f(24, 8, 32, 16),
            top: f(8, 0, 16, 8),
            bottom: f(16, 0, 24, 8),
        }
    );
    assert_eq!(head_layer().front, f(40, 8, 48, 16));
}

#[test]
fn limb_layouts() {
    assert_eq!(body().front, f(20, 20, 28, 32));
    assert_eq!(body_layer().back, f(32, 36, 40, 48));
    assert_eq!(right_arm(4).front, f(44, 20, 48, 32));
    assert_eq!(right_arm(3).back, f(51, 20, 54, 32));
    assert_eq!(right_arm_layer(4).top, f(44, 32, 48, 36));
    assert_eq!(left_arm(4).left, f(40, 52, 44, 64));
    assert_eq!(left_arm_layer(3).bottom, f(55, 48, 58, 52));
    let m = u32::MAX as u64;
    assert_eq!(right_arm(u32::MAX).back, f(48 + m, 20, 48 + 2 * m, 32));
    assert_eq!(right_leg().front, f(4, 20, 8, 32));
    assert_eq!(right_leg_layer().right, f(0, 36, 4, 48));
    assert_eq!(left_leg().front, f(20, 52, 24, 64));
    assert_eq!(left_leg_layer().back, f(12, 52, 16, 64));
}

fn faces(c: &CubeFaceUvs) -> [FaceUv; 6] {
    [c.front, c.back, c.left, c.right, c.top, c.bottom]
}

#[test]
fn layout_fits_and_never_overlaps() {
    for a in [3u32, 4] {
        let cubes = [
            head(),
            head_layer(),
            body(),
            body_layer(),
            right_arm(a),
            right_arm_layer(a),
            left_arm(a),
            left_arm_layer(a),
            right_leg(),
            right_leg_layer(),
            left_leg(),
            left_leg_layer(),
        ];
        let all: Vec<FaceUv> = cubes.iter().flat_map(faces).collect();
        for (i, p) in all.iter().enumerate() {
            assert!(p.x1 <= 64 && p.y1 <= 64 && p.x0 < p.x1 && p.y0 < p.y1);
            for q in &all[i + 1..] {
                assert!(p.x1 <= q.x0 || q.x1 <= p.x0 || p.y1 <= q.y0 || q.y1 <= p.y0);
            }
        }
    }
}

#[test]
fn servo_content_initial_url() {
    let c = Content::default();
    assert_eq!(c.initial_url().as_deref(), Some("about:blank"));
    assert_eq!(Content::Url("https://x.org".into()).initial_url().as_deref(), Some("https://x.org/"));
    assert_eq!(Content::Url("nope".into()).initial_url(), None);
    assert_eq!(
        Content::Html("hi".into()).initial_url().as_deref(),
        Some("data:text/html;charset=utf-8,hi")
    );
    let cfg = WebViewConfig::default().html("x".into());
    assert!(matches!(cfg.content, Content::Html(ref h) if h == "x"));
    let cfg = cfg.url("https://y/".into());
    assert!(matches!(cfg.content, Content::Url(ref u) if u == "https://y/"));
    let m = IpcMessage { body: "ping".into() };
    assert_eq!(m.clone().body, "ping");
}

#[test]
fn native_config_builders() {
    let cfg = NativeConfig::default()
        .url("https://a/".into())
        .transparent(true)
        .devtools(true)
        .initialization_script("one()".into())
        .initialization_script("two()".into());
    assert!(cfg.transparent && cfg.devtools);
    assert_eq!(cfg.initialization_scripts, vec!["one()".to_string(), "two()".to_string()]);
    let mut cfg = cfg.html("<p/>".into());
    let p = cfg.take_build_params();
    assert!(matches!(p.content, NativeContent::Html(ref h) if h == "<p/>"));
    assert_eq!(p.scripts.len(), 2);
    assert!(p.transparent && p.devtools);
    assert!(matches!(cfg.content, NativeContent::Url(ref u) if u.is_empty()));
    assert!(cfg.initialization_scripts.is_empty());
}

use iced_blocks::skin::SkinUpload;

#[test]
fn skin_upload_generations() {
    let mut u = SkinUpload::new();
    assert_eq!(u.upload_for(0), None);
    u.set_skin(vec![1, 2, 3]);
    assert_eq!(u.generation, 1);
    assert_eq!(u.upload_for(0), Some(vec![1, 2, 3]));
    assert_eq!(u.upload_for(1), None);
    u.set_skin(vec![4]);
    assert_eq!(u.upload_for(1), Some(vec![4]));
}
