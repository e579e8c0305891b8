//! Tests of the viewport engine: fitting, centering, zooming, panning.

use foxfire::rat::Frac;
use foxfire::transform::ImageTransformation;
use foxfire::types::Vec2D;

fn int_vec(x: i64, y: i64) -> Vec2D {
    Vec2D::from(Frac::from_int(x), Frac::from_int(y))
}

/// Image 800x600 in a 640x520 container with an 80-pixel reserved band:
/// the usable area is 640x440, the image is relatively taller, so the
/// heights match: scale 440/600, offset (80/3, 0).
#[test]
fn fit_heights_match_concrete() {
    let t = ImageTransformation::fit(
        &int_vec(800, 600),
        &int_vec(640, 520),
        &Frac::from_int(80),
    )
    .unwrap();
    assert!(t.get_scale().eq_rat(&Frac::new(440, 600)));
    assert!(t.get_scale().eq_rat(&Frac::new(11, 15)));
    let off = t.get_offset();
    assert!(off.x.eq_rat(&Frac::new(80, 3)));
    assert!(off.y.eq_rat(&Frac::from_int(0)));
    // the scaled height fills the usable height exactly
    let scaled_h = Frac::from_int(600).mul(&t.get_scale()).unwrap();
    assert!(scaled_h.eq_rat(&Frac::from_int(440)));
    // the scaled width plus twice the offset fills the width exactly
    let scaled_w = Frac::from_int(800).mul(&t.get_scale()).unwrap();
    let span = off.x.add(&scaled_w).unwrap().add(&off.x).unwrap();
    assert!(span.eq_rat(&Frac::from_int(640)));
}

/// A wide strip in the same container: the widths match and the strip
/// is centred vertically.
#[test]
fn fit_widths_match() {
    let t = ImageTransformation::fit(
        &int_vec(800, 100),
        &int_vec(640, 520),
        &Frac::from_int(80),
    )
    .unwrap();
    assert!(t.get_scale().eq_rat(&Frac::new(640, 800)));
    let off = t.get_offset();
    assert!(off.x.eq_rat(&Frac::from_int(0)));
    // (440 - 100 * 0.8) / 2 = 180
    assert!(off.y.eq_rat(&Frac::from_int(180)));
}

/// A tiny image would need a letterbox scale of 440, far above the
/// band: the scale change is discarded (kept at one), the centering
/// offset still applies.
#[test]
fn fit_out_of_band_scale_is_discarded() {
    let t = ImageTransformation::fit(
        &int_vec(1, 1),
        &int_vec(640, 520),
        &Frac::from_int(80),
    )
    .unwrap();
    assert!(t.get_scale().eq_rat(&Frac::from_int(1)));
    let off = t.get_offset();
    // 640/2 - (1 * 440)/2 = 100
    assert!(off.x.eq_rat(&Frac::from_int(100)));
    assert!(off.y.eq_rat(&Frac::from_int(0)));
}

/// Recenter and real-size share one meaning: scale one, image centre on
/// the usable-area centre.
#[test]
fn recenter_and_real_size() {
    let image = int_vec(800, 600);
    let container = int_vec(640, 520);
    let band = Frac::from_int(80);
    let t = ImageTransformation::recenter(&image, &container, &band).unwrap();
    assert!(t.get_scale().eq_rat(&Frac::from_int(1)));
    let off = t.get_offset();
    assert!(off.x.eq_rat(&Frac::from_int(-80)));
    assert!(off.y.eq_rat(&Frac::from_int(-80)));
    let r = ImageTransformation::real_size(&image, &container, &band).unwrap();
    assert!(r.get_scale().eq_rat(&Frac::from_int(1)));
    assert!(r.get_offset().x.eq_rat(&off.x));
    assert!(r.get_offset().y.eq_rat(&off.y));
}

/// The wheel scenario: magnitude -500 at the usable-area centre doubles
/// the scale and keeps the image point under the cursor fixed.
#[test]
fn cursor_anchored_zoom_doubles_scale() {
    let mut t = ImageTransformation::fit(
        &int_vec(800, 600),
        &int_vec(640, 520),
        &Frac::from_int(80),
    )
    .unwrap();
    let cursor = int_vec(320, 220);
    // the image point under the cursor before the zoom
    let pre = t.screen_to_image(&cursor).unwrap();
    let old_scale = t.get_scale();
    let applied = t.apply_cursor_anchored_zoom(&Frac::from_int(-500), &cursor);
    assert!(applied);
    // the scale doubled: 440/600 * 2 = 22/15
    let doubled = old_scale.mul(&Frac::from_int(2)).unwrap();
    assert!(t.get_scale().eq_rat(&doubled));
    assert!(t.get_scale().eq_rat(&Frac::new(22, 15)));
    // the same image point still sits exactly under the cursor
    let now = t.image_to_screen(&pre).unwrap();
    assert!(now.x.eq_rat(&cursor.x));
    assert!(now.y.eq_rat(&cursor.y));
}

/// The anchor also holds at an off-centre cursor and a fractional
/// magnitude.
#[test]
fn cursor_anchored_zoom_off_centre() {
    let mut t = ImageTransformation::fit(
        &int_vec(800, 600),
        &int_vec(640, 520),
        &Frac::from_int(80),
    )
    .unwrap();
    let cursor = int_vec(100, 50);
    let pre = t.screen_to_image(&cursor).unwrap();
    // magnitude -250 gives the factor 1 + 250/500 = 3/2
    let applied = t.apply_cursor_anchored_zoom(&Frac::from_int(-250), &cursor);
    assert!(applied);
    assert!(t.get_scale().eq_rat(&Frac::new(11, 10)));
    let now = t.image_to_screen(&pre).unwrap();
    assert!(now.x.eq_rat(&cursor.x));
    assert!(now.y.eq_rat(&cursor.y));
}

/// A zoom that would leave the band is a silent no-op: the scale is not
/// clamped and the offset does not drift.
#[test]
fn cursor_anchored_zoom_out_of_band_is_noop() {
    let mut t = ImageTransformation::new();
    t.set_scale(Frac::from_int(80));
    t.set_offset(int_vec(5, 7));
    // factor 2 would give 160, above the ceiling
    let applied = t.apply_cursor_anchored_zoom(&Frac::from_int(-500), &int_vec(10, 10));
    assert!(!applied);
    assert!(t.get_scale().eq_rat(&Frac::from_int(80)));
    assert!(t.get_offset().x.eq_rat(&Frac::from_int(5)));
    assert!(t.get_offset().y.eq_rat(&Frac::from_int(7)));
    // zooming out from the floor is also discarded: 1/100 * 1/2 is below
    let mut low = ImageTransformation::new();
    low.set_scale(Frac::new(1, 100));
    // magnitude 250 gives the factor 1 - 250/500 = 1/2
    let applied_low = low.apply_cursor_anchored_zoom(&Frac::from_int(250), &int_vec(0, 0));
    assert!(!applied_low);
    assert!(low.get_scale().eq_rat(&Frac::new(1, 100)));
}

/// The toolbar zoom step multiplies the scale by the step factor and
/// keeps the usable-area centre fixed.
#[test]
fn zoom_step_anchors_usable_centre() {
    let image = int_vec(800, 600);
    let container = int_vec(640, 520);
    let band = Frac::from_int(80);
    let mut t = ImageTransformation::fit(&image, &container, &band).unwrap();
    let centre = int_vec(320, 220);
    let pre = t.screen_to_image(&centre).unwrap();
    let applied = t.zoom_step(&container, &band, &Frac::new(5, 4));
    assert!(applied);
    // 11/15 * 5/4 = 11/12
    assert!(t.get_scale().eq_rat(&Frac::new(11, 12)));
    let now = t.image_to_screen(&pre).unwrap();
    assert!(now.x.eq_rat(&centre.x));
    assert!(now.y.eq_rat(&centre.y));
}

/// A zoom step that would leave the band changes nothing at all.
#[test]
fn zoom_step_out_of_band_is_noop() {
    let container = int_vec(640, 520);
    let band = Frac::from_int(80);
    let mut t = ImageTransformation::new();
    t.set_scale(Frac::from_int(90));
    t.set_offset(int_vec(3, 4));
    let applied = t.zoom_step(&container, &band, &Frac::new(5, 4));
    assert!(!applied);
    assert!(t.get_scale().eq_rat(&Frac::from_int(90)));
    assert!(t.get_offset().x.eq_rat(&Frac::from_int(3)));
    assert!(t.get_offset().y.eq_rat(&Frac::from_int(4)));
}

/// Panning adds the screen delta to the offset one-to-one, whatever the
/// scale.
#[test]
fn apply_pan_is_screen_one_to_one() {
    let mut t = ImageTransformation::new();
    t.set_scale(Frac::new(1, 2));
    t.set_offset(int_vec(10, 20));
    let applied = t.apply_pan(&int_vec(-3, 8));
    assert!(applied);
    assert!(t.get_offset().x.eq_rat(&Frac::from_int(7)));
    assert!(t.get_offset().y.eq_rat(&Frac::from_int(28)));
    assert!(t.get_scale().eq_rat(&Frac::new(1, 2)));
}

/// The destination rectangle for a frame places the image's origin at
/// the effective offset and its far corner at offset plus the scaled
/// size.
#[test]
fn destination_rect_concrete() {
    let t = ImageTransformation::fit(
        &int_vec(800, 600),
        &int_vec(640, 520),
        &Frac::from_int(80),
    )
    .unwrap();
    let off = t.get_offset();
    let (origin, corner) = t
        .destination_rect(&int_vec(800, 600), &off)
        .unwrap();
    assert!(origin.x.eq_rat(&Frac::new(80, 3)));
    assert!(origin.y.eq_rat(&Frac::from_int(0)));
    // 80/3 + 800 * 11/15 = 640 - 80/3
    assert!(corner.x.eq_rat(&Frac::new(1840, 3)));
    assert!(corner.y.eq_rat(&Frac::from_int(440)));
}

/// Mapping a point into screen space and back is the identity.
#[test]
fn screen_image_round_trip() {
    let mut t = ImageTransformation::new();
    t.set_scale(Frac::new(11, 15));
    t.set_offset(int_vec(26, 0));
    let p = int_vec(123, 45);
    let q = t.image_to_screen(&p).unwrap();
    let back = t.screen_to_image(&q).unwrap();
    assert!(back.x.eq_rat(&p.x));
    assert!(back.y.eq_rat(&p.y));
}
