use hello_vulkan::frame::Color;
use hello_vulkan::frame::Triangle;
use hello_vulkan::frame::check_frame;
use hello_vulkan::frame::clear_color;
use hello_vulkan::frame::demo_triangle;
use hello_vulkan::frame::expected_pixel;
use hello_vulkan::frame::fill_color;
use hello_vulkan::frame::offscreen_target;
use hello_vulkan::frame::render_frame;
use hello_vulkan::surface::ImageFormat;

const BLUE: Color = Color { r: 0, g: 0, b: 255, a: 255 };
const RED: Color = Color { r: 255, g: 0, b: 0, a: 255 };

#[test]
fn the_configured_colors() {
    assert_eq!(clear_color(), BLUE);
    assert_eq!(fill_color(), RED);
}

#[test]
fn offscreen_target_is_1024_rgba() {
    let target = offscreen_target();
    assert_eq!(target.extent.width, 1024);
    assert_eq!(target.extent.height, 1024);
    assert_eq!(target.format, ImageFormat::R8G8B8A8Unorm);
}

#[test]
fn tiny_frame_exact_bytes() {
    // Covers only the centre of pixel (0, 0); the centres of the other three
    // pixels lie on an edge or outside.
    let t = Triangle { ax: 0, ay: 0, bx: 4, by: 0, cx: 0, cy: 4 };
    let buf = render_frame(&t, 2, 2);
    assert_eq!(
        buf,
        vec![
            255, 0, 0, 255, // pixel (0, 0): inside, red
            0, 0, 255, 255, // pixel (1, 0): centre on an edge, clear
            0, 0, 255, 255, // pixel (0, 1): centre on an edge, clear
            0, 0, 255, 255, // pixel (1, 1): outside, clear
        ]
    );
}

#[test]
fn centre_on_edge_is_not_filled() {
    let t = Triangle { ax: 0, ay: 0, bx: 4, by: 0, cx: 0, cy: 4 };
    assert_eq!(expected_pixel(&t, 1, 0), BLUE);
    assert_eq!(expected_pixel(&t, 0, 1), BLUE);
    assert_eq!(expected_pixel(&t, 0, 0), RED);
}

#[test]
fn winding_does_not_matter() {
    let ccw = Triangle { ax: 0, ay: 0, bx: 4, by: 0, cx: 0, cy: 4 };
    let cw = Triangle { ax: 0, ay: 0, bx: 0, by: 4, cx: 4, cy: 0 };
    assert_eq!(render_frame(&ccw, 2, 2), render_frame(&cw, 2, 2));
}

#[test]
fn demo_frame_is_blue_outside_and_red_inside() {
    let t = demo_triangle();
    assert!(t.is_wf());
    let buf = render_frame(&t, 1024, 1024);
    assert_eq!(buf.len(), 1024 * 1024 * 4);

    let pixel = |x: usize, y: usize| {
        let i = (y * 1024 + x) * 4;
        [buf[i], buf[i + 1], buf[i + 2], buf[i + 3]]
    };
    // Near the triangle's centroid: red.
    assert_eq!(pixel(511, 468), [255, 0, 0, 255]);
    // The corners: clear blue.
    assert_eq!(pixel(0, 0), [0, 0, 255, 255]);
    assert_eq!(pixel(1023, 0), [0, 0, 255, 255]);
    assert_eq!(pixel(0, 1023), [0, 0, 255, 255]);
    assert_eq!(pixel(1023, 1023), [0, 0, 255, 255]);
    // Just outside the first vertex: blue.
    assert_eq!(pixel(200, 200), [0, 0, 255, 255]);
}

#[test]
fn check_frame_accepts_the_rendered_frame() {
    let t = demo_triangle();
    let buf = render_frame(&t, 1024, 1024);
    assert!(check_frame(&buf, &t, 1024, 1024));
}

#[test]
fn check_frame_rejects_a_flipped_byte() {
    let t = demo_triangle();
    let mut buf = render_frame(&t, 64, 64);
    assert!(check_frame(&buf, &t, 64, 64));
    buf[5] = buf[5].wrapping_add(1);
    assert!(!check_frame(&buf, &t, 64, 64));
}

#[test]
fn check_frame_rejects_the_wrong_length() {
    let t = demo_triangle();
    let mut buf = render_frame(&t, 64, 64);
    buf.pop();
    assert!(!check_frame(&buf, &t, 64, 64));
    assert!(!check_frame(&Vec::new(), &t, 64, 64));
}

#[test]
fn coordinate_bounds_are_checked() {
    let t = Triangle { ax: 0, ay: 0, bx: 4, by: 0, cx: 0, cy: 4 };
    assert!(t.is_wf());
    let far = Triangle { ax: 2000000, ay: 0, bx: 4, by: 0, cx: 0, cy: 4 };
    assert!(!far.is_wf());
}
