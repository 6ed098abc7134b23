use cinicide::color::composite_pixel;
use cinicide::color::Rgba8;
use cinicide::raster::PixelBuffer;
use cinicide::target::compose;
use cinicide::target::RenderTarget;
use cinicide::target::RenderTargetError;
use cinicide::target::INTERNAL_HEIGHT;
use cinicide::target::INTERNAL_WIDTH;

const CLEAR: Rgba8 = Rgba8 { r: 0, g: 0, b: 0, a: 0 };
const BLACK: Rgba8 = Rgba8 { r: 0, g: 0, b: 0, a: 255 };
const RED: Rgba8 = Rgba8 { r: 255, g: 0, b: 0, a: 255 };
const GREEN: Rgba8 = Rgba8 { r: 0, g: 255, b: 0, a: 255 };
const BLUE: Rgba8 = Rgba8 { r: 0, g: 0, b: 255, a: 255 };
const HAZE: Rgba8 = Rgba8 { r: 200, g: 100, b: 50, a: 128 };

fn target(width: u32, height: u32, pixels: Vec<Rgba8>) -> RenderTarget {
    RenderTarget::from_pixels(PixelBuffer::new(width, height, pixels).unwrap(), true).unwrap()
}

#[test]
fn backgrounds() {
    assert_eq!(Rgba8::opaque_black(), BLACK);
    assert_eq!(Rgba8::transparent(), CLEAR);
}

#[test]
fn transparent_pixel_shows_what_is_beneath() {
    assert_eq!(CLEAR.over(RED), RED);
    assert_eq!(CLEAR.over(HAZE), HAZE);
    assert_eq!(Rgba8 { r: 9, g: 8, b: 7, a: 0 }.over(BLUE), BLUE);
}

#[test]
fn opaque_pixel_hides_what_is_beneath() {
    assert_eq!(RED.over(BLUE), RED);
    assert_eq!(GREEN.over(CLEAR), GREEN);
    assert_eq!(BLACK.over(HAZE), BLACK);
}

#[test]
fn half_covering_pixel_blends() {
    assert_eq!(HAZE.over(BLACK), Rgba8 { r: 100, g: 50, b: 25, a: 255 });
    assert_eq!(HAZE.over(CLEAR), Rgba8 { r: 100, g: 50, b: 25, a: 128 });
    assert_eq!(
        HAZE.over(Rgba8 { r: 255, g: 255, b: 255, a: 255 }),
        Rgba8 { r: 227, g: 177, b: 152, a: 255 }
    );
    assert_eq!(HAZE.over(HAZE), Rgba8 { r: 200, g: 100, b: 50, a: 191 });
}

#[test]
fn layers_composite_back_to_front() {
    assert_eq!(composite_pixel(BLUE, CLEAR, CLEAR), BLUE);
    assert_eq!(composite_pixel(BLUE, RED, CLEAR), RED);
    assert_eq!(composite_pixel(BLUE, CLEAR, GREEN), GREEN);
    assert_eq!(composite_pixel(BLUE, RED, GREEN), GREEN);
    assert_eq!(composite_pixel(BLACK, CLEAR, HAZE), Rgba8 { r: 100, g: 50, b: 25, a: 255 });
    assert_eq!(composite_pixel(BLACK, HAZE, CLEAR), Rgba8 { r: 100, g: 50, b: 25, a: 255 });
}

#[test]
fn buffer_needs_one_pixel_for_every_place() {
    assert!(PixelBuffer::new(2, 2, vec![RED; 4]).is_some());
    assert!(PixelBuffer::new(0, 5, vec![]).is_some());
    assert_eq!(PixelBuffer::new(2, 2, vec![RED; 3]), None);
    assert_eq!(PixelBuffer::new(2, 2, vec![RED; 5]), None);
    assert_eq!(PixelBuffer::new(0, 0, vec![RED]), None);
}

#[test]
fn buffer_is_read_row_by_row() {
    let buffer = PixelBuffer::new(3, 2, vec![RED, GREEN, BLUE, BLACK, CLEAR, HAZE]).unwrap();
    assert_eq!(buffer.width(), 3);
    assert_eq!(buffer.height(), 2);
    assert_eq!(buffer.pixel(0, 0), Some(RED));
    assert_eq!(buffer.pixel(2, 0), Some(BLUE));
    assert_eq!(buffer.pixel(0, 1), Some(BLACK));
    assert_eq!(buffer.pixel(2, 1), Some(HAZE));
    assert_eq!(buffer.pixel(3, 0), None);
    assert_eq!(buffer.pixel(0, 2), None);
}

#[test]
fn filled_buffer_and_fill() {
    let mut buffer = PixelBuffer::filled(4, 3, HAZE).unwrap();
    assert_eq!(buffer, PixelBuffer::new(4, 3, vec![HAZE; 12]).unwrap());
    buffer.fill(BLUE);
    assert_eq!(buffer, PixelBuffer::new(4, 3, vec![BLUE; 12]).unwrap());
    assert_eq!(PixelBuffer::filled(0, 9, RED), PixelBuffer::new(0, 9, vec![]));
}

#[test]
fn nearest_neighbour_sampling_doubles_pixels() {
    let buffer = PixelBuffer::new(2, 2, vec![RED, GREEN, BLUE, BLACK]).unwrap();
    let rows: Vec<Vec<Rgba8>> =
        (0..4).map(|y| (0..4).map(|x| buffer.sample(x, y, 4, 4).unwrap()).collect()).collect();
    assert_eq!(rows[0], vec![RED, RED, GREEN, GREEN]);
    assert_eq!(rows[1], vec![RED, RED, GREEN, GREEN]);
    assert_eq!(rows[2], vec![BLUE, BLUE, BLACK, BLACK]);
    assert_eq!(rows[3], vec![BLUE, BLUE, BLACK, BLACK]);
}

#[test]
fn nearest_neighbour_sampling_of_uneven_sizes() {
    let buffer = PixelBuffer::new(3, 1, vec![RED, GREEN, BLUE]).unwrap();
    let wide: Vec<Rgba8> = (0..5).map(|x| buffer.sample(x, 0, 5, 1).unwrap()).collect();
    assert_eq!(wide, vec![RED, RED, GREEN, GREEN, BLUE]);
    let narrow: Vec<Rgba8> = (0..2).map(|x| buffer.sample(x, 0, 2, 1).unwrap()).collect();
    assert_eq!(narrow, vec![RED, GREEN]);
    assert_eq!(buffer.sample(u32::MAX - 1, 0, u32::MAX, 1), Some(BLUE));
}

#[test]
fn nothing_is_sampled_outside_the_output() {
    let buffer = PixelBuffer::new(2, 2, vec![RED, GREEN, BLUE, BLACK]).unwrap();
    assert_eq!(buffer.sample(3, 3, 4, 4), Some(BLACK));
    assert_eq!(buffer.sample(4, 0, 4, 4), None);
    assert_eq!(buffer.sample(0, 4, 4, 4), None);
    assert_eq!(buffer.sample(0, 0, 0, 0), None);
    let empty = PixelBuffer::new(0, 2, vec![]).unwrap();
    assert_eq!(empty.sample(0, 0, 4, 4), None);
}

#[test]
fn new_target_is_transparent() {
    let t = RenderTarget::new(INTERNAL_WIDTH, INTERNAL_HEIGHT, true).unwrap();
    assert_eq!(t.color().width(), 320);
    assert_eq!(t.color().height(), 240);
    assert!(t.has_depth());
    assert_eq!(t.color(), &PixelBuffer::new(320, 240, vec![CLEAR; 320 * 240]).unwrap());
    assert!(!RenderTarget::new(1, 1, false).unwrap().has_depth());
}

#[test]
fn target_needs_a_pixel() {
    assert_eq!(RenderTarget::new(0, 240, true), Err(RenderTargetError::Empty));
    assert_eq!(RenderTarget::new(320, 0, false), Err(RenderTargetError::Empty));
    assert_eq!(
        RenderTarget::from_pixels(PixelBuffer::new(0, 3, vec![]).unwrap(), false),
        Err(RenderTargetError::Empty)
    );
}

#[test]
fn target_is_cleared_to_the_background_of_its_pass() {
    let mut t = target(2, 1, vec![RED, GREEN]);
    t.clear(Rgba8::opaque_black());
    assert_eq!(t.color(), &PixelBuffer::new(2, 1, vec![BLACK, BLACK]).unwrap());
    t.clear(Rgba8::transparent());
    assert_eq!(t.color(), &PixelBuffer::new(2, 1, vec![CLEAR, CLEAR]).unwrap());
    assert!(t.has_depth());
}

#[test]
fn transparent_world_shows_the_sky_and_opaque_view_model_wins() {
    let sky = target(2, 2, vec![BLUE, BLUE, BLACK, BLACK]);
    let world = target(2, 2, vec![RED, CLEAR, CLEAR, RED]);
    let view_model = target(2, 2, vec![CLEAR, CLEAR, GREEN, GREEN]);
    let frame = compose(&sky, &world, &view_model, 2, 2).unwrap();
    assert_eq!(frame, PixelBuffer::new(2, 2, vec![RED, BLUE, GREEN, GREEN]).unwrap());
}

#[test]
fn frame_is_stretched_with_hard_edges() {
    let sky = target(2, 1, vec![BLUE, BLACK]);
    let world = target(1, 1, vec![CLEAR]);
    let view_model = target(1, 2, vec![CLEAR, GREEN]);
    let frame = compose(&sky, &world, &view_model, 4, 4).unwrap();
    let expected = vec![
        BLUE, BLUE, BLACK, BLACK, //
        BLUE, BLUE, BLACK, BLACK, //
        GREEN, GREEN, GREEN, GREEN, //
        GREEN, GREEN, GREEN, GREEN,
    ];
    assert_eq!(frame, PixelBuffer::new(4, 4, expected).unwrap());
}

#[test]
fn frame_of_internal_layers_at_window_size() {
    let mut sky = RenderTarget::new(INTERNAL_WIDTH, INTERNAL_HEIGHT, false).unwrap();
    sky.clear(Rgba8::opaque_black());
    let world = RenderTarget::new(INTERNAL_WIDTH, INTERNAL_HEIGHT, true).unwrap();
    let view_model = RenderTarget::new(INTERNAL_WIDTH, INTERNAL_HEIGHT, true).unwrap();
    let frame = compose(&sky, &world, &view_model, 800, 600).unwrap();
    assert_eq!(frame.width(), 800);
    assert_eq!(frame.height(), 600);
    assert_eq!(frame, PixelBuffer::filled(800, 600, BLACK).unwrap());
}

#[test]
fn frame_without_pixels() {
    let sky = target(1, 1, vec![BLUE]);
    let world = target(1, 1, vec![CLEAR]);
    let view_model = target(1, 1, vec![CLEAR]);
    assert_eq!(compose(&sky, &world, &view_model, 0, 7), Ok(PixelBuffer::new(0, 7, vec![]).unwrap()));
}
