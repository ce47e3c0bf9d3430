use mdcat_core::svg::png::read_png_dimensions;
use mdcat_core::svg::rasterizer::{
    blank_surface, encoder_outcome, Action, Event, MAX_SURFACE_SIDE,
};
use mdcat_core::svg::{rasterizer, render_svg_to_png, unsupported};
use mdcat_core::svg::{PixelSize, RenderSvgError, SvgSupport};
use resvg::tiny_skia::{Color, Pixmap, Transform};
use resvg::usvg::fontdb::Database;
use resvg::usvg::{Options, TreeParsing, TreeTextToPath};

const RECT: &str = "<svg xmlns=\"http://www.w3.org/2000/svg\" width=\"20\" height=\"10\">\
    <rect width=\"20\" height=\"10\" fill=\"#ff0000\"/></svg>";

fn sized(width: &str, height: &str) -> String {
    format!(
        "<svg xmlns=\"http://www.w3.org/2000/svg\" width=\"{}\" height=\"{}\"/>",
        width, height
    )
}

fn size(width: u32, height: u32) -> PixelSize {
    PixelSize { width, height }
}

/// Do what the library says until it says that it is done.
fn rasterize(svg: &[u8], support: SvgSupport) -> Result<Vec<u8>, RenderSvgError> {
    let fonts = Database::new();
    let mut event = Event::Begin;
    loop {
        event = match render_svg_to_png(support, event) {
            Action::Parse => {
                Event::Parsed(resvg::usvg::Tree::from_data(svg, &Options::default()))
            }
            Action::Prepare(mut document) => {
                document.convert_text(&fonts);
                Event::Prepared(resvg::Tree::from_usvg(&document))
            }
            Action::Paint(tree, mut surface) => {
                tree.render(Transform::default(), &mut surface.as_mut());
                Event::Painted(surface)
            }
            Action::Done(outcome) => return outcome,
        };
    }
}

fn tree_of(svg: &str) -> resvg::Tree {
    let document = resvg::usvg::Tree::from_data(svg.as_bytes(), &Options::default()).unwrap();
    resvg::Tree::from_usvg(&document)
}

#[test]
fn png_has_the_size_of_the_document() {
    let png = rasterize(sized("3", "2").as_bytes(), SvgSupport::Enabled).unwrap();
    assert_eq!(read_png_dimensions(&png), Some(size(3, 2)));
    let decoded = Pixmap::decode_png(&png).unwrap();
    assert_eq!((decoded.width(), decoded.height()), (3, 2));
}

#[test]
fn png_shows_what_the_document_draws() {
    let png = rasterize(RECT.as_bytes(), SvgSupport::Enabled).unwrap();
    assert_eq!(read_png_dimensions(&png), Some(size(20, 10)));
    let decoded = Pixmap::decode_png(&png).unwrap();
    assert_eq!((decoded.width(), decoded.height()), (20, 10));
    assert_eq!(decoded.pixels().len(), 200);
    for pixel in decoded.pixels() {
        assert_eq!((pixel.red(), pixel.green(), pixel.blue(), pixel.alpha()), (255, 0, 0, 255));
    }
}

#[test]
fn small_red_document_has_its_header() {
    let svg = b"<svg xmlns='http://www.w3.org/2000/svg' width='3' height='2'>\
        <rect width='3' height='2' fill='red'/></svg>";
    let png = rasterize(svg, SvgSupport::Enabled).unwrap();
    assert_eq!(&png[..8], &[0x89, 0x50, 0x4e, 0x47, 0x0d, 0x0a, 0x1a, 0x0a]);
    assert_eq!(&png[12..16], b"IHDR");
    assert_eq!(&png[16..20], &[0, 0, 0, 3]);
    assert_eq!(&png[20..24], &[0, 0, 0, 2]);
}

#[test]
fn view_box_does_not_change_the_size() {
    let svg = b"<svg xmlns='http://www.w3.org/2000/svg' width='4' height='5' \
        viewBox='0 0 40 50'><rect width='40' height='50' fill='blue'/></svg>";
    let png = rasterize(svg, SvgSupport::Enabled).unwrap();
    assert_eq!(&png[16..20], &[0, 0, 0, 4]);
    assert_eq!(&png[20..24], &[0, 0, 0, 5]);
    let decoded = Pixmap::decode_png(&png).unwrap();
    for pixel in decoded.pixels() {
        assert_eq!((pixel.red(), pixel.green(), pixel.blue(), pixel.alpha()), (0, 0, 255, 255));
    }
}

#[test]
fn empty_document_stays_transparent() {
    let png = rasterize(sized("4", "5").as_bytes(), SvgSupport::Enabled).unwrap();
    let decoded = Pixmap::decode_png(&png).unwrap();
    assert_eq!((decoded.width(), decoded.height()), (4, 5));
    for pixel in decoded.pixels() {
        assert_eq!(pixel.alpha(), 0);
    }
}

#[test]
fn fractions_of_a_pixel_are_rounded() {
    let png = rasterize(sized("2.6", "0.2").as_bytes(), SvgSupport::Enabled).unwrap();
    assert_eq!(read_png_dimensions(&png), Some(size(3, 1)));
}

#[test]
fn text_without_fonts_is_left_out() {
    let svg = "<svg xmlns=\"http://www.w3.org/2000/svg\" width=\"30\" height=\"20\">\
        <text x=\"2\" y=\"15\">hi</text></svg>";
    let png = rasterize(svg.as_bytes(), SvgSupport::Enabled).unwrap();
    assert_eq!(read_png_dimensions(&png), Some(size(30, 20)));
}

#[test]
fn embedded_image_is_drawn() {
    let svg = "<svg xmlns=\"http://www.w3.org/2000/svg\" width=\"6\" height=\"4\">\
        <image href=\"data:image/svg+xml;utf8,&lt;svg xmlns='http://www.w3.org/2000/svg' \
        width='6' height='4'&gt;&lt;rect width='6' height='4' fill='lime'/&gt;&lt;/svg&gt;\" \
        width=\"6\" height=\"4\"/></svg>";
    let png = rasterize(svg.as_bytes(), SvgSupport::Enabled).unwrap();
    let decoded = Pixmap::decode_png(&png).unwrap();
    assert_eq!((decoded.width(), decoded.height()), (6, 4));
    for pixel in decoded.pixels() {
        assert_eq!((pixel.red(), pixel.green(), pixel.blue(), pixel.alpha()), (0, 255, 0, 255));
    }
}

#[test]
fn malformed_data_is_a_parse_error() {
    let inputs: Vec<&[u8]> = vec![
        b"",
        b"not an svg",
        b"<svg",
        b"<svg xmlns=\"http://www.w3.org/2000/svg\" width=\"20\">",
        b"<html></html>",
        b"\xff\xfe\x00",
        b"\x1f\x8b broken gzip",
        b"<svg xmlns=\"http://www.w3.org/2000/svg\" width=\"0\" height=\"10\"/>",
    ];
    for input in inputs {
        let outcome = rasterize(input, SvgSupport::Enabled);
        assert!(matches!(outcome, Err(RenderSvgError::ParseError(_))));
    }
}

#[test]
fn oversized_document_is_refused_with_its_size() {
    let outcome = rasterize(sized("600000000", "1").as_bytes(), SvgSupport::Enabled);
    match outcome {
        Err(RenderSvgError::FailedToCreatePixmap(rejected)) => {
            assert_eq!(rejected, size(600_000_000, 1))
        }
        _ => panic!("a surface 600000000 pixels wide was accepted"),
    }
    let outcome = rasterize(sized("1", "600000000").as_bytes(), SvgSupport::Enabled);
    assert!(matches!(
        outcome,
        Err(RenderSvgError::FailedToCreatePixmap(PixelSize { width: 1, height: 600_000_000 }))
    ));
}

#[test]
fn first_step_is_to_parse() {
    assert!(matches!(render_svg_to_png(SvgSupport::Enabled, Event::Begin), Action::Parse));
    assert!(matches!(rasterizer::render_svg_to_png(Event::Begin), Action::Parse));
}

#[test]
fn parser_failure_ends_with_its_reason() {
    assert!(matches!(
        rasterizer::render_svg_to_png(Event::Parsed(Err(resvg::usvg::Error::InvalidSize))),
        Action::Done(Err(RenderSvgError::ParseError(resvg::usvg::Error::InvalidSize)))
    ));
    assert!(matches!(
        rasterizer::render_svg_to_png(Event::Parsed(Err(resvg::usvg::Error::NotAnUtf8Str))),
        Action::Done(Err(RenderSvgError::ParseError(resvg::usvg::Error::NotAnUtf8Str)))
    ));
}

#[test]
fn parsed_document_is_to_be_prepared_as_it_is() {
    let parsed = resvg::usvg::Tree::from_data(RECT.as_bytes(), &Options::default());
    match rasterizer::render_svg_to_png(Event::Parsed(parsed)) {
        Action::Prepare(document) => {
            assert_eq!(document.size.to_int_size().dimensions(), (20, 10));
            assert!(document.root.has_children());
        }
        _ => panic!("a document was not handed on"),
    }
}

#[test]
fn prepared_tree_gets_a_blank_surface_of_its_size() {
    match rasterizer::render_svg_to_png(Event::Prepared(tree_of(RECT))) {
        Action::Paint(tree, surface) => {
            assert_eq!(tree.size.to_int_size().dimensions(), (20, 10));
            assert_eq!((surface.width(), surface.height()), (20, 10));
            assert_eq!(surface.data().len(), 800);
            assert!(surface.data().iter().all(|byte| *byte == 0));
        }
        _ => panic!("a tree of 20 by 10 was not to be painted"),
    }
}

#[test]
fn oversized_tree_is_not_painted() {
    let wide = tree_of(&sized("600000000", "1"));
    assert!(matches!(
        rasterizer::render_svg_to_png(Event::Prepared(wide)),
        Action::Done(Err(RenderSvgError::FailedToCreatePixmap(PixelSize {
            width: 600_000_000,
            height: 1
        })))
    ));
}

#[test]
fn painted_surface_is_what_the_image_shows() {
    let mut surface = Pixmap::new(3, 2).unwrap();
    surface.fill(Color::from_rgba8(10, 200, 30, 255));
    let kept = surface.clone();
    match rasterizer::render_svg_to_png(Event::Painted(surface)) {
        Action::Done(Ok(png)) => {
            assert_eq!(read_png_dimensions(&png), Some(size(3, 2)));
            assert_eq!(png, kept.encode_png().unwrap());
            let decoded = Pixmap::decode_png(&png).unwrap();
            assert_eq!(decoded.data(), kept.data());
            assert_eq!(decoded.data()[..4], [10, 200, 30, 255]);
        }
        _ => panic!("a painted surface gave no image"),
    }
}

#[test]
fn surface_sides_are_limited() {
    assert_eq!(MAX_SURFACE_SIDE, 536_870_911);
    for rejected in [
        size(0, 0),
        size(0, 7),
        size(7, 0),
        size(MAX_SURFACE_SIDE + 1, 1),
        size(1, MAX_SURFACE_SIDE + 1),
        size(u32::MAX, u32::MAX),
    ] {
        match blank_surface(rejected) {
            Err(RenderSvgError::FailedToCreatePixmap(size)) => assert_eq!(size, rejected),
            _ => panic!("a surface of {:?} was accepted", rejected),
        }
    }
    let surface = blank_surface(size(5, 40)).unwrap();
    assert_eq!((surface.width(), surface.height()), (5, 40));
    assert!(surface.data().iter().all(|byte| *byte == 0));
}

#[test]
fn switched_off_rendering_is_unsupported() {
    let inputs: Vec<&[u8]> = vec![b"", b"not an svg", RECT.as_bytes(), b"\xff"];
    for input in inputs {
        assert!(matches!(
            rasterize(input, SvgSupport::Disabled),
            Err(RenderSvgError::Unsupported)
        ));
    }
    assert!(matches!(
        render_svg_to_png(SvgSupport::Disabled, Event::Begin),
        Action::Done(Err(RenderSvgError::Unsupported))
    ));
    assert!(matches!(
        render_svg_to_png(SvgSupport::Disabled, Event::Prepared(tree_of(RECT))),
        Action::Done(Err(RenderSvgError::Unsupported))
    ));
    assert!(matches!(
        unsupported::render_svg_to_png(Event::Painted(Pixmap::new(1, 1).unwrap())),
        Action::Done(Err(RenderSvgError::Unsupported))
    ));
}

#[test]
fn encoder_failure_keeps_its_message() {
    match encoder_outcome(Err(String::from("no space left"))) {
        Err(RenderSvgError::EncodePngError(message)) => assert_eq!(message, "no space left"),
        _ => panic!("the encoder's failure got lost"),
    }
    match encoder_outcome(Ok(vec![1, 2, 3])) {
        Ok(png) => assert_eq!(png, vec![1, 2, 3]),
        _ => panic!("the encoder's image got lost"),
    }
}

#[test]
fn encoder_needs_no_retry() {
    let first = rasterize(RECT.as_bytes(), SvgSupport::Enabled).unwrap();
    let second = rasterize(RECT.as_bytes(), SvgSupport::Enabled).unwrap();
    assert_eq!(first, second);
}

#[test]
fn png_header_is_read_byte_by_byte() {
    let mut data = vec![137, 80, 78, 71, 13, 10, 26, 10, 0, 0, 0, 13, 73, 72, 68, 82];
    data.extend_from_slice(&[0, 0, 1, 2, 0x12, 0x34, 0x56, 0x78]);
    assert_eq!(read_png_dimensions(&data), Some(size(258, 0x1234_5678)));
    assert_eq!(read_png_dimensions(&data[..23]), None);
    data.push(8);
    assert_eq!(read_png_dimensions(&data), Some(size(258, 0x1234_5678)));
    for at in 0..16 {
        let mut damaged = data.clone();
        damaged[at] ^= 1;
        assert_eq!(read_png_dimensions(&damaged), None);
    }
    let mut largest = data.clone();
    for byte in &mut largest[16..24] {
        *byte = 255;
    }
    assert_eq!(read_png_dimensions(&largest), Some(size(u32::MAX, u32::MAX)));
    assert_eq!(read_png_dimensions(b""), None);
    assert_eq!(read_png_dimensions(RECT.as_bytes()), None);
}
