use img2pdf::assemble::{assemble_plan, pixels_to_mm_e9, plan_pages, MM_E9_PER_PIXEL};
use img2pdf::PipelineError;

fn png_bytes(width: u32, height: u32) -> Vec<u8> {
    let img = image::RgbImage::new(width, height);
    let mut buf: Vec<u8> = Vec::new();
    img.write_to(&mut std::io::Cursor::new(&mut buf), image::ImageFormat::Png)
        .unwrap();
    buf
}

#[test]
fn converts_pixels_at_the_fixed_ratio() {
    assert_eq!(MM_E9_PER_PIXEL, 84_666_836);
    assert_eq!(pixels_to_mm_e9(1), 84_666_836);
    assert_eq!(pixels_to_mm_e9(100), 8_466_683_600);
    assert_eq!(pixels_to_mm_e9(0), 0);
    assert_eq!(pixels_to_mm_e9(u32::MAX), 4_294_967_295 * 84_666_836);
}

#[test]
fn one_page_per_image_sized_to_the_first() {
    let images = vec![png_bytes(2, 3), png_bytes(40, 50), png_bytes(7, 7)];
    let plan = assemble_plan(&images).unwrap();
    assert_eq!(plan.pages.len(), 3);
    for page in &plan.pages {
        assert_eq!(page.width_mm_e9, 2 * MM_E9_PER_PIXEL);
        assert_eq!(page.height_mm_e9, 3 * MM_E9_PER_PIXEL);
    }
}

#[test]
fn single_image_gives_single_page() {
    let images = vec![png_bytes(10, 20)];
    let plan = assemble_plan(&images).unwrap();
    assert_eq!(plan.pages.len(), 1);
    assert_eq!(plan.pages[0].width_mm_e9, 10 * MM_E9_PER_PIXEL);
    assert_eq!(plan.pages[0].height_mm_e9, 20 * MM_E9_PER_PIXEL);
}

#[test]
fn undecodable_bytes_fail_with_decode_error() {
    let images = vec![png_bytes(2, 2), vec![0u8, 1, 2, 3, 4, 5]];
    let r = assemble_plan(&images);
    assert_eq!(r.err(), Some(PipelineError::Decode));
}

#[test]
fn decode_failure_beats_page_planning() {
    let images = vec![vec![255u8; 16]];
    let r = assemble_plan(&images);
    assert_eq!(r.err(), Some(PipelineError::Decode));
}

#[test]
fn empty_image_list_fails_without_a_document() {
    let images: Vec<Vec<u8>> = Vec::new();
    let r = assemble_plan(&images);
    assert_eq!(r.err(), Some(PipelineError::EmptyImages));
}

#[test]
fn plan_pages_rejects_empty_dimension_list() {
    let dims: Vec<(u32, u32)> = Vec::new();
    let r = plan_pages(&dims);
    assert_eq!(r.err(), Some(PipelineError::EmptyImages));
}

#[test]
fn plan_pages_uses_first_dimensions_for_every_page() {
    let dims = vec![(8, 4), (100, 300)];
    let plan = plan_pages(&dims).unwrap();
    assert_eq!(plan.pages.len(), 2);
    assert_eq!(plan.pages[1].width_mm_e9, 8 * MM_E9_PER_PIXEL);
    assert_eq!(plan.pages[1].height_mm_e9, 4 * MM_E9_PER_PIXEL);
}
