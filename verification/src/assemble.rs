//! The document assembler's plan: how many pages the document has and how
//! large each page is.
//!
//! A page's physical size is its image's pixel size times a fixed ratio of
//! millimetres per pixel. To keep the arithmetic exact, the plan carries
//! lengths as integers in units of 10^-9 millimetres; the unverified shell
//! that drives the document encoder scales them down once, at the boundary.
//! Every page of one document is sized to the first image: a deliberate
//! simplification of this pipeline, kept as its documented behaviour.
use crate::PipelineError;
use image::GenericImageView;
use vstd::prelude::*;

verus! {

/// Millimetres per pixel, scaled by 10^9: the fixed ratio 0.084666836
/// mm/pixel that converts pixel dimensions to physical page dimensions.
pub const MM_E9_PER_PIXEL: u64 = 84_666_836;

/// A pixel length converted to 10^-9 millimetres.
pub open spec fn mm_e9_of_pixels(px: u32) -> int {
    px * MM_E9_PER_PIXEL
}

/// Convert a pixel length to 10^-9 millimetres. Cannot overflow: the
/// largest `u32` times the ratio stays far below `u64::MAX`.
pub fn pixels_to_mm_e9(px: u32) -> (r: u64)
    ensures
        r == mm_e9_of_pixels(px),
{
    (px as u64) * MM_E9_PER_PIXEL
}

#[verifier::external_type_specification]
#[verifier::external_body]
pub struct ExDynamicImage(image::DynamicImage);

/// The pixel width and height a decoded image holds.
pub uninterp spec fn dims_of_image(img: image::DynamicImage) -> (u32, u32);

/// The pixel width and height that decoding a byte buffer yields, or
/// `None` when the bytes are not a recognisable raster image. Decoding is
/// a function of the bytes alone.
pub uninterp spec fn decoded_dims_of(bytes: Seq<u8>) -> Option<(u32, u32)>;

/// Relies on `image::load_from_memory`: it guesses the format from the
/// bytes and either fails or yields the decoded image, depending on the
/// bytes alone.
#[verifier::external_body]
fn load_image(bytes: &Vec<u8>) -> (r: Option<image::DynamicImage>)
    ensures
        r is Some <==> decoded_dims_of(bytes@) is Some,
        r matches Some(img) ==> decoded_dims_of(bytes@) == Some(dims_of_image(img)),
{
    image::load_from_memory(bytes.as_slice()).ok()
}

/// Relies on `image::GenericImageView::dimensions` on `DynamicImage`: it
/// reports the image's pixel width and height.
#[verifier::external_body]
fn image_dimensions(img: &image::DynamicImage) -> (r: (u32, u32))
    ensures
        r == dims_of_image(*img),
{
    img.dimensions()
}

/// One page of the planned document: its physical size in 10^-9
/// millimetres. The page shows the image of its own position in the
/// manifest's order.
#[derive(Clone, Copy, Debug, PartialEq, Eq, Structural)]
pub struct PagePlan {
    /// Page width in 10^-9 millimetres.
    pub width_mm_e9: u64,
    /// Page height in 10^-9 millimetres.
    pub height_mm_e9: u64,
}

/// The planned document: one page per image, in manifest order.
pub struct DocumentPlan {
    /// The pages; the `i`-th page holds the `i`-th image.
    pub pages: Vec<PagePlan>,
}

/// The size of the page every image is laid on: the first image's pixel
/// dimensions converted to 10^-9 millimetres.
pub open spec fn page_size_spec(first: (u32, u32)) -> (int, int) {
    (mm_e9_of_pixels(first.0), mm_e9_of_pixels(first.1))
}

/// Whether a planned page has exactly the given physical size.
pub open spec fn page_has_size(p: PagePlan, size: (int, int)) -> bool {
    p.width_mm_e9 == size.0 && p.height_mm_e9 == size.1
}

/// Plan the document's pages from the decoded pixel dimensions of the
/// images, in manifest order.
///
/// Fails with `PipelineError::EmptyImages` exactly when there are no
/// images; otherwise yields one page per image, every page sized to the
/// first image.
#[verifier::loop_isolation(false)]
pub fn plan_pages(dims: &Vec<(u32, u32)>) -> (r: Result<DocumentPlan, PipelineError>)
    ensures
        dims@.len() == 0 <==> r matches Err(PipelineError::EmptyImages),
        (r matches Ok(p) ==> p.pages@.len() == dims@.len() && forall|i: int|
            0 <= i < dims@.len() ==> page_has_size(#[trigger] p.pages@[i], page_size_spec(dims@[0]))),
        r is Ok <==> dims@.len() > 0,
{
    if dims.len() == 0 {
        return Err(PipelineError::EmptyImages);
    }
    let first = dims[0];
    let width = pixels_to_mm_e9(first.0);
    let height = pixels_to_mm_e9(first.1);
    let mut pages: Vec<PagePlan> = Vec::new();
    let mut i: usize = 0;
    while i < dims.len()
        invariant
            0 <= i <= dims@.len(),
            pages@.len() == i,
            forall|k: int|
                0 <= k < i ==> page_has_size(#[trigger] pages@[k], page_size_spec(dims@[0])),
        decreases dims@.len() - i,
    {
        pages.push(PagePlan { width_mm_e9: width, height_mm_e9: height });
        i = i + 1;
    }
    Ok(DocumentPlan { pages })
}

/// Decode the pixel dimensions of every image buffer, in order.
///
/// Succeeds exactly when every buffer decodes, in which case the `i`-th
/// entry is the `i`-th buffer's dimensions; fails with
/// `PipelineError::Decode` as soon as one buffer is not a recognisable
/// raster image.
#[verifier::loop_isolation(false)]
pub fn decode_all_dimensions(images: &Vec<Vec<u8>>) -> (r: Result<Vec<(u32, u32)>, PipelineError>)
    ensures
        (r is Ok <==> forall|i: int|
            0 <= i < images@.len() ==> #[trigger] decoded_dims_of(images@[i]@) is Some),
        (r matches Ok(d) ==> d@.len() == images@.len() && forall|i: int|
            0 <= i < images@.len() ==> #[trigger] decoded_dims_of(images@[i]@) == Some(d@[i])),
        r matches Err(PipelineError::Decode) || r is Ok,
{
    let mut dims: Vec<(u32, u32)> = Vec::new();
    let mut i: usize = 0;
    while i < images.len()
        invariant
            0 <= i <= images@.len(),
            dims@.len() == i,
            forall|k: int|
                0 <= k < i ==> #[trigger] decoded_dims_of(images@[k]@) == Some(dims@[k]),
        decreases images@.len() - i,
    {
        match load_image(&images[i]) {
            Some(img) => { dims.push(image_dimensions(&img)) },
            None => {
                assert(decoded_dims_of(images@[i as int]@) is None);
                return Err(PipelineError::Decode);
            },
        }
        i = i + 1;
    }
    Ok(dims)
}

/// Assemble the document plan for a list of image byte buffers, in manifest
/// order: the whole work of the document assembler short of encoding.
///
/// Fails with `PipelineError::Decode` when any buffer is not a
/// recognisable raster image, and with `PipelineError::EmptyImages` when
/// the list is empty and every buffer decodes; otherwise yields one page
/// per image, every page sized to the first image's pixel dimensions
/// converted to 10^-9 millimetres.
pub fn assemble_plan(images: &Vec<Vec<u8>>) -> (r: Result<DocumentPlan, PipelineError>)
    ensures
        (r is Ok <==> images@.len() > 0 && forall|i: int|
            0 <= i < images@.len() ==> #[trigger] decoded_dims_of(images@[i]@) is Some),
        (r matches Ok(p) ==> p.pages@.len() == images@.len() && forall|i: int|
            0 <= i < images@.len() ==> page_has_size(
                #[trigger] p.pages@[i],
                page_size_spec(decoded_dims_of(images@[0]@).unwrap()),
            )),
        (r matches Err(PipelineError::Decode) <==> exists|i: int|
            0 <= i < images@.len() && #[trigger] decoded_dims_of(images@[i]@) is None),
        (r matches Err(PipelineError::EmptyImages) <==> images@.len() == 0),
{
    let dims = match decode_all_dimensions(images) {
        Ok(d) => d,
        Err(e) => { return Err(e) },
    };
    plan_pages(&dims)
}

} // verus!
