//! Verified core of a small image-to-document pipeline.
//!
//! The pipeline reads a JSON manifest naming an output file and a list of
//! image URLs, downloads each image to a local file named after the last
//! path segment of its URL, and lays the downloaded images out as a
//! multi-page document, one image per page, every page sized to the first
//! image's dimensions converted to millimetres at a fixed ratio.
//!
//! This crate holds the decision logic of that pipeline: manifest parsing,
//! file-name resolution, the skip-or-fetch decision of the downloader, and
//! the page plan of the document assembler. File, network and document
//! output live outside, in an unverified shell that only executes the plans
//! produced here.
use vstd::prelude::*;

pub mod assemble;
pub mod config;
pub mod download;
pub mod jsonmodel;
pub mod resolve;

verus! {

/// Every failure the pipeline can report.
#[derive(Clone, Copy, Debug, PartialEq, Eq, Structural)]
pub enum PipelineError {
    /// A file could not be opened, read, created or written.
    Io,
    /// The manifest text is not well-formed JSON or lacks a required field.
    Parse,
    /// An image URL could not be parsed as a URL.
    InvalidUrl,
    /// An HTTP request failed.
    Network,
    /// Image bytes are not a recognisable raster image.
    Decode,
    /// The manifest lists no images, so there is nothing to assemble.
    EmptyImages,
}

/// The description that `message` returns for each error.
pub open spec fn message_spec(e: PipelineError) -> Seq<char> {
    match e {
        PipelineError::Io => "file could not be read or written"@,
        PipelineError::Parse => "manifest is not a well-formed image list"@,
        PipelineError::InvalidUrl => "image URL could not be parsed"@,
        PipelineError::Network => "image could not be fetched"@,
        PipelineError::Decode => "image bytes could not be decoded"@,
        PipelineError::EmptyImages => "manifest lists no images to assemble"@,
    }
}

impl PipelineError {
    /// A short human-readable description of the failure.
    pub fn message(&self) -> (r: &'static str)
        ensures
            r@ == message_spec(*self),
    {
        match self {
            PipelineError::Io => "file could not be read or written",
            PipelineError::Parse => "manifest is not a well-formed image list",
            PipelineError::InvalidUrl => "image URL could not be parsed",
            PipelineError::Network => "image could not be fetched",
            PipelineError::Decode => "image bytes could not be decoded",
            PipelineError::EmptyImages => "manifest lists no images to assemble",
        }
    }
}

} // verus!
