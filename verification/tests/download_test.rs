use img2pdf::download::{plan_download, DownloadAction};
use img2pdf::PipelineError;

#[test]
fn existing_file_is_skipped() {
    assert_eq!(plan_download(true), DownloadAction::Skip);
}

#[test]
fn missing_file_is_fetched() {
    assert_eq!(plan_download(false), DownloadAction::Fetch);
}

#[test]
fn second_run_over_same_directory_fetches_nothing() {
    // After a first run every file exists, so every decision of the second
    // run is a skip: no URL is fetched twice.
    let first_run = plan_download(false);
    let second_run = plan_download(true);
    assert_eq!(first_run, DownloadAction::Fetch);
    assert_eq!(second_run, DownloadAction::Skip);
}

#[test]
fn error_messages_are_descriptive() {
    assert_eq!(
        PipelineError::EmptyImages.message(),
        "manifest lists no images to assemble"
    );
    assert_eq!(
        PipelineError::Parse.message(),
        "manifest is not a well-formed image list"
    );
    assert!(!PipelineError::Io.message().is_empty());
    assert!(!PipelineError::InvalidUrl.message().is_empty());
    assert!(!PipelineError::Network.message().is_empty());
    assert!(!PipelineError::Decode.message().is_empty());
}
