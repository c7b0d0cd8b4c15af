use img2pdf::config::parse_manifest;
use img2pdf::PipelineError;

#[test]
fn parses_well_formed_manifest() {
    let text = "{\"fileName\":\"out.pdf\",\"convertFileJson\":{\"imageCount\":2,\"images\":[\"https://host/a.jpg\",\"https://host/b.jpg\"]}}";
    let m = parse_manifest(text).unwrap();
    assert_eq!(m.file_name, String::from("out.pdf"));
    assert_eq!(m.image_count, 2);
    assert_eq!(
        m.images,
        vec![String::from("https://host/a.jpg"), String::from("https://host/b.jpg")]
    );
}

#[test]
fn parses_manifest_with_empty_image_list() {
    let text = "{\"fileName\":\"out.pdf\",\"convertFileJson\":{\"imageCount\":0,\"images\":[]}}";
    let m = parse_manifest(text).unwrap();
    assert_eq!(m.images.len(), 0);
}

#[test]
fn advisory_count_need_not_match_list_length() {
    let text = "{\"fileName\":\"out.pdf\",\"convertFileJson\":{\"imageCount\":7,\"images\":[\"https://host/a.jpg\"]}}";
    let m = parse_manifest(text).unwrap();
    assert_eq!(m.image_count, 7);
    assert_eq!(m.images.len(), 1);
}

#[test]
fn rejects_text_that_is_not_json() {
    let r = parse_manifest("{not json at all");
    assert_eq!(r.err(), Some(PipelineError::Parse));
}

#[test]
fn rejects_manifest_missing_images_field() {
    let text = "{\"fileName\":\"out.pdf\",\"convertFileJson\":{\"imageCount\":2}}";
    let r = parse_manifest(text);
    assert_eq!(r.err(), Some(PipelineError::Parse));
}

#[test]
fn rejects_manifest_missing_file_name() {
    let text = "{\"convertFileJson\":{\"imageCount\":1,\"images\":[\"https://host/a.jpg\"]}}";
    let r = parse_manifest(text);
    assert_eq!(r.err(), Some(PipelineError::Parse));
}

#[test]
fn rejects_non_string_image_entry() {
    let text = "{\"fileName\":\"out.pdf\",\"convertFileJson\":{\"imageCount\":1,\"images\":[17]}}";
    let r = parse_manifest(text);
    assert_eq!(r.err(), Some(PipelineError::Parse));
}

#[test]
fn rejects_count_that_does_not_fit_u32() {
    let text = "{\"fileName\":\"out.pdf\",\"convertFileJson\":{\"imageCount\":4294967296,\"images\":[]}}";
    let r = parse_manifest(text);
    assert_eq!(r.err(), Some(PipelineError::Parse));
}

#[test]
fn rejects_file_name_of_wrong_type() {
    let text = "{\"fileName\":3,\"convertFileJson\":{\"imageCount\":0,\"images\":[]}}";
    let r = parse_manifest(text);
    assert_eq!(r.err(), Some(PipelineError::Parse));
}
