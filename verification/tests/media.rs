use rs_fast_mcp::error::FastMCPError;
use rs_fast_mcp::mcp::types::ContentBlock;
use rs_fast_mcp::util::types::{Audio, Image};

#[test]
fn image_from_bytes_encodes_base64() {
    let img = Image::new(b"hello".to_vec(), "image/png");
    assert!(img.path.is_none());
    match img.to_content_block() {
        Ok(ContentBlock::Image(c)) => {
            assert_eq!(c.type_, "image");
            assert_eq!(c.data, "aGVsbG8=");
            assert_eq!(c.mime_type, "image/png");
        },
        _ => panic!("expected image content"),
    }
}

#[test]
fn image_without_data_is_refused() {
    let img = Image { path: None, data: None, mime_type: "image/png".to_string() };
    match img.to_content_block() {
        Err(FastMCPError::InvalidRequest(m)) => assert_eq!(m, "No data in Image"),
        _ => panic!("expected refusal"),
    }
}

#[test]
fn image_from_read_guesses_mime() {
    let img = Image::from_read("pics/cat.png", Ok(vec![1, 2, 3])).ok().unwrap();
    assert_eq!(img.mime_type, "image/png");
    assert_eq!(img.path.as_deref(), Some("pics/cat.png"));
    assert_eq!(img.data, Some(vec![1, 2, 3]));
    let other = Image::from_read("data.unknownext", Ok(vec![])).ok().unwrap();
    assert_eq!(other.mime_type, "application/octet-stream");
}

#[test]
fn read_failure_is_reported() {
    match Image::from_read("x.png", Err("not found".to_string())) {
        Err(FastMCPError::Resource(d)) => {
            assert_eq!(d.code, Some(-32603));
            assert_eq!(d.message, "Failed to read image file: not found");
        },
        _ => panic!("expected a read failure"),
    }
    match Audio::from_read("x.wav", Err("denied".to_string())) {
        Err(FastMCPError::Resource(d)) => assert_eq!(d.message, "Failed to read audio file: denied"),
        _ => panic!("expected a read failure"),
    }
}

#[test]
fn audio_becomes_embedded_resource() {
    let a = Audio { path: None, data: Some(b"hi".to_vec()), mime_type: "audio/wav".to_string() };
    match a.to_resource_content() {
        Ok(ContentBlock::EmbeddedResource(er)) => {
            assert_eq!(er.type_, "resource");
            assert_eq!(er.resource.uri, "audio");
            assert_eq!(er.resource.mime_type.as_deref(), Some("audio/wav"));
            assert!(er.resource.text.is_none());
            assert_eq!(er.resource.blob.as_deref(), Some("aGk="));
        },
        _ => panic!("expected an embedded resource"),
    }
    let b = Audio::from_read("song.mp3", Ok(vec![0])).ok().unwrap();
    match b.to_resource_content() {
        Ok(ContentBlock::EmbeddedResource(er)) => assert_eq!(er.resource.uri, "song.mp3"),
        _ => panic!("expected an embedded resource"),
    }
    let c = Audio { path: None, data: None, mime_type: "audio/wav".to_string() };
    assert!(matches!(c.to_resource_content(), Err(FastMCPError::InvalidRequest(ref m)) if m == "No data in Audio"));
}
