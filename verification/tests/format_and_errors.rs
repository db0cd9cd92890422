use dotweb::error::Error;
use dotweb::format::Format;
use dotweb::format::OutputFormat;
use dotweb::format::accept_format_or;
use dotweb::supervisor::classify;
use dotweb::supervisor::strip_banner;

#[test]
fn content_type_negotiation_table() {
    assert_eq!(Format::from_content_type("image/gif"), Some(Format::Gif));
    assert_eq!(Format::from_content_type("image/jpeg"), Some(Format::Jpg));
    assert_eq!(Format::from_content_type("application/pdf"), Some(Format::Pdf));
    assert_eq!(Format::from_content_type("image/png"), Some(Format::Png));
    assert_eq!(
        Format::from_content_type("application/postscript"),
        Some(Format::Postscript)
    );
    assert_eq!(Format::from_content_type("image/svg+xml"), Some(Format::Svg));
    assert_eq!(Format::from_content_type("text/html"), None);
    assert_eq!(Format::from_content_type(""), None);
    assert_eq!(Format::from_content_type("image/gifx"), None);
}

#[test]
fn engine_tokens() {
    assert_eq!(Format::Gif.token(), "gif");
    assert_eq!(Format::Jpg.token(), "jpg");
    assert_eq!(Format::Pdf.token(), "pdf");
    assert_eq!(Format::Png.token(), "png");
    assert_eq!(Format::Postscript.token(), "ps");
    assert_eq!(Format::Svg.token(), "svg");
}

#[test]
fn content_types_round_trip() {
    let all = [
        Format::Gif,
        Format::Jpg,
        Format::Pdf,
        Format::Png,
        Format::Postscript,
        Format::Svg,
    ];
    for f in all {
        assert_eq!(Format::from_content_type(f.content_type()), Some(f));
    }
}

#[test]
fn accept_header_picks_format_or_default() {
    assert_eq!(accept_format_or(Format::Png, None), Format::Png);
    assert_eq!(
        accept_format_or(Format::Png, Some("application/pdf")),
        Format::Pdf
    );
    assert_eq!(accept_format_or(Format::Png, Some("text/plain")), Format::Png);
    assert_eq!(accept_format_or(Format::Svg, Some("")), Format::Svg);
}

#[test]
fn output_keeps_bytes_and_requested_kind() {
    let rendered = OutputFormat::new(Format::Svg, b"<svg/>".to_vec());
    assert_eq!(rendered.kind(), Format::Svg);
    assert_eq!(rendered.content_type(), "image/svg+xml");
    assert_eq!(rendered.into_bytes(), b"<svg/>".to_vec());

    let rendered = OutputFormat::new(Format::Pdf, Vec::new());
    assert_eq!(rendered.kind(), Format::Pdf);
    assert_eq!(rendered.content_type(), "application/pdf");
    assert_eq!(rendered.into_bytes(), Vec::<u8>::new());
}

#[test]
fn zero_exit_returns_exact_stdout() {
    let stdout = b"\x89PNG-rendered".to_vec();
    match classify(true, stdout.clone(), &b"ignored warnings".to_vec()) {
        Ok(bytes) => assert_eq!(bytes, stdout),
        Err(_) => panic!("a zero exit status is a success"),
    }
}

#[test]
fn nonzero_exit_strips_banner_from_diagnostics() {
    let stderr = b"<stdin>: syntax error in line 3".to_vec();
    match classify(false, Vec::new(), &stderr) {
        Err(Error::Dot(reason)) => assert_eq!(reason, "syntax error in line 3"),
        _ => panic!("a non-zero exit status is an engine failure"),
    }
}

#[test]
fn banner_in_the_middle_is_removed_once() {
    let stderr = b"Error: <stdin>: syntax error in line 3 near 'x'".to_vec();
    match classify(false, Vec::new(), &stderr) {
        Err(Error::Dot(reason)) => {
            assert_eq!(reason, "Error: syntax error in line 3 near 'x'")
        }
        _ => panic!("a non-zero exit status is an engine failure"),
    }
}

#[test]
fn diagnostics_without_banner_pass_verbatim() {
    let stderr = b"dot: out of memory".to_vec();
    match classify(false, Vec::new(), &stderr) {
        Err(Error::Dot(reason)) => assert_eq!(reason, "dot: out of memory"),
        _ => panic!("a non-zero exit status is an engine failure"),
    }
}

#[test]
fn strip_banner_edge_cases() {
    assert_eq!(strip_banner(&Vec::new()), Vec::<u8>::new());
    assert_eq!(strip_banner(&b"short".to_vec()), b"short".to_vec());
    assert_eq!(strip_banner(&b"<stdin>: ".to_vec()), Vec::<u8>::new());
    assert_eq!(strip_banner(&b"<stdin>:x".to_vec()), b"<stdin>:x".to_vec());
    // Only the first occurrence is removed.
    assert_eq!(
        strip_banner(&b"<stdin>: a<stdin>: b".to_vec()),
        b"a<stdin>: b".to_vec()
    );
}

#[test]
fn error_messages() {
    assert_eq!(Error::Timeout.message(), "operation timed out");
    assert_eq!(
        Error::Dot(String::from("syntax error in line 3")).message(),
        "syntax error in line 3"
    );
    assert_eq!(
        Error::Io(String::from("broken pipe")).message(),
        "broken pipe"
    );
}
