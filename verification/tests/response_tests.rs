use harmonia::{extract_download_link, unescape_json_string, GenerationError};

#[test]
fn link_is_extracted_from_a_full_response() {
    let body = "{\"downloadLink\":\"https://x/y.mid\",\"preview\":[{\"events\":[{\"channel\":0,\
                \"duration\":0.5,\"note\":60,\"time\":0.0,\"track\":1,\"velocity\":90}],\
                \"time\":0.0}]}";
    assert_eq!(extract_download_link(body).unwrap(), "https://x/y.mid");
}

#[test]
fn link_is_found_after_other_members() {
    let body = "{\"preview\":[{\"events\":[],\"time\":1.5}],\"status\":\"ok\",\
                \"downloadLink\":\"https://host/file.mid\"}";
    assert_eq!(extract_download_link(body).unwrap(), "https://host/file.mid");
}

#[test]
fn whitespace_around_members_is_accepted() {
    let body = " { \"downloadLink\" : \"https://x/y.mid\" , \"preview\" : [ ] } ";
    assert_eq!(extract_download_link(body).unwrap(), "https://x/y.mid");
}

#[test]
fn escapes_in_the_link_are_undone() {
    let body = "{\"downloadLink\":\"https:\\/\\/x\\/a \\\"b\\\".mid\"}";
    assert_eq!(extract_download_link(body).unwrap(), "https://x/a \"b\".mid");
}

#[test]
fn a_link_inside_the_preview_is_not_taken() {
    let body = "{\"preview\":[{\"text\":\"{\\\"downloadLink\\\":\\\"https://wrong\\\"}\"}],\
                \"downloadLink\":\"https://right/f.mid\"}";
    assert_eq!(extract_download_link(body).unwrap(), "https://right/f.mid");
}

#[test]
fn a_response_without_a_link_is_an_error() {
    let body = "{\"preview\":[]}";
    assert!(matches!(
        extract_download_link(body),
        Err(GenerationError::Failed(_))
    ));
}

#[test]
fn a_non_string_link_is_an_error() {
    let body = "{\"downloadLink\":42}";
    assert!(extract_download_link(body).is_err());
}

#[test]
fn a_non_object_response_is_an_error() {
    assert!(extract_download_link("[1,2,3]").is_err());
    assert!(extract_download_link("").is_err());
    assert!(extract_download_link("null").is_err());
}

#[test]
fn an_unfinished_document_is_an_error() {
    assert!(extract_download_link("{\"downloadLink\":\"https://x").is_err());
    assert!(extract_download_link("{\"downloadLink\"").is_err());
}

#[test]
fn a_unicode_escape_in_the_link_is_an_error() {
    let body = "{\"downloadLink\":\"https://x/\\u0061.mid\"}";
    assert!(matches!(
        extract_download_link(body),
        Err(GenerationError::Failed(_))
    ));
}

#[test]
fn unescape_handles_the_named_escapes() {
    assert_eq!(
        unescape_json_string("a\\\"b\\\\c\\/d\\ne\\rf\\tg").unwrap(),
        "a\"b\\c/d\ne\rf\tg"
    );
    assert_eq!(unescape_json_string("plain").unwrap(), "plain");
    assert_eq!(unescape_json_string("").unwrap(), "");
}

#[test]
fn unescape_rejects_unsupported_or_unfinished_escapes() {
    assert!(unescape_json_string("a\\u0041").is_none());
    assert!(unescape_json_string("trailing\\").is_none());
    assert!(unescape_json_string("\\q").is_none());
}
