use cloudflare::http::{to_response, GenericResponse, PlatformResponse};
use cloudflare::AdapterError;

fn resp(status: u16, headers: Vec<(String, Vec<u8>)>, body: &[u8]) -> GenericResponse {
    GenericResponse {
        status,
        headers,
        body: body.to_vec(),
    }
}

#[test]
fn valid_response_is_preserved_exactly() {
    let headers = vec![
        ("Content-Type".to_string(), b"text/plain".to_vec()),
        ("X-Accent".to_string(), "café".as_bytes().to_vec()),
        ("Content-Type".to_string(), b"TEXT/PLAIN".to_vec()),
    ];
    let r = to_response(resp(200, headers.clone(), b"ok")).unwrap();
    assert_eq!(
        r,
        PlatformResponse {
            status: 200,
            headers,
            body: b"ok".to_vec(),
        }
    );
}

#[test]
fn status_is_taken_verbatim_without_validation() {
    let r = to_response(resp(700, Vec::new(), b"")).unwrap();
    assert_eq!(r.status, 700);
}

#[test]
fn invalid_utf8_header_value_fails_the_whole_translation() {
    let headers = vec![
        ("Fine".to_string(), b"ok".to_vec()),
        ("Broken".to_string(), vec![0xff, 0x20]),
    ];
    assert_eq!(
        to_response(resp(200, headers, b"ok")),
        Err(AdapterError::HeaderEncodingError)
    );
}

#[test]
fn overlong_encodings_are_rejected() {
    let headers = vec![("H".to_string(), vec![0xc0, 0x80])];
    assert_eq!(
        to_response(resp(200, headers, b"")),
        Err(AdapterError::HeaderEncodingError)
    );
}

#[test]
fn surrogate_encodings_are_rejected() {
    let headers = vec![("H".to_string(), vec![0xed, 0xa0, 0x80])];
    assert_eq!(
        to_response(resp(200, headers, b"")),
        Err(AdapterError::HeaderEncodingError)
    );
}

#[test]
fn truncated_multibyte_sequences_are_rejected() {
    let headers = vec![("H".to_string(), vec![0xe2, 0x82])];
    assert_eq!(
        to_response(resp(200, headers, b"")),
        Err(AdapterError::HeaderEncodingError)
    );
}

#[test]
fn stray_continuation_bytes_are_rejected() {
    let headers = vec![("H".to_string(), vec![0x80])];
    assert_eq!(
        to_response(resp(200, headers, b"")),
        Err(AdapterError::HeaderEncodingError)
    );
}

#[test]
fn four_byte_scalars_and_boundaries_are_accepted() {
    let headers = vec![
        ("Emoji".to_string(), "🦀".as_bytes().to_vec()),
        ("MaxScalar".to_string(), vec![0xf4, 0x8f, 0xbf, 0xbf]),
        ("Empty".to_string(), Vec::new()),
    ];
    let r = to_response(resp(204, headers.clone(), b"")).unwrap();
    assert_eq!(r.headers, headers);
}

#[test]
fn body_bytes_pass_through_even_when_not_utf8() {
    let body = vec![0x00, 0xff, 0x80, 0x41];
    let r = to_response(resp(200, Vec::new(), &body)).unwrap();
    assert_eq!(r.body, body);
}
