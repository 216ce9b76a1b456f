use rstool::codec::{decode, encode, Base64Format};
use rstool::error::ToolError;

#[test]
fn empty_buffer_encodes_to_empty_text() {
    assert_eq!(encode(&[], Base64Format::Standard), "");
    assert_eq!(encode(&[], Base64Format::UrlSafe), "");
    assert_eq!(decode("", Base64Format::Standard), Ok(vec![]));
    assert_eq!(decode("", Base64Format::UrlSafe), Ok(vec![]));
}

#[test]
fn malformed_text_is_rejected() {
    assert_eq!(decode("not_base64!!", Base64Format::Standard), Err(ToolError::Encoding));
    assert_eq!(decode("not_base64!!", Base64Format::UrlSafe), Err(ToolError::Encoding));
}

#[test]
fn known_encodings() {
    assert_eq!(encode(b"hello", Base64Format::Standard), "aGVsbG8=");
    assert_eq!(encode(b"hello", Base64Format::UrlSafe), "aGVsbG8");
    assert_eq!(encode(&[0xfb, 0xff], Base64Format::Standard), "+/8=");
    assert_eq!(encode(&[0xfb, 0xff], Base64Format::UrlSafe), "-_8");
}

#[test]
fn alphabets_do_not_mix() {
    assert_eq!(decode("aGVsbG8=", Base64Format::UrlSafe), Err(ToolError::Encoding));
    assert_eq!(decode("aGVsbG8", Base64Format::Standard), Err(ToolError::Encoding));
    assert_eq!(decode("-_8", Base64Format::Standard), Err(ToolError::Encoding));
    assert_eq!(decode("+/8=", Base64Format::UrlSafe), Err(ToolError::Encoding));
}

#[test]
fn codec_round_trip() {
    let samples: Vec<Vec<u8>> = vec![vec![], vec![0], vec![1, 2], vec![255, 254, 253], (0..=255).collect()];
    for b in samples {
        for f in [Base64Format::Standard, Base64Format::UrlSafe] {
            let t = encode(&b, f);
            assert_eq!(decode(&t, f), Ok(b.clone()));
        }
    }
}

#[test]
fn padding_only_at_the_end() {
    assert_eq!(decode("A=AA", Base64Format::Standard), Err(ToolError::Encoding));
    assert_eq!(decode("AA=A", Base64Format::Standard), Err(ToolError::Encoding));
    assert_eq!(decode("AA==AA==", Base64Format::Standard), Err(ToolError::Encoding));
    assert_eq!(decode("AA==", Base64Format::Standard), Ok(vec![0]));
}
