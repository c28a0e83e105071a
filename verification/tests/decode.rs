use ping_monitor::decode::decode_ping_output;

#[test]
fn code_page_936_decodes_gbk_text() {
    let (bytes, _, _) = encoding_rs::GBK.encode("请求超时。");
    let decoded = decode_ping_output(936, &bytes);
    assert_eq!(decoded, "请求超时。");
    // The raw bytes are not UTF-8; the wrapper must really decode.
    assert_ne!(bytes.as_ref(), decoded.as_bytes());
}

#[test]
fn ascii_output_reads_the_same_under_every_code_page() {
    let bytes = b"Reply from 10.0.0.1: bytes=32 time=11ms TTL=56";
    let expect = "Reply from 10.0.0.1: bytes=32 time=11ms TTL=56";
    for cp in [65001u32, 936, 950, 932, 949, 437] {
        assert_eq!(decode_ping_output(cp, bytes), expect);
    }
}

#[test]
fn code_page_950_decodes_big5_text() {
    let (bytes, _, _) = encoding_rs::BIG5.encode("時間");
    assert_eq!(decode_ping_output(950, &bytes), "時間");
}

#[test]
fn code_page_932_decodes_shift_jis_text() {
    let (bytes, _, _) = encoding_rs::SHIFT_JIS.encode("時間");
    assert_eq!(decode_ping_output(932, &bytes), "時間");
}

#[test]
fn code_page_949_decodes_euc_kr_text() {
    let (bytes, _, _) = encoding_rs::EUC_KR.encode("시간");
    assert_eq!(decode_ping_output(949, &bytes), "시간");
}

#[test]
fn unknown_code_page_falls_back_to_lossy_utf8() {
    let bytes = [b'o', b'k', 0xFF];
    assert_eq!(decode_ping_output(1252, &bytes), "ok\u{FFFD}");
}
