use candle_vllm::settings::{
    parse_usize, snapshot_stride_from_setting, DEFAULT_MAMBA_SNAPSHOT_BLOCK_STRIDE,
    MAMBA_SNAPSHOT_BLOCK_STRIDE_ENV,
};

#[test]
fn parses_like_std() {
    for s in ["0", "7", "+7", "0012", "18446744073709551615", "", "+", "-1", " 1", "1 ", "1_0", "x", "18446744073709551616", "٣"] {
        assert_eq!(parse_usize(s), s.parse::<usize>().ok(), "input {s:?}");
    }
}

#[test]
fn stride_setting() {
    assert_eq!(MAMBA_SNAPSHOT_BLOCK_STRIDE_ENV, "VLLM_RS_MAMBA_SNAPSHOT_STRIDE_BLOCKS");
    assert_eq!(DEFAULT_MAMBA_SNAPSHOT_BLOCK_STRIDE, 8);
    assert_eq!(snapshot_stride_from_setting(None), 8);
    assert_eq!(snapshot_stride_from_setting(Some("4")), 4);
    assert_eq!(snapshot_stride_from_setting(Some("  16\n")), 16);
    assert_eq!(snapshot_stride_from_setting(Some("0")), 8);
    assert_eq!(snapshot_stride_from_setting(Some("abc")), 8);
    assert_eq!(snapshot_stride_from_setting(Some("")), 8);
}

#[test]
fn stride_setting_trims_unicode_white_space() {
    for s in ["\u{3000}12\u{85}", "\t\n\u{b}\u{c}\r 5\u{a0}\u{1680}\u{2000}\u{200a}\u{2028}\u{2029}\u{202f}\u{205f}", "\u{200b}12", "1 2"] {
        let expected = match s.trim().parse::<usize>() {
            Ok(v) if v > 0 => v,
            _ => 8,
        };
        assert_eq!(snapshot_stride_from_setting(Some(s)), expected, "input {s:?}");
    }
    assert_eq!(snapshot_stride_from_setting(Some("\u{3000}12\u{85}")), 12);
    assert_eq!(snapshot_stride_from_setting(Some("\u{200b}12")), 8);
}
