use autoit::utf16::decode_utf16;
use autoit::wide::text_end;
use autoit::{read_text, Error, WideText};

fn units_of(text: &str) -> Vec<u16> {
    text.encode_utf16().collect()
}

fn std_decode(units: &[u16]) -> Result<String, u16> {
    std::char::decode_utf16(units.iter().cloned())
        .collect::<Result<String, _>>()
        .map_err(|e| e.unpaired_surrogate())
}

#[test]
fn wide_text_is_utf16_with_terminator() {
    let wide = WideText::from_str("a\u{e9}").unwrap();
    assert_eq!(wide.as_units(), &[0x61, 0xE9, 0][..]);
}

#[test]
fn wide_text_of_accented_title() {
    let wide = WideText::from_str("aéèê").unwrap();
    assert_eq!(wide.as_units(), &[0x61, 0xE9, 0xE8, 0xEA, 0][..]);
}

#[test]
fn wide_text_uses_surrogate_pairs() {
    let wide = WideText::from_str("\u{1F600}!").unwrap();
    assert_eq!(wide.as_units(), &[0xD83D, 0xDE00, 0x21, 0][..]);
    let wide = WideText::from_str("\u{10000}\u{10FFFF}").unwrap();
    assert_eq!(wide.as_units(), &[0xD800, 0xDC00, 0xDBFF, 0xDFFF, 0][..]);
}

#[test]
fn wide_text_of_bmp_edges() {
    let wide = WideText::from_str("\u{1}\u{D7FF}\u{E000}\u{FFFF}").unwrap();
    assert_eq!(wide.as_units(), &[0x0001, 0xD7FF, 0xE000, 0xFFFF, 0][..]);
}

#[test]
fn wide_text_of_empty_text_is_the_terminator() {
    let wide = WideText::from_str("").unwrap();
    assert_eq!(wide.as_units(), &[0][..]);
}

#[test]
fn wide_text_refuses_a_final_nul() {
    assert_eq!(
        WideText::from_str("abc\0"),
        Err(Error::ContainsNul { position: 3 })
    );
    assert_eq!(
        WideText::from_str("\0"),
        Err(Error::ContainsNul { position: 0 })
    );
}

#[test]
fn wide_text_refuses_an_interior_nul() {
    assert_eq!(
        WideText::from_str("My\0String"),
        Err(Error::ContainsNul { position: 2 })
    );
    assert_eq!(
        WideText::from_str("\0a"),
        Err(Error::ContainsNul { position: 0 })
    );
}

#[test]
fn wide_text_names_the_first_of_several_nuls() {
    assert_eq!(
        WideText::from_str("a\0b\0"),
        Err(Error::ContainsNul { position: 1 })
    );
    assert_eq!(
        WideText::from_str("ab\0\0"),
        Err(Error::ContainsNul { position: 2 })
    );
}

#[test]
fn nul_position_counts_code_units() {
    assert_eq!(
        WideText::from_str("\u{1F600}\0x"),
        Err(Error::ContainsNul { position: 2 })
    );
    assert_eq!(
        WideText::from_str("é\u{10000}é\0\u{1F600}"),
        Err(Error::ContainsNul { position: 4 })
    );
}

#[test]
fn wide_text_always_ends_in_its_only_nul() {
    for text in ["", "a", "aéèê\n", "\u{1F600}", "tab\tnew\nline"] {
        let wide = WideText::from_str(text).unwrap();
        let units = wide.as_units();
        assert_eq!(units.last(), Some(&0));
        assert_eq!(units.iter().filter(|u| **u == 0).count(), 1);
    }
}

#[test]
fn text_end_is_the_first_nul() {
    assert_eq!(text_end(&[]), 0);
    assert_eq!(text_end(&[0]), 0);
    assert_eq!(text_end(&[0x61, 0x62]), 2);
    assert_eq!(text_end(&[0x61, 0, 0x62, 0]), 1);
    assert_eq!(text_end(&[0x61, 0x62, 0x63, 0]), 3);
}

#[test]
fn read_text_stops_at_the_first_nul() {
    let buffer = [0x61, 0xE9, 0, 0x62, 0xDC00, 0, 0xFFFF];
    assert_eq!(read_text(&buffer), Ok("aé".to_string()));
}

#[test]
fn read_text_of_a_full_buffer_reads_all_of_it() {
    let buffer = [0x61, 0x62, 0x63];
    assert_eq!(read_text(&buffer), Ok("abc".to_string()));
}

#[test]
fn read_text_of_an_empty_or_blank_buffer_is_empty() {
    assert_eq!(read_text(&[]), Ok(String::new()));
    assert_eq!(read_text(&[0, 0, 0, 0]), Ok(String::new()));
    assert_eq!(read_text(&vec![0u16; 1024]), Ok(String::new()));
}

#[test]
fn read_text_decodes_surrogate_pairs() {
    let buffer = [0xD83D, 0xDE00, 0x21, 0];
    assert_eq!(read_text(&buffer), Ok("\u{1F600}!".to_string()));
    let buffer = [0xD800, 0xDC00, 0xDBFF, 0xDFFF, 0];
    assert_eq!(read_text(&buffer), Ok("\u{10000}\u{10FFFF}".to_string()));
}

#[test]
fn read_text_refuses_a_lone_trail() {
    assert_eq!(
        read_text(&[0x61, 0xDC00, 0x62, 0]),
        Err(Error::UnpairedSurrogate { unit: 0xDC00 })
    );
    assert_eq!(
        read_text(&[0xDFFF, 0]),
        Err(Error::UnpairedSurrogate { unit: 0xDFFF })
    );
}

#[test]
fn read_text_refuses_a_lead_without_trail() {
    assert_eq!(
        read_text(&[0xD800, 0x61, 0]),
        Err(Error::UnpairedSurrogate { unit: 0xD800 })
    );
    assert_eq!(
        read_text(&[0xD83D, 0xD83D, 0xDE00, 0]),
        Err(Error::UnpairedSurrogate { unit: 0xD83D })
    );
}

#[test]
fn read_text_refuses_a_lead_cut_off_by_the_terminator() {
    assert_eq!(
        read_text(&[0x61, 0xDBFF, 0, 0xDC00]),
        Err(Error::UnpairedSurrogate { unit: 0xDBFF })
    );
    assert_eq!(
        read_text(&[0x61, 0xD800]),
        Err(Error::UnpairedSurrogate { unit: 0xD800 })
    );
}

#[test]
fn read_text_names_the_first_unpaired_surrogate() {
    assert_eq!(
        read_text(&[0xDE00, 0xD83D, 0]),
        Err(Error::UnpairedSurrogate { unit: 0xDE00 })
    );
}

#[test]
fn read_text_ignores_a_bad_unit_behind_the_terminator() {
    assert_eq!(read_text(&[0x61, 0, 0xD800]), Ok("a".to_string()));
}

#[test]
fn decode_utf16_reads_nul_as_a_character() {
    assert_eq!(decode_utf16(&[0x61, 0, 0x62]), Ok("a\0b".to_string()));
}

#[test]
fn decode_utf16_agrees_with_std_on_short_inputs() {
    let interesting: [u16; 12] = [
        0x0000, 0x0041, 0x00E9, 0xD7FF, 0xD800, 0xD83D, 0xDBFF, 0xDC00, 0xDE00, 0xDFFF, 0xE000,
        0xFFFF,
    ];
    assert_eq!(decode_utf16(&[]), std_decode(&[]));
    for a in interesting {
        assert_eq!(decode_utf16(&[a]), std_decode(&[a]));
        for b in interesting {
            assert_eq!(decode_utf16(&[a, b]), std_decode(&[a, b]));
            for c in interesting {
                assert_eq!(decode_utf16(&[a, b, c]), std_decode(&[a, b, c]));
                for d in interesting {
                    assert_eq!(decode_utf16(&[a, b, c, d]), std_decode(&[a, b, c, d]));
                }
            }
        }
    }
}

#[test]
fn wide_text_agrees_with_std_encoding() {
    for text in ["", "a", "aéèê\n", "\u{1F600}", "\u{FFFF}\u{10000}", "日本語", "a\u{0301}"] {
        let mut expected = units_of(text);
        expected.push(0);
        let wide = WideText::from_str(text).unwrap();
        assert_eq!(wide.as_units(), &expected[..]);
    }
}

#[test]
fn text_round_trips_through_its_wide_form() {
    for text in [
        "",
        "a",
        "aéèê\n",
        "rs-autoit test1",
        "\u{1F600} and \u{10FFFF}",
        "\u{D7FF}\u{E000}\u{FFFF}",
        "日本語のウィンドウ",
    ] {
        let wide = WideText::from_str(text).unwrap();
        assert_eq!(read_text(wide.as_units()), Ok(text.to_string()));
    }
}

#[test]
fn text_round_trips_whatever_follows_the_terminator() {
    let wide = WideText::from_str("aéèê\n").unwrap();
    let mut buffer = wide.as_units().to_vec();
    buffer.extend_from_slice(&[0xDC00, 0x61, 0, 0xD800]);
    assert_eq!(read_text(&buffer), Ok("aéèê\n".to_string()));
}

#[test]
fn buffers_that_agree_up_to_the_nul_read_alike() {
    let a = [0x61, 0xD800, 0, 0x62];
    let b = [0x61, 0xD800, 0];
    assert_eq!(read_text(&a), read_text(&b));
    let a = [0x68, 0x69, 0, 0xFFFF, 0xFFFF];
    let b = [0x68, 0x69, 0, 0, 0, 0, 0];
    assert_eq!(read_text(&a), Ok("hi".to_string()));
    assert_eq!(read_text(&a), read_text(&b));
}

#[test]
fn what_is_read_encodes_to_what_was_held() {
    let buffers: [&[u16]; 6] = [
        &[],
        &[0x61, 0xE9, 0xE8, 0xEA, 0x0A, 0],
        &[0xD83D, 0xDE00, 0, 0x61],
        &[0xD7FF, 0xE000, 0xFFFF],
        &[0xD800, 0xDC00, 0xDBFF, 0xDFFF, 0, 0, 0],
        &[0, 0x61],
    ];
    for buffer in buffers {
        let text = read_text(buffer).unwrap();
        let end = text_end(buffer);
        assert_eq!(units_of(&text), buffer[..end].to_vec());
    }
}
