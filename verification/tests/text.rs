use aish_commit::message::postprocess;
use aish_commit::text::{
    chars_of, find_newline, has_fence_in, is_blank_text, is_whitespace, rfind_fence, same_text,
    slice_chars, trim_range, trimmed,
};

#[test]
fn whitespace_matches_std_for_every_char() {
    for u in 0u32..=0x10ffff {
        if let Some(c) = char::from_u32(u) {
            assert_eq!(is_whitespace(c), c.is_whitespace(), "U+{u:04X}");
        }
    }
}

#[test]
fn trim_matches_std() {
    for s in ["", "  ", " a ", "\u{3000}x\u{85}", "a b", "\n\tq\r\n", "\u{200b}z\u{200b}"] {
        assert_eq!(trimmed(s), s.trim());
        assert_eq!(is_blank_text(s), s.trim().is_empty());
    }
}

#[test]
fn char_helpers() {
    let s = "héllo\nwörld```x```";
    let v = chars_of(s);
    assert_eq!(v, s.chars().collect::<Vec<_>>());
    assert_eq!(slice_chars(s, 1, 5), "éllo");
    assert_eq!(find_newline(&v, 0, v.len()), Some(5));
    assert_eq!(find_newline(&v, 6, v.len()), None);
    assert_eq!(rfind_fence(&v, 0, v.len()), Some(15));
    assert_eq!(rfind_fence(&v, 0, 15), Some(11));
    assert_eq!(rfind_fence(&v, 0, 5), None);
    assert!(has_fence_in(&v, 0, v.len()));
    assert!(!has_fence_in(&v, 0, 13));
    assert_eq!(trim_range(&v, 0, 3), (0, 3));
    assert!(same_text(&"abc".to_string(), "abc"));
    assert!(!same_text(&"abc".to_string(), "abd"));
}

#[test]
fn postprocess_result_is_piece_of_reply() {
    for raw in ["```md\n  body text \n```tail", " plain ", "```\nx\n```\n```y"] {
        let out = postprocess(raw);
        assert!(raw.contains(out.as_str()));
        assert_eq!(out.trim(), out);
        assert!(!out.contains("```"));
    }
}

#[test]
fn rfind_prefers_last_overlapping_fence() {
    // "````" holds fences at 0 and 1; the last one starts at 1, as with `str::rfind`
    let v = chars_of("````");
    assert_eq!(rfind_fence(&v, 0, 4), Some(1));
    assert_eq!("````".rfind("```"), Some(1));
    assert_eq!(postprocess("```x\n````"), "`");
    assert_eq!(postprocess("```x\na````"), "a`");
}
