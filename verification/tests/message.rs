use aish_commit::message::{build_messages, cap_diff, floor_char_boundary, postprocess, MAX_DIFF_CHARS};

#[test]
fn prompt_includes_style_language_and_diff() {
    let msgs = build_messages("conventional", "en", "diff --git a/x");
    assert_eq!(msgs[0].role, "system");
    assert!(msgs[0].content.to_lowercase().contains("conventional"));
    assert!(msgs[0].content.contains("en"));
    assert!(msgs[1].content.contains("diff --git a/x"));
}

#[test]
fn strips_code_fences_and_trims() {
    assert_eq!(postprocess("```\nfeat: add x\n```\n"), "feat: add x");
}

#[test]
fn strips_language_tagged_fence() {
    assert_eq!(postprocess("```text\nfix: y\n```"), "fix: y");
}

#[test]
fn rejects_empty_output() {
    assert!(postprocess("   \n  ").is_empty());
}

#[test]
fn bare_fence_becomes_empty() {
    assert!(postprocess("```").is_empty());
    assert!(postprocess("``````").is_empty());
    assert!(postprocess("```\n```").is_empty());
}

#[test]
fn caps_huge_diff() {
    let big = "x".repeat(MAX_DIFF_CHARS + 500);
    let msgs = build_messages("conventional", "en", &big);
    assert!(msgs[1].content.contains("[diff truncated]"));
    assert!(msgs[1].content.len() < MAX_DIFF_CHARS + 200);
}

#[test]
fn caps_huge_diff_on_char_boundary_without_panic() {
    let big = "あ".repeat(MAX_DIFF_CHARS);
    let msgs = build_messages("conventional", "en", &big);
    assert!(msgs[1].content.contains("[diff truncated]"));
}

#[test]
fn system_prompt_exact_text() {
    let msgs = build_messages("plain", "ja", "d");
    assert_eq!(msgs.len(), 2);
    assert_eq!(
        msgs[0].content,
        "You write git commit messages.\nStyle: plain (when 'conventional', use Conventional Commits: \
         `type(scope): subject`, types feat|fix|refactor|docs|test|chore|perf|ci).\nLanguage: ja.\n\
         Output ONLY the commit message. Subject <= 50 chars, imperative mood. No backticks, no \
         explanation, no surrounding quotes."
    );
    assert_eq!(msgs[1].role, "user");
    assert_eq!(msgs[1].content, "Generate a commit message for this staged diff:\n\nd");
}

#[test]
fn diff_that_fits_is_kept_whole() {
    let exact = "y".repeat(MAX_DIFF_CHARS);
    assert_eq!(cap_diff(&exact), exact);
    assert_eq!(cap_diff(""), "");
}

#[test]
fn cut_keeps_longest_fitting_prefix() {
    let big = "x".repeat(MAX_DIFF_CHARS + 1);
    let capped = cap_diff(&big);
    assert_eq!(capped, format!("{}\n[diff truncated]", "x".repeat(MAX_DIFF_CHARS)));
    // three-byte characters: 4000 of them fill exactly 12000 bytes
    let wide = "あ".repeat(MAX_DIFF_CHARS);
    assert_eq!(cap_diff(&wide), format!("{}\n[diff truncated]", "あ".repeat(4000)));
    // a two-byte character straddling the limit is dropped whole
    let mixed = format!("{}é{}", "a".repeat(MAX_DIFF_CHARS - 1), "b");
    assert_eq!(cap_diff(&mixed), format!("{}\n[diff truncated]", "a".repeat(MAX_DIFF_CHARS - 1)));
}

#[test]
fn capped_diff_size_bound() {
    let wide = "😀".repeat(MAX_DIFF_CHARS);
    let capped = cap_diff(&wide);
    assert!(capped.len() <= MAX_DIFF_CHARS + 17);
    assert!(capped.starts_with("😀"));
}

#[test]
fn floor_char_boundary_values() {
    assert_eq!(floor_char_boundary("abc", 10), 3);
    assert_eq!(floor_char_boundary("abc", 1), 1);
    assert_eq!(floor_char_boundary("あい", 4), 3);
    assert_eq!(floor_char_boundary("あい", 2), 0);
    assert_eq!(floor_char_boundary("", 0), 0);
}

#[test]
fn postprocess_keeps_plain_message() {
    assert_eq!(postprocess("  feat: x  "), "feat: x");
    assert_eq!(postprocess("fix: a\n\nbody line"), "fix: a\n\nbody line");
}

#[test]
fn postprocess_rejects_inner_fence() {
    assert_eq!(postprocess("feat: use ``` here"), "");
}

#[test]
fn postprocess_fence_without_newline() {
    // no line break after the opening fence: only the closing fence is cut
    assert_eq!(postprocess("```feat: z```"), "");
    assert_eq!(postprocess("```\u{3000}feat: z\n```"), "");
}

#[test]
fn postprocess_unicode_whitespace_trimmed() {
    assert_eq!(postprocess("\u{3000}\u{a0}feat: w\u{2028}"), "feat: w");
}

#[test]
fn postprocess_is_idempotent_on_examples() {
    for raw in ["```\nfeat: add x\n```\n", "  a  ", "```", "x```y", "```rust\nfn f() {}\n```"] {
        let once = postprocess(raw);
        assert_eq!(postprocess(&once), once);
    }
}
