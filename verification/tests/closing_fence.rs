use ruff_markdown::is_closing_code_fence;

#[test]
fn closing_fence_same_fence() {
    assert!(is_closing_code_fence("```", "```"));
    assert!(is_closing_code_fence("~~~", "~~~"));
}

#[test]
fn closing_fence_longer_closes() {
    assert!(is_closing_code_fence("````", "```"));
    assert!(is_closing_code_fence("~~~~~~", "~~~~~"));
}

#[test]
fn closing_fence_shorter_does_not_close() {
    assert!(!is_closing_code_fence("``", "```"));
    assert!(!is_closing_code_fence("````", "`````"));
}

#[test]
fn closing_fence_other_character_does_not_close() {
    assert!(!is_closing_code_fence("~~~", "```"));
    assert!(!is_closing_code_fence("```", "~~~"));
}

#[test]
fn closing_fence_white_space_around() {
    assert!(is_closing_code_fence("   ```  \t ", "```"));
    assert!(is_closing_code_fence("\u{a0}\t```", "```"));
}

#[test]
fn closing_fence_trailing_text_does_not_close() {
    assert!(!is_closing_code_fence("```not_a_close", "```"));
    assert!(!is_closing_code_fence("```\x0C", "```"));
    assert!(!is_closing_code_fence("``` x", "```"));
}

#[test]
fn closing_fence_empty_fence_closes_nothing() {
    assert!(!is_closing_code_fence("", ""));
    assert!(!is_closing_code_fence("```", ""));
}

#[test]
fn closing_fence_counts_fence_bytes() {
    // The fence is compared by its length in bytes.
    assert!(!is_closing_code_fence("```", "``é"));
    assert!(is_closing_code_fence("````", "``é"));
}

#[test]
fn closing_fence_non_ascii_fence_closes_nothing() {
    assert!(!is_closing_code_fence("éé", "é"));
    assert!(!is_closing_code_fence("  é", "é"));
    assert!(!is_closing_code_fence("ééé", "éé"));
}
