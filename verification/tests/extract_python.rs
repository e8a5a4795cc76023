use ruff_markdown::extract::extract_python;

#[test]
fn extract_python_basic() {
    let code = "Intro line.\n\n```python\nx = 1\n```\n\nMore text.\n";
    assert_eq!(extract_python(code), "\n\n\nx = 1\n\n\n\n");
}

#[test]
fn extract_python_multiple_blocks() {
    let code =
        "# Heading\n\n```python\na = 1\n```\n\nProse.\n\n```py\nb = 2\nc = 3\n```\nEnd.\n";
    assert_eq!(
        extract_python(code),
        "\n\n\na = 1\n\n\n\n\n\nb = 2\nc = 3\n\n\n"
    );
}

#[test]
fn extract_python_non_python_blocks_ignored() {
    let code = "```rust\nfn main() {}\n```\n```python\nz = 9\n```\n";
    assert_eq!(extract_python(code), "\n\n\n\nz = 9\n\n");
}

#[test]
fn extract_python_no_blocks() {
    let code = "Just prose.\nMore prose.\n";
    assert_eq!(extract_python(code), "\n\n");
}

#[test]
fn extract_python_respects_off_directive() {
    let code =
        "<!-- fmt: off -->\n```python\nx = 1\n```\n<!-- fmt: on -->\n```python\ny = 2\n```\n";
    assert_eq!(extract_python(code), "\n\n\n\n\n\ny = 2\n\n");
}

#[test]
fn extract_python_empty_document() {
    assert_eq!(extract_python(""), "");
}

#[test]
fn extract_python_last_line_without_newline() {
    assert_eq!(extract_python("```py\nx = 1"), "\nx = 1\n");
}

#[test]
fn extract_python_crlf_and_cr_line_endings() {
    let code = "```python\r\na = 1\r\nb = 2\r```\rtext";
    assert_eq!(extract_python(code), "\na = 1\nb = 2\n\n\n");
}

#[test]
fn extract_python_language_case_and_braces() {
    let code = "```PyThOn3\na\n```\n~~~{py3}\nb\n~~~\n```Py3-extra\nc\n```\n";
    assert_eq!(extract_python(code), "\na\n\n\nb\n\n\nc\n\n");
}

#[test]
fn extract_python_language_must_be_whole_word() {
    let code = "```pythonic\na\n```\n```python_3\nb\n```\n```pyé\nc\n```\n";
    assert_eq!(extract_python(code), "\n\n\n\n\n\n\n\n\n");
}

#[test]
fn extract_python_closing_fence_must_be_equal() {
    let code = "```py\na\n````\n~~~\n```\nb\n";
    assert_eq!(extract_python(code), "\na\n````\n~~~\n\n\n");
}

#[test]
fn extract_python_closing_fence_may_carry_text() {
    let code = "```py\na\n  ```not a close\nb\n";
    assert_eq!(extract_python(code), "\na\n\n\n");
}

#[test]
fn extract_python_indented_fences() {
    let code = "  ```python\n  x = 1\n  ```\n";
    assert_eq!(extract_python(code), "\n  x = 1\n\n");
}

#[test]
fn extract_python_unclosed_block_runs_to_end() {
    let code = "```py\na\nb\n";
    assert_eq!(extract_python(code), "\na\nb\n");
}

#[test]
fn extract_python_directive_inside_block_is_code() {
    let code = "```py\n<!-- fmt: off -->\n```\n```py\nx\n```\n";
    assert_eq!(extract_python(code), "\n<!-- fmt: off -->\n\n\nx\n\n");
}

#[test]
fn extract_python_directive_variants() {
    let code = "<!--blacken-docs:off-->\n```py\na\n```\n<!-- BLACKEN-DOCS : on --> trailing\n```py\nb\n```\n";
    assert_eq!(extract_python(code), "\n\n\n\n\n\nb\n\n");
    let code = "<!-- fmt: OFF -->\n```py\na\n```\n";
    assert_eq!(extract_python(code), "\n\na\n\n");
    let code = "<!-- fmt:off -->\n<!-- fmt:on -->\n```py\na\n```\n";
    assert_eq!(extract_python(code), "\n\n\na\n\n");
}

#[test]
fn extract_python_unicode_case_folding_in_directive() {
    // The Kelvin sign folds to `k` and the long s to `s`.
    let code = "<!-- blac\u{212a}en-doc\u{17f}: off -->\n```py\na\n```\n";
    assert_eq!(extract_python(code), "\n\n\n\n");
}

#[test]
fn extract_python_keeps_line_count() {
    let docs = [
        "a\n```py\nb\r\nc\r```\n\n\nd",
        "\n\n\n",
        "```py\n\n\n```",
        "x\r\r\ny\n",
    ];
    for doc in docs {
        let out = extract_python(doc);
        let in_lines: Vec<&str> = doc.split_inclusive(['\n', '\r']).collect();
        let n_in = doc
            .replace("\r\n", "\n")
            .replace('\r', "\n")
            .split_inclusive('\n')
            .count();
        assert!(in_lines.len() >= n_in);
        assert_eq!(out.matches('\n').count(), n_in, "document {:?}", doc);
        assert!(out.chars().all(|c| c != '\r'));
    }
}

#[test]
fn extract_python_same_for_every_line_ending() {
    let docs = [
        "Intro line.\n\n```python\nx = 1\n```\n\nMore text.\n",
        "<!-- fmt: off -->\n```python\nx = 1\n```\n<!-- fmt: on -->\n```python\ny = 2\n```\n",
        "```py\n\n\na\n```\nb",
        "\n\n```py\n",
    ];
    for doc in docs {
        let expected = extract_python(doc);
        assert_eq!(extract_python(&doc.replace('\n', "\r\n")), expected);
        assert_eq!(extract_python(&doc.replace('\n', "\r")), expected);
    }
}
