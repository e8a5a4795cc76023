use ruff_markdown::blocks::{
    apply_edits, code_kind, find_code_blocks, is_rewrite, write_blocks, CodeBlock, CodeKind,
    Edit,
};
use ruff_markdown::MarkdownResult;

fn summary(blocks: &[CodeBlock]) -> Vec<(String, String, String)> {
    blocks
        .iter()
        .map(|b| (b.indent.clone(), b.language.clone(), b.code.clone()))
        .collect()
}

fn char_slice(s: &str, start: usize, end: usize) -> String {
    s.chars().skip(start).take(end - start).collect()
}

#[test]
fn blocks_basic_and_write_back() {
    let code = "\nThis is poorly formatted code:\n\n```py\nprint( \"hello\" )\n```\n\nMore text.\n        ";
    let blocks = find_code_blocks(code);
    assert_eq!(
        summary(&blocks),
        vec![(String::new(), "py".to_string(), "print( \"hello\" )\n".to_string())]
    );
    assert_eq!(char_slice(code, blocks[0].start, blocks[0].end), blocks[0].code);
    assert_eq!(code_kind(&blocks[0].language), Some(CodeKind::Module));
    assert!(is_rewrite(&blocks[0].code, "print(\"hello\")\n"));
    let result = write_blocks(code, &blocks, &vec![Some("print(\"hello\")\n".to_string())]);
    assert_eq!(
        result,
        MarkdownResult::Formatted(
            "\nThis is poorly formatted code:\n\n```py\nprint(\"hello\")\n```\n\nMore text.\n        "
                .to_string()
        )
    );
}

#[test]
fn blocks_unchanged_when_no_replacement() {
    let code = "\nThis is well formatted code:\n\n```py\nprint(\"hello\")\n```\n\nMore text.\n        ";
    let blocks = find_code_blocks(code);
    assert_eq!(blocks.len(), 1);
    assert!(!is_rewrite(&blocks[0].code, "print(\"hello\")\n"));
    assert_eq!(write_blocks(code, &blocks, &vec![None]), MarkdownResult::Unchanged);
}

#[test]
fn blocks_unlabeled_have_no_kind() {
    let code = "\nThis is poorly formatted code:\n\n```\nprint( \"hello\" )\n```\n        ";
    let blocks = find_code_blocks(code);
    assert_eq!(blocks.len(), 1);
    assert_eq!(blocks[0].language, "");
    assert_eq!(code_kind(&blocks[0].language), None);
}

#[test]
fn blocks_tildes() {
    let code = "\n~~~py\nprint( 'hello' )\n~~~\n        ";
    let blocks = find_code_blocks(code);
    assert_eq!(
        summary(&blocks),
        vec![(String::new(), "py".to_string(), "print( 'hello' )\n".to_string())]
    );
    let result = write_blocks(code, &blocks, &vec![Some("print(\"hello\")\n".to_string())]);
    assert_eq!(
        result,
        MarkdownResult::Formatted("\n~~~py\nprint(\"hello\")\n~~~\n        ".to_string())
    );
}

#[test]
fn blocks_long_fences() {
    let code = "\n````py\nprint( 'hello' )\n````\n~~~~~py\nprint( 'hello' )\n~~~~~\n        ";
    let blocks = find_code_blocks(code);
    assert_eq!(blocks.len(), 2);
    let f = Some("print(\"hello\")\n".to_string());
    let result = write_blocks(code, &blocks, &vec![f.clone(), f]);
    assert_eq!(
        result,
        MarkdownResult::Formatted(
            "\n````py\nprint(\"hello\")\n````\n~~~~~py\nprint(\"hello\")\n~~~~~\n        "
                .to_string()
        )
    );
}

#[test]
fn blocks_longer_closing_fence() {
    let code = "\n```py\nprint( 'hello' )\n````\n        ";
    let blocks = find_code_blocks(code);
    assert_eq!(
        summary(&blocks),
        vec![(String::new(), "py".to_string(), "print( 'hello' )\n".to_string())]
    );
}

#[test]
fn blocks_invalid_closing_fence_info() {
    let code = "\n```py\nprint( 'hello' )\n```not_a_close\nprint( 'world' )\n```\n        ";
    let blocks = find_code_blocks(code);
    assert_eq!(
        summary(&blocks),
        vec![(
            String::new(),
            "py".to_string(),
            "print( 'hello' )\n```not_a_close\nprint( 'world' )\n".to_string()
        )]
    );
}

#[test]
fn blocks_invalid_closing_fence_form_feed() {
    let code = "```py\nprint( 'hello' )\n```\x0C\nprint( 'world' )\n```\n";
    let blocks = find_code_blocks(code);
    assert_eq!(
        summary(&blocks),
        vec![(
            String::new(),
            "py".to_string(),
            "print( 'hello' )\n```\x0C\nprint( 'world' )\n".to_string()
        )]
    );
}

#[test]
fn blocks_nested_fences() {
    let code = "\n````markdown\n```py\nprint( 'hello' )\n```\n````\n        ";
    let blocks = find_code_blocks(code);
    assert_eq!(
        summary(&blocks),
        vec![(
            String::new(),
            "markdown".to_string(),
            "```py\nprint( 'hello' )\n```\n".to_string()
        )]
    );
    assert_eq!(code_kind(&blocks[0].language), None);
}

#[test]
fn blocks_skip_blacken_docs_off() {
    let code = "\n```py\nprint( 'hello' )\n```\n\n<!-- blacken-docs:off -->\n```py\nprint( 'hello' )\n```\n<!-- blacken-docs:on -->\n\n```py\nprint( 'hello' )\n```\n        ";
    let blocks = find_code_blocks(code);
    assert_eq!(blocks.len(), 2);
    let f = Some("print(\"hello\")\n".to_string());
    let result = write_blocks(code, &blocks, &vec![f.clone(), f]);
    assert_eq!(
        result,
        MarkdownResult::Formatted(
            "\n```py\nprint(\"hello\")\n```\n\n<!-- blacken-docs:off -->\n```py\nprint( 'hello' )\n```\n<!-- blacken-docs:on -->\n\n```py\nprint(\"hello\")\n```\n        "
                .to_string()
        )
    );
}

#[test]
fn blocks_skip_fmt_off() {
    let code = "\n```py\nprint( 'hello' )\n```\n\n<!-- fmt:off -->\n```py\nprint( 'hello' )\n```\n<!-- fmt:on -->\n\n```py\nprint( 'hello' )\n```\n        ";
    let blocks = find_code_blocks(code);
    assert_eq!(blocks.len(), 2);
    assert_eq!(char_slice(code, blocks[1].start, blocks[1].end), "print( 'hello' )\n");
}

#[test]
fn blocks_off_to_end() {
    let code = "\n<!-- fmt:off -->\n```py\nprint( 'hello' )\n```\n\n```py\nprint( 'hello' )\n```\n        ";
    let blocks = find_code_blocks(code);
    assert!(blocks.is_empty());
    assert_eq!(write_blocks(code, &blocks, &vec![]), MarkdownResult::Unchanged);
}

#[test]
fn blocks_quarto_braces() {
    let code = "\n```{py}\nprint( 'hello' )\n```\n\n~~~{pyi}\ndef foo(): ...\n\n\ndef bar(): ...\n~~~\n        ";
    let blocks = find_code_blocks(code);
    assert_eq!(blocks.len(), 2);
    assert_eq!(blocks[0].language, "py");
    assert_eq!(blocks[1].language, "pyi");
    assert_eq!(code_kind(&blocks[1].language), Some(CodeKind::Module));
    let result = write_blocks(
        code,
        &blocks,
        &vec![
            Some("print(\"hello\")\n".to_string()),
            Some("def foo(): ...\ndef bar(): ...\n".to_string()),
        ],
    );
    assert_eq!(
        result,
        MarkdownResult::Formatted(
            "\n```{py}\nprint(\"hello\")\n```\n\n~~~{pyi}\ndef foo(): ...\ndef bar(): ...\n~~~\n        "
                .to_string()
        )
    );
}

#[test]
fn blocks_indent_and_language_case() {
    let code = "- item\n  ```PyCon\n  >>> x\n  ```\n";
    let blocks = find_code_blocks(code);
    assert_eq!(
        summary(&blocks),
        vec![("  ".to_string(), "pycon".to_string(), "  >>> x\n".to_string())]
    );
    assert_eq!(code_kind(&blocks[0].language), Some(CodeKind::Console));
}

#[test]
fn blocks_unclosed_is_not_reported() {
    assert!(find_code_blocks("```py\nx = 1\n").is_empty());
}

#[test]
fn code_kinds() {
    for lang in ["python", "py", "python3", "py3", "pyi"] {
        assert_eq!(code_kind(lang), Some(CodeKind::Module));
    }
    assert_eq!(code_kind("pycon"), Some(CodeKind::Console));
    for lang in ["", "Python", "rust", "pyw", "markdown"] {
        assert_eq!(code_kind(lang), None);
    }
}

#[test]
fn edits_applied_in_order() {
    let source = "abcdef";
    let edits = vec![
        Edit { start: 1, end: 2, replacement: "XY".to_string() },
        Edit { start: 4, end: 4, replacement: "-".to_string() },
    ];
    assert_eq!(
        apply_edits(source, &edits),
        MarkdownResult::Formatted("aXYcd-ef".to_string())
    );
    assert_eq!(apply_edits(source, &vec![]), MarkdownResult::Unchanged);
}

#[test]
fn edits_that_restore_text_leave_document() {
    let source = "héllo wörld";
    let edits = vec![Edit { start: 1, end: 4, replacement: "éll".to_string() }];
    assert_eq!(apply_edits(source, &edits), MarkdownResult::Formatted(source.to_string()));
}
