use ruff_markdown::blocks::{find_code_blocks, write_blocks};
use ruff_markdown::pycon::{find_prompts, prompted, prompts_split_char, rebuild_console};
use ruff_markdown::MarkdownResult;

const SESSION: &str = ">>> print( 'hello there' )\nhello there\n>>> def foo(): pass\n>>> def bar():\n...   print( 'thing1', \"thing2\", )\n...\n... bar()\n...\nthing1 thing2\n";

#[test]
fn console_prompts() {
    let prompts = find_prompts(SESSION);
    let codes: Vec<&str> = prompts.iter().map(|p| p.code.as_str()).collect();
    assert_eq!(
        codes,
        vec![
            "print( 'hello there' )\n",
            "def foo(): pass\n",
            "def bar():\n  print( 'thing1', \"thing2\", )\n\nbar()\n\n",
        ]
    );
    let spans: Vec<(usize, usize)> = prompts.iter().map(|p| (p.start, p.end)).collect();
    assert_eq!(spans[0], (0, 27));
    assert!(!prompts_split_char(SESSION));
}

#[test]
fn console_prompted_markers() {
    assert_eq!(prompted("a\n\nb\n"), ">>> a\n...\n... b\n");
    assert_eq!(prompted(""), "");
    assert_eq!(prompted("x"), ">>> x");
}

#[test]
fn console_rebuild_python_console() {
    let prompts = find_prompts(SESSION);
    let results = vec![
        Some("print(\"hello there\")\n".to_string()),
        Some("def foo():\n    pass\n".to_string()),
        Some(
            "def bar():\n    print(\n        \"thing1\",\n        \"thing2\",\n    )\n\n\nbar()\n"
                .to_string(),
        ),
    ];
    let rebuilt = rebuild_console(SESSION, &prompts, &results).unwrap();
    let expected = ">>> print(\"hello there\")\nhello there\n>>> def foo():\n...     pass\n>>> def bar():\n...     print(\n...         \"thing1\",\n...         \"thing2\",\n...     )\n...\n...\n... bar()\nthing1 thing2\n";
    assert_eq!(rebuilt, expected);

    let doc = format!("\n```pycon\n{}```\n        ", SESSION);
    let blocks = find_code_blocks(&doc);
    assert_eq!(blocks.len(), 1);
    assert_eq!(blocks[0].code, SESSION);
    assert_eq!(
        write_blocks(&doc, &blocks, &vec![Some(rebuilt)]),
        MarkdownResult::Formatted(format!("\n```pycon\n{}```\n        ", expected))
    );
}

#[test]
fn console_rebuild_nothing_changed() {
    let prompts = find_prompts(SESSION);
    let same: Vec<Option<String>> = prompts.iter().map(|p| Some(p.code.clone())).collect();
    assert_eq!(rebuild_console(SESSION, &prompts, &same), None);
    let failed: Vec<Option<String>> = prompts.iter().map(|_| None).collect();
    assert_eq!(rebuild_console(SESSION, &prompts, &failed), None);
}

#[test]
fn console_continuation_needs_a_prompt() {
    let prompts = find_prompts("... x\n>>> y\n...z\n");
    assert_eq!(prompts.len(), 1);
    assert_eq!(prompts[0].code, "y\n\n");
}

#[test]
fn console_continuation_splitting_a_character() {
    assert!(prompts_split_char(">>> a\n...é\n"));
    assert!(!prompts_split_char(">>> a\n... é\n"));
    assert!(!prompts_split_char("...é\n"));
}
