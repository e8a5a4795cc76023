# ruff_markdown

Python code in Markdown documents: extraction of the code of fenced
Python blocks, line for line, and the line-level logic for formatting such
blocks, verified with Verus.

- `src/unicode.rs`: the white-space and word-character classes.
- `src/lines.rs`: splitting text into lines at `\n`, `\r\n` and `\r`.
- `src/fence.rs`: the fence-line and directive grammars, and the closing
  rule for fences.
- `src/extract.rs`: `extract_python` and the laws about its output.
- `src/blocks.rs`: finding the blocks to format and writing new code back.
- `src/pycon.rs`: the prompts of Python console sessions.
- `app/lib.rs`: `format_code_blocks`, which joins these with Ruff's
  formatter, settings and text-wrapping helpers.
