//! The fence and directive recognizers, compared on generated lines with
//! the same grammars written as regular expressions.

use regex::Regex;
use ruff_markdown::fence::{match_directive, match_fence};

const FENCE_PATTERN: &str = r"(?ix)
    ^
    (?<indent>\s*)
    (?<fence>(?:```+|~~~+))\s*
    \{?(?<language>(?:\w+)?)\}?\s*
    (?<info>(?:.*))\s*
    $
";

const DIRECTIVE_PATTERN: &str = r"(?imx)
    ^
    \s*<!--\s*(?:blacken-docs|fmt)\s*:\s*(?<action>off|on)\s*-->
";

const ALPHABET: &[char] = &[
    ' ', ' ', '\t', '\u{a0}', '\u{2028}', '\u{3000}', '\u{b}', '`', '`', '`', '~', '~', '~', '{',
    '}', 'p', 'y', 't', 'h', 'o', 'n', '3', 'P', 'Y', 'T', 'H', 'O', 'N', 'é', 'ñ', '-', '<',
    '!', '>', ':', 'K', 'k', '\u{212a}', 'ſ', 's', 'S', 'f', 'F', 'm', 'M', 'b', 'l', 'a', 'c',
    'e', 'd', '_', '\u{663}', '\u{300}', '\u{2c}', '\u{1f600}', 'x',
];

const PIECES: &[&str] = &[
    "```", "~~~", "````", "<!--", "-->", "fmt", "FMT", "blacken-docs", "blac\u{212a}en-doc\u{17f}",
    "off", "OFF", "on", "On", ":", " ", "python", "py", "{py}", "Python3", "py3", "\u{a0}",
];

struct Lcg(u64);

impl Lcg {
    fn next(&mut self, n: usize) -> usize {
        self.0 = self.0.wrapping_mul(6364136223846793005).wrapping_add(1442695040888963407);
        ((self.0 >> 33) as usize) % n
    }
}

fn generated_lines(count: usize) -> Vec<String> {
    let mut rng = Lcg(0x5eed);
    let mut out = Vec::new();
    for _ in 0..count {
        let mut s = String::new();
        let parts = rng.next(8);
        for _ in 0..parts {
            if rng.next(2) == 0 {
                s.push(ALPHABET[rng.next(ALPHABET.len())]);
            } else {
                s.push_str(PIECES[rng.next(PIECES.len())]);
            }
        }
        out.push(s);
    }
    out
}

#[test]
fn fence_grammar_agrees_with_regex() {
    let re = Regex::new(FENCE_PATTERN).unwrap();
    for line in generated_lines(60000) {
        let chars: Vec<char> = line.chars().collect();
        let expected = re.captures(&line).map(|c| {
            let (_, [indent, fence, language, info]) = c.extract();
            (indent.to_string(), fence.to_string(), language.to_string(), info.to_string())
        });
        let actual = match_fence(&chars).map(|m| {
            (
                chars[..m.indent_end].iter().collect::<String>(),
                chars[m.indent_end..m.fence_end].iter().collect::<String>(),
                chars[m.language_start..m.language_end].iter().collect::<String>(),
                chars[m.info_start..].iter().collect::<String>(),
            )
        });
        assert_eq!(actual, expected, "line {:?}", line);
    }
}

#[test]
fn directive_grammar_agrees_with_regex() {
    let re = Regex::new(DIRECTIVE_PATTERN).unwrap();
    for line in generated_lines(60000) {
        let chars: Vec<char> = line.chars().collect();
        let expected = re.captures(&line).map(|c| c.extract::<1>().1[0].to_string());
        let actual = match_directive(&chars)
            .map(|m| chars[m.action_start..m.action_end].iter().collect::<String>());
        assert_eq!(actual, expected, "line {:?}", line);
    }
}

/// Lines at universal newlines, without their terminators.
fn universal_lines(s: &str) -> Vec<&str> {
    let mut out = Vec::new();
    let b = s.as_bytes();
    let mut start = 0;
    let mut i = 0;
    while i < b.len() {
        if b[i] == b'\n' || b[i] == b'\r' {
            out.push(&s[start..i]);
            if b[i] == b'\r' && i + 1 < b.len() && b[i + 1] == b'\n' {
                i += 1;
            }
            start = i + 1;
        }
        i += 1;
    }
    if start < b.len() {
        out.push(&s[start..]);
    }
    out
}

/// The extraction written with the regular expressions.
fn extraction_model(source: &str, fence_re: &Regex, directive_re: &Regex) -> String {
    let mut output = String::new();
    let mut on = true;
    let lines = universal_lines(source);
    let mut i = 0;
    while i < lines.len() {
        let line = lines[i];
        i += 1;
        if let Some(c) = directive_re.captures(line) {
            let (_, [action]) = c.extract();
            on = match action {
                "off" => false,
                "on" => true,
                _ => on,
            };
            output.push('\n');
            continue;
        }
        if let Some(c) = fence_re.captures(line) {
            let (_, [_, opening, language, _]) = c.extract();
            output.push('\n');
            let lc = language.to_ascii_lowercase();
            let python = on && matches!(lc.as_str(), "python" | "py" | "python3" | "py3");
            while i < lines.len() {
                let code_line = lines[i];
                i += 1;
                if let Some(cc) = fence_re.captures(code_line) {
                    let (_, [_, closing, _, _]) = cc.extract();
                    if closing == opening {
                        output.push('\n');
                        break;
                    }
                }
                if python {
                    output.push_str(code_line);
                }
                output.push('\n');
            }
        } else {
            output.push('\n');
        }
    }
    output
}

const LINE_KINDS: &[&str] = &[
    "```python", "```py", "```", "````", "~~~", "~~~PY3", "  ```{python}", "```rust", "x = 1",
    "", "  ", "<!-- fmt: off -->", "<!-- fmt: on -->", "<!-- blacken-docs:OFF -->", "```py extra",
    "text \u{212a}", "\u{a0}```py", "```pythonx",
];

const TERMINATORS: &[&str] = &["\n", "\r\n", "\r", "\n"];

#[test]
fn extraction_agrees_with_regex_model() {
    let fence_re = Regex::new(FENCE_PATTERN).unwrap();
    let directive_re = Regex::new(DIRECTIVE_PATTERN).unwrap();
    let mut rng = Lcg(0xdec0de);
    for _ in 0..4000 {
        let mut doc = String::new();
        let n = rng.next(10);
        for j in 0..n {
            doc.push_str(LINE_KINDS[rng.next(LINE_KINDS.len())]);
            if j + 1 < n || rng.next(2) == 0 {
                doc.push_str(TERMINATORS[rng.next(TERMINATORS.len())]);
            }
        }
        assert_eq!(
            ruff_markdown::extract_python(&doc),
            extraction_model(&doc, &fence_re, &directive_re),
            "document {:?}",
            doc
        );
    }
}
