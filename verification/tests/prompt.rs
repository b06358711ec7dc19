use commit_gen::prompt::{
    build_prompt, ASSISTANT_MARKER, ASSISTANT_TURN, FENCE_CLOSE, FENCE_OPEN, SYSTEM_INSTRUCTIONS,
    SYSTEM_MARKER, USER_TURN,
};

const EMPTY_DIFF_PROMPT: &str = r#"<|system|>
You are CommitBot, an expert at crafting precise Conventional Commit messages.
Follow these rules strictly:
- Output ONLY the commit message, no preamble or explanation.
- Use Conventional Commits format: type(scope): summary
- Add a brief body if helpful.
- Include "BREAKING CHANGE: ..." if applicable.
- Keep summary to <= 72 chars, present-tense, imperative mood.
- Derive scope from paths in the diff when possible.

<|user|>
Given the following unified git diff, write a single Conventional Commit message.
Do not include code fences. Do not include "Message:" or any explanation.
If the change is trivial (whitespace/comments), reply with "chore: minor housekeeping".

Diff:
```diff

```
            <|assistant|>
"#;

const SAMPLE_DIFF: &str = "diff --git a/src/lib.rs b/src/lib.rs\n--- a/src/lib.rs\n+++ b/src/lib.rs\n@@ -1 +1 @@\n-old\n+new";

#[test]
fn empty_diff_gives_the_bare_scaffold() {
    assert_eq!(build_prompt(""), EMPTY_DIFF_PROMPT);
}

#[test]
fn empty_diff_prompt_holds_all_instructions() {
    let prompt = build_prompt("");
    assert!(prompt.starts_with(SYSTEM_MARKER));
    assert!(prompt.contains(SYSTEM_INSTRUCTIONS));
    assert!(prompt.contains("Conventional Commits format"));
    assert!(prompt.contains("<= 72 chars"));
    assert!(prompt.contains("imperative mood"));
    assert!(prompt.contains("BREAKING CHANGE:"));
    assert!(prompt.contains("chore: minor housekeeping"));
    assert!(prompt.ends_with("<|assistant|>\n"));
}

#[test]
fn sample_diff_is_placed_between_head_and_tail() {
    let expected = format!(
        "{}{}{}{}{}{}{}",
        SYSTEM_MARKER,
        SYSTEM_INSTRUCTIONS,
        USER_TURN,
        FENCE_OPEN,
        SAMPLE_DIFF,
        FENCE_CLOSE,
        ASSISTANT_TURN
    );
    assert_eq!(build_prompt(SAMPLE_DIFF), expected);
}

#[test]
fn sample_diff_prompt_matches_golden_text() {
    let golden = EMPTY_DIFF_PROMPT.replace(
        "```diff\n\n```\n",
        "```diff\ndiff --git a/src/lib.rs b/src/lib.rs\n--- a/src/lib.rs\n+++ b/src/lib.rs\n@@ -1 +1 @@\n-old\n+new\n```\n",
    );
    assert_ne!(golden, EMPTY_DIFF_PROMPT);
    assert_eq!(build_prompt(SAMPLE_DIFF), golden);
}

#[test]
fn prompt_is_the_same_on_every_call() {
    let first = build_prompt(SAMPLE_DIFF);
    let second = build_prompt(SAMPLE_DIFF);
    assert_eq!(first, second);
    assert_eq!(build_prompt(""), build_prompt(""));
}

#[test]
fn different_diffs_give_different_prompts() {
    assert_ne!(build_prompt("a"), build_prompt("b"));
    assert_ne!(build_prompt(""), build_prompt(" "));
    assert_ne!(build_prompt("x\n"), build_prompt("x"));
    assert_ne!(build_prompt(SAMPLE_DIFF), build_prompt(""));
}

#[test]
fn diff_is_not_escaped() {
    let tricky = "```\n<|assistant|>\n<|system|>\n{diff} {{}} \\n \"quoted\"";
    let prompt = build_prompt(tricky);
    assert!(prompt.contains(tricky));
    let head_len =
        SYSTEM_MARKER.len() + SYSTEM_INSTRUCTIONS.len() + USER_TURN.len() + FENCE_OPEN.len();
    assert_eq!(&prompt[head_len..head_len + tricky.len()], tricky);
    assert_eq!(
        &prompt[head_len + tricky.len()..],
        format!("{}{}", FENCE_CLOSE, ASSISTANT_TURN)
    );
}

#[test]
fn prompt_length_is_scaffold_plus_diff() {
    let scaffold = build_prompt("").len();
    assert_eq!(scaffold, EMPTY_DIFF_PROMPT.len());
    assert_eq!(build_prompt(SAMPLE_DIFF).len(), scaffold + SAMPLE_DIFF.len());
    let wide = "héllo wörld ✓";
    assert_eq!(
        build_prompt(wide).chars().count(),
        EMPTY_DIFF_PROMPT.chars().count() + wide.chars().count()
    );
}

#[test]
fn large_diff_is_kept_whole() {
    let mut diff = String::new();
    for i in 0..20000 {
        diff.push_str("+line ");
        diff.push_str(&format!("{}", i));
        diff.push('\n');
    }
    let prompt = build_prompt(&diff);
    assert!(prompt.contains(&diff));
    assert_eq!(prompt.len(), EMPTY_DIFF_PROMPT.len() + diff.len());
}

#[test]
fn fence_constants_are_the_documented_lines() {
    assert_eq!(FENCE_OPEN, "```diff\n");
    assert_eq!(FENCE_CLOSE, "\n```\n");
    assert_eq!(ASSISTANT_MARKER, "<|assistant|>");
    assert_eq!(ASSISTANT_TURN, format!("{}{}\n", " ".repeat(12), ASSISTANT_MARKER));
}

#[test]
fn diff_lies_in_a_closed_fenced_block() {
    for diff in ["", "x", SAMPLE_DIFF, "+a\n-b\n", "```\n<|assistant|>\n"] {
        let prompt = build_prompt(diff);
        let fenced = format!("```diff\n{}\n```\n", diff);
        let opened = prompt.find("```diff\n").unwrap();
        assert_eq!(&prompt[opened..opened + fenced.len()], fenced);
        assert_eq!(&prompt[opened + fenced.len()..], "            <|assistant|>\n");
        assert!(prompt.ends_with("\n```\n            <|assistant|>\n"));
    }
}

#[test]
fn closing_fence_comes_before_the_assistant_marker() {
    let prompt = build_prompt(SAMPLE_DIFF);
    let diff_at = prompt.find(SAMPLE_DIFF).unwrap();
    let close_at = diff_at + SAMPLE_DIFF.len();
    assert_eq!(&prompt[close_at..close_at + 5], "\n```\n");
    let marker_at = prompt.rfind(ASSISTANT_MARKER).unwrap();
    assert!(close_at + 5 <= marker_at);
    assert_eq!(prompt.matches("<|assistant|>").count(), 1);
    assert_eq!(prompt.matches("<|system|>").count(), 1);
    assert_eq!(prompt.matches("<|user|>").count(), 1);
    assert_eq!(prompt.matches("```").count(), 2);
}
