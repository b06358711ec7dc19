//! Assembling the text that is handed to the model.
//!
//! A prompt is a fixed scaffold with the diff placed in it untouched: a system
//! turn that lays down the rules for the commit message, a user turn that
//! carries the diff in a fenced block, and the marker that opens the
//! assistant's turn. The fence is opened on the line before the diff and
//! closed on a line of its own after it.

use vstd::prelude::*;
use vstd::string::StringExecFns;

verus! {

/// Opens the system turn.
pub const SYSTEM_MARKER: &'static str = "<|system|>\n";

/// The rules that the model is asked to follow for every commit message.
pub const SYSTEM_INSTRUCTIONS: &'static str =
    "You are CommitBot, an expert at crafting precise Conventional Commit messages.\nFollow these rules strictly:\n- Output ONLY the commit message, no preamble or explanation.\n- Use Conventional Commits format: type(scope): summary\n- Add a brief body if helpful.\n- Include \"BREAKING CHANGE: ...\" if applicable.\n- Keep summary to <= 72 chars, present-tense, imperative mood.\n- Derive scope from paths in the diff when possible.\n";

/// The user turn up to the fenced block that holds the diff.
pub const USER_TURN: &'static str =
    "\n<|user|>\nGiven the following unified git diff, write a single Conventional Commit message.\nDo not include code fences. Do not include \"Message:\" or any explanation.\nIf the change is trivial (whitespace/comments), reply with \"chore: minor housekeeping\".\n\nDiff:\n";

/// The line that opens the fenced block; the diff begins right behind it.
pub const FENCE_OPEN: &'static str = "```diff\n";

/// Ends the last line of the diff and closes the fenced block with a line of
/// three backticks.
pub const FENCE_CLOSE: &'static str = "\n```\n";

/// The marker that opens the assistant's turn.
pub const ASSISTANT_MARKER: &'static str = "<|assistant|>";

/// The line that holds the assistant's marker, indented by twelve spaces.
pub const ASSISTANT_TURN: &'static str = "            <|assistant|>\n";

/// Everything that precedes the diff in a prompt.
pub open spec fn prompt_head() -> Seq<char> {
    SYSTEM_MARKER@ + SYSTEM_INSTRUCTIONS@ + USER_TURN@ + FENCE_OPEN@
}

/// Everything that follows the diff in a prompt.
pub open spec fn prompt_tail() -> Seq<char> {
    FENCE_CLOSE@ + ASSISTANT_TURN@
}

/// The prompt for a diff: the head, the diff as it is, the tail.
pub open spec fn prompt_text(diff: Seq<char>) -> Seq<char> {
    prompt_head() + diff + prompt_tail()
}

/// Builds the prompt for `diff`. The diff is neither checked nor escaped.
pub fn build_prompt(diff: &str) -> (prompt: String)
    ensures
        prompt@ == prompt_text(diff@),
{
    let mut prompt = String::from_str(SYSTEM_MARKER);
    prompt.append(SYSTEM_INSTRUCTIONS);
    prompt.append(USER_TURN);
    prompt.append(FENCE_OPEN);
    prompt.append(diff);
    prompt.append(FENCE_CLOSE);
    prompt.append(ASSISTANT_TURN);
    proof {
        assert(prompt@ =~= prompt_text(diff@));
    }
    prompt
}

/// Equal diffs give equal prompts: a prompt depends on nothing but the diff.
pub proof fn lemma_prompt_determined_by_diff(d1: Seq<char>, d2: Seq<char>)
    requires
        d1 == d2,
    ensures
        prompt_text(d1) == prompt_text(d2),
{
}

/// The diff stands in its prompt unchanged, right behind the head, and the
/// prompt is longer than the diff by the length of the scaffold.
pub proof fn lemma_prompt_embeds_diff(diff: Seq<char>)
    ensures
        prompt_text(diff).len() == prompt_head().len() + diff.len() + prompt_tail().len(),
        prompt_text(diff).subrange(
            prompt_head().len() as int,
            (prompt_head().len() + diff.len()) as int,
        ) == diff,
        prompt_text(diff).subrange(0, prompt_head().len() as int) == prompt_head(),
        prompt_text(diff).subrange(
            (prompt_head().len() + diff.len()) as int,
            prompt_text(diff).len() as int,
        ) == prompt_tail(),
{
    let text = prompt_text(diff);
    let start = prompt_head().len() as int;
    assert(text.subrange(start, start + diff.len()) =~= diff);
    assert(text.subrange(0, start) =~= prompt_head());
    assert(text.subrange(start + diff.len(), text.len() as int) =~= prompt_tail());
}

/// Different diffs give different prompts.
pub proof fn lemma_prompt_injective(d1: Seq<char>, d2: Seq<char>)
    requires
        d1 != d2,
    ensures
        prompt_text(d1) != prompt_text(d2),
{
    if prompt_text(d1) == prompt_text(d2) {
        lemma_prompt_embeds_diff(d1);
        lemma_prompt_embeds_diff(d2);
        assert(d1.len() == d2.len());
        assert(d1 == d2);
    }
}

/// Every prompt, that of the empty diff included, holds the whole block of
/// system instructions, right behind the marker that opens the system turn.
pub proof fn lemma_prompt_holds_instructions(diff: Seq<char>)
    ensures
        prompt_text(diff).subrange(0, SYSTEM_MARKER@.len() as int) == SYSTEM_MARKER@,
        prompt_text(diff).subrange(
            SYSTEM_MARKER@.len() as int,
            (SYSTEM_MARKER@.len() + SYSTEM_INSTRUCTIONS@.len()) as int,
        ) == SYSTEM_INSTRUCTIONS@,
        prompt_text(Seq::<char>::empty()) == prompt_head() + prompt_tail(),
{
    let text = prompt_text(diff);
    let start = SYSTEM_MARKER@.len() as int;
    assert(text.subrange(0, start) =~= SYSTEM_MARKER@);
    assert(text.subrange(start, start + SYSTEM_INSTRUCTIONS@.len()) =~= SYSTEM_INSTRUCTIONS@);
    assert(prompt_text(Seq::<char>::empty()) =~= prompt_head() + prompt_tail());
}

/// The diff lies inside a complete fenced block. The line that opens the
/// fence stands directly before the diff. Directly behind the diff come a
/// newline, a line of three backticks, and then the line of the assistant's
/// marker, with which the prompt ends.
pub proof fn lemma_diff_is_fenced(diff: Seq<char>)
    ensures
        FENCE_OPEN@ == seq!['`', '`', '`', 'd', 'i', 'f', 'f', '\n'],
        FENCE_CLOSE@ == seq!['\n', '`', '`', '`', '\n'],
        ASSISTANT_TURN@ == Seq::new(12, |i: int| ' ') + ASSISTANT_MARKER@ + seq!['\n'],
        prompt_text(diff).subrange(
            prompt_head().len() - FENCE_OPEN@.len(),
            prompt_head().len() as int,
        ) == FENCE_OPEN@,
        prompt_text(diff).subrange(
            (prompt_head().len() + diff.len()) as int,
            (prompt_head().len() + diff.len() + FENCE_CLOSE@.len()) as int,
        ) == FENCE_CLOSE@,
        prompt_text(diff).subrange(
            (prompt_head().len() + diff.len() + FENCE_CLOSE@.len()) as int,
            prompt_text(diff).len() as int,
        ) == ASSISTANT_TURN@,
{
    reveal_strlit("```diff\n");
    reveal_strlit("\n```\n");
    reveal_strlit("<|assistant|>");
    reveal_strlit("            <|assistant|>\n");
    let text = prompt_text(diff);
    let start = prompt_head().len() as int;
    let end = start + diff.len();
    let closed = end + FENCE_CLOSE@.len();
    assert(FENCE_OPEN@ =~= seq!['`', '`', '`', 'd', 'i', 'f', 'f', '\n']);
    assert(FENCE_CLOSE@ =~= seq!['\n', '`', '`', '`', '\n']);
    assert(ASSISTANT_TURN@ =~= Seq::new(12, |i: int| ' ') + ASSISTANT_MARKER@ + seq!['\n']);
    assert(text.subrange(start - FENCE_OPEN@.len(), start) =~= FENCE_OPEN@);
    assert(text.subrange(end, closed) =~= FENCE_CLOSE@);
    assert(text.subrange(closed, text.len() as int) =~= ASSISTANT_TURN@);
}

} // verus!
