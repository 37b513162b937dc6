//! The interactive picker, seen from the engine: what is asked of it and how
//! its answer is read. Showing the picker is the caller's part.

use vstd::prelude::*;
use crate::error::{viewed, EngineError};
use crate::text::{join, joined, lemma_joined_is_empty};

verus! {

/// The key that ended a selection.
#[derive(Debug, Clone, Copy, PartialEq, Eq, Structural)]
pub enum FinalKey {
    /// The user accepted what is selected.
    Accept,
    /// The user left with the escape key or an interrupt.
    Abort,
}

/// What the picker hands back.
#[derive(Debug, Clone, PartialEq, Eq)]
pub struct SelectionResult {
    pub selected_items: Vec<String>,
    pub terminal_key: FinalKey,
}

/// What a [`SelectionResult`] holds, as mathematical values.
pub struct SelectionView {
    pub selected_items: Seq<Seq<char>>,
    pub terminal_key: FinalKey,
}

impl View for SelectionResult {
    type V = SelectionView;

    open spec fn view(&self) -> SelectionView {
        SelectionView {
            selected_items: self.selected_items.deep_view(),
            terminal_key: self.terminal_key,
        }
    }
}

impl DeepView for SelectionResult {
    type V = SelectionView;

    open spec fn deep_view(&self) -> SelectionView {
        self@
    }
}

/// What the picker is asked to show.
#[derive(Debug, Clone, PartialEq, Eq)]
pub struct FuzzyPrompt {
    /// The text that the filter starts with.
    pub query: Option<String>,
    /// Whether more than one item may be chosen.
    pub multi: bool,
    /// The text in front of the filter.
    pub prompt: String,
    /// The candidates, one per line.
    pub options: String,
    /// The key bindings, each a key, a colon and an action.
    pub bindings: Vec<String>,
}

/// What a [`FuzzyPrompt`] holds, as mathematical values.
pub struct FuzzyPromptView {
    pub query: Option<Seq<char>>,
    pub multi: bool,
    pub prompt: Seq<char>,
    pub options: Seq<char>,
    pub bindings: Seq<Seq<char>>,
}

impl View for FuzzyPrompt {
    type V = FuzzyPromptView;

    open spec fn view(&self) -> FuzzyPromptView {
        FuzzyPromptView {
            query: self.query.deep_view(),
            multi: self.multi,
            prompt: self.prompt@,
            options: self.options@,
            bindings: self.bindings.deep_view(),
        }
    }
}

impl DeepView for FuzzyPrompt {
    type V = FuzzyPromptView;

    open spec fn deep_view(&self) -> FuzzyPromptView {
        self@
    }
}

/// The key bindings of the picker: enter accepts, escape and an interrupt
/// abort; where several items may be chosen, two more keys toggle all items
/// and one item.
pub open spec fn key_bindings(multi: bool) -> Seq<Seq<char>> {
    if multi {
        seq![
            "esc:abort"@,
            "enter:accept"@,
            "ctrl-c:abort"@,
            "ctrl-a:toggle-all"@,
            "tab:toggle"@,
        ]
    } else {
        seq!["esc:abort"@, "enter:accept"@, "ctrl-c:abort"@]
    }
}

/// The text in front of the filter: the hint in brackets, then ` > `.
pub open spec fn prompt_text(hint: Seq<char>) -> Seq<char> {
    "("@ + hint + ") > "@
}

/// What the picker is asked to show for a list of candidates: nothing where
/// there is no candidate.
pub open spec fn fuzzy_prompt(
    query: Option<Seq<char>>,
    multi: bool,
    hint: Seq<char>,
    options: Seq<char>,
) -> Option<FuzzyPromptView> {
    if options.len() == 0 {
        None
    } else {
        Some(
            FuzzyPromptView {
                query,
                multi,
                prompt: prompt_text(hint),
                options,
                bindings: key_bindings(multi),
            },
        )
    }
}

/// What putting a list of candidates to the picker comes to: the
/// candidates are shown, one per line. Where there is nothing to show, the
/// picker is not asked and the selection fails with the failure that the
/// caller names.
pub open spec fn offer(
    lines: Seq<Seq<char>>,
    query: Option<Seq<char>>,
    multi: bool,
    hint: Seq<char>,
    nothing: EngineError,
) -> Result<FuzzyPromptView, EngineError> {
    match fuzzy_prompt(query, multi, hint, joined(lines, "\n"@)) {
        Some(p) => Ok(p),
        None => Err(nothing),
    }
}

/// There is nothing to show exactly where there is no candidate, or a lone
/// candidate that is the empty text; the selection then fails with the
/// caller's failure, and in every other case the picker is asked.
pub proof fn lemma_offer_fails_without_candidates(
    lines: Seq<Seq<char>>,
    query: Option<Seq<char>>,
    multi: bool,
    hint: Seq<char>,
    nothing: EngineError,
)
    ensures
        offer(lines, query, multi, hint, nothing) is Err <==> lines.len() == 0 || (lines.len() == 1
            && lines[0].len() == 0),
        offer(lines, query, multi, hint, nothing) is Err ==> offer(
            lines,
            query,
            multi,
            hint,
            nothing,
        ) == Err::<FuzzyPromptView, EngineError>(nothing),
{
    reveal_strlit("\n");
    lemma_joined_is_empty(lines, "\n"@);
}

/// How an answer of the picker is read: an abort cancels, an accepted empty
/// selection is a failure, anything else stands.
pub open spec fn final_key_outcome(out: SelectionView) -> Result<(), EngineError> {
    match out.terminal_key {
        FinalKey::Accept => if out.selected_items.len() == 0 {
            Err(EngineError::NothingSelected)
        } else {
            Ok(())
        },
        FinalKey::Abort => Err(EngineError::Aborted),
    }
}

/// Prepares a selection among the candidates of `options`, one per line.
/// Without candidates there is nothing to ask, and nothing is returned.
pub fn get_fuzzy_options(query: Option<String>, multi: bool, hint: String, options: String) -> (r:
    Option<FuzzyPrompt>)
    ensures
        r.deep_view() == fuzzy_prompt(query.deep_view(), multi, hint@, options@),
{
    if options.as_str().is_empty() {
        return None;
    }
    let mut prompt = String::from_str("(");
    prompt.append(hint.as_str());
    prompt.append(") > ");
    let mut bindings: Vec<String> = Vec::new();
    bindings.push(String::from_str("esc:abort"));
    bindings.push(String::from_str("enter:accept"));
    bindings.push(String::from_str("ctrl-c:abort"));
    if multi {
        bindings.push(String::from_str("ctrl-a:toggle-all"));
        bindings.push(String::from_str("tab:toggle"));
    }
    assert(bindings.deep_view() =~= key_bindings(multi));
    Some(FuzzyPrompt { query, multi, prompt, options, bindings })
}

/// Puts a list of candidates to the picker, one per line. Where there is
/// nothing to show, the selection fails with the failure that the caller
/// names.
pub fn offer_lines(
    lines: &Vec<String>,
    query: Option<String>,
    multi: bool,
    hint: &str,
    nothing: EngineError,
) -> (r: Result<FuzzyPrompt, EngineError>)
    ensures
        viewed(r) == offer(lines.deep_view(), query.deep_view(), multi, hint@, nothing),
        r is Err <==> lines.len() == 0 || (lines.len() == 1 && lines[0]@.len() == 0),
        r is Err ==> r == Err::<FuzzyPrompt, EngineError>(nothing),
{
    proof {
        lemma_offer_fails_without_candidates(
            lines.deep_view(),
            query.deep_view(),
            multi,
            hint@,
            nothing,
        );
    }
    match get_fuzzy_options(query, multi, hint.to_owned(), join(lines, "\n")) {
        Some(p) => Ok(p),
        None => Err(nothing),
    }
}

/// Reads the key that ended a selection. An abort cancels the operation; an
/// accepted selection must hold at least one item.
pub fn handle_final_key(out: &SelectionResult) -> (r: Result<(), EngineError>)
    ensures
        r == final_key_outcome(out@),
        r is Ok <==> out.terminal_key == FinalKey::Accept && out.selected_items.len() > 0,
        r == Err::<(), EngineError>(EngineError::Aborted) <==> out.terminal_key == FinalKey::Abort,
{
    match out.terminal_key {
        FinalKey::Accept => {
            if out.selected_items.len() == 0 {
                Err(EngineError::NothingSelected)
            } else {
                Ok(())
            }
        },
        FinalKey::Abort => Err(EngineError::Aborted),
    }
}

} // verus!
