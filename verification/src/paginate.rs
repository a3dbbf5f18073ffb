//! Turning the pages of a long answer with a pair of buttons.
//!
//! The two buttons of an answer carry the identifier of the command that gave it, so
//! that a press is matched to its answer.

use crate::text::{decimal, decimal_string, same_text, starts_with};
use vstd::prelude::*;
use vstd::string::StringExecFns;

verus! {

/// What a pressed button asks for.
#[derive(Debug, Clone, Copy, PartialEq, Eq, Structural)]
pub enum Press {
    Next,
    Previous,
    /// The button belongs to something else.
    Unrelated,
}

/// The identifier of the button that turns back, for the command `ctx_id`.
pub open spec fn prev_button(ctx_id: u64) -> Seq<char> {
    decimal(ctx_id as nat) + "prev"@
}

/// The identifier of the button that turns forward, for the command `ctx_id`.
pub open spec fn next_button(ctx_id: u64) -> Seq<char> {
    decimal(ctx_id as nat) + "next"@
}

/// Names the button that turns back.
pub fn prev_button_id(ctx_id: u64) -> (id: String)
    ensures
        id@ == prev_button(ctx_id),
{
    let mut id = decimal_string(ctx_id);
    id.append("prev");
    id
}

/// Names the button that turns forward.
pub fn next_button_id(ctx_id: u64) -> (id: String)
    ensures
        id@ == next_button(ctx_id),
{
    let mut id = decimal_string(ctx_id);
    id.append("next");
    id
}

/// Whether a pressed button is watched by the command `ctx_id`: its identifier begins
/// with the command's.
pub fn is_watched(custom_id: &str, ctx_id: u64) -> (b: bool)
    ensures
        b == decimal(ctx_id as nat).is_prefix_of(custom_id@),
{
    starts_with(custom_id, decimal_string(ctx_id).as_str())
}

/// Reads a pressed button.
pub fn read_press(custom_id: &str, ctx_id: u64) -> (press: Press)
    ensures
        press == if custom_id@ == next_button(ctx_id) {
            Press::Next
        } else if custom_id@ == prev_button(ctx_id) {
            Press::Previous
        } else {
            Press::Unrelated
        },
{
    if same_text(custom_id, next_button_id(ctx_id).as_str()) {
        Press::Next
    } else if same_text(custom_id, prev_button_id(ctx_id).as_str()) {
        Press::Previous
    } else {
        Press::Unrelated
    }
}

/// The page shown after a press, among `len` pages: the next page after the last is
/// the first, the page before the first is the last, and an unrelated press turns
/// nothing.
pub open spec fn turned(current: int, len: int, press: Press) -> int {
    match press {
        Press::Next => if current + 1 >= len {
            0
        } else {
            current + 1
        },
        Press::Previous => if current == 0 {
            len - 1
        } else {
            current - 1
        },
        Press::Unrelated => current,
    }
}

/// Turns the page.
pub fn turn(current: usize, len: usize, press: Press) -> (page: usize)
    requires
        current < len,
    ensures
        page == turned(current as int, len as int, press),
        page < len,
{
    match press {
        Press::Next => if current + 1 >= len {
            0
        } else {
            current + 1
        },
        Press::Previous => if current == 0 {
            len - 1
        } else {
            current - 1
        },
        Press::Unrelated => current,
    }
}

/// The footer of a page: its number, counted from one, and the number of pages.
pub open spec fn footer_text(current: nat, len: nat) -> Seq<char> {
    "page "@ + decimal(current + 1) + " out of "@ + decimal(len)
}

/// Writes the footer of the page at `current`.
pub fn page_footer(current: usize, len: usize) -> (footer: String)
    requires
        current < len,
    ensures
        footer@ == footer_text(current as nat, len as nat),
{
    let mut footer = String::from_str("page ");
    footer.append(decimal_string(current as u64 + 1).as_str());
    footer.append(" out of ");
    footer.append(decimal_string(len as u64).as_str());
    footer
}

/// Turning forward and then back, or back and then forward, shows the same page again.
pub proof fn lemma_turns_undo(current: int, len: int)
    requires
        0 <= current < len,
    ensures
        turned(turned(current, len, Press::Next), len, Press::Previous) == current,
        turned(turned(current, len, Press::Previous), len, Press::Next) == current,
        0 <= turned(current, len, Press::Next) < len,
        0 <= turned(current, len, Press::Previous) < len,
{
}

/// After `steps` presses of the forward button the page has moved on by `steps`,
/// counted round the pages.
pub proof fn lemma_turned_forward(current: int, len: int, steps: nat)
    requires
        0 <= current < len,
    ensures
        0 <= turned_forward(current, len, steps) < len,
        turned_forward(current, len, steps) == (current + steps) % len,
    decreases steps,
{
    if steps > 0 {
        lemma_turned_forward(current, len, (steps - 1) as nat);
        let before = turned_forward(current, len, (steps - 1) as nat);
        assert(turned(before, len, Press::Next) == (current + steps) % len) by (nonlinear_arith)
            requires
                0 <= before < len,
                before == (current + steps - 1) % len,
                turned(before, len, Press::Next) == if before + 1 >= len {
                    0
                } else {
                    before + 1
                },
        ;
    } else {
        assert(current % len == current) by (nonlinear_arith)
            requires
                0 <= current < len,
        ;
    }
}

/// Turning forward as many times as there are pages shows the same page again.
pub proof fn lemma_full_circle(current: int, len: int)
    requires
        0 <= current < len,
    ensures
        turned_forward(current, len, len as nat) == current,
{
    lemma_turned_forward(current, len, len as nat);
    assert((current + len) % len == current) by (nonlinear_arith)
        requires
            0 <= current < len,
    ;
}

/// The page shown after `steps` presses of the forward button.
pub open spec fn turned_forward(current: int, len: int, steps: nat) -> int
    decreases steps,
{
    if steps == 0 {
        current
    } else {
        turned(turned_forward(current, len, (steps - 1) as nat), len, Press::Next)
    }
}

} // verus!
