use crate::utils::text::chars_of;
use vstd::prelude::*;

verus! {

/// The lowercase form of an ASCII uppercase letter; any other character as
/// it is.
pub open spec fn ascii_lowercase(c: char) -> char {
    if 'A' <= c && c <= 'Z' {
        ((c as u32) + 32) as char
    } else {
        c
    }
}

/// `text` with its ASCII uppercase letters made lowercase.
pub open spec fn lowercased(text: Seq<char>) -> Seq<char> {
    text.map_values(|c: char| ascii_lowercase(c))
}

/// What an answer to a yes-or-no question says, whatever its case: `y` and
/// `yes` say yes, `n` and `no` say no, anything else says nothing.
pub open spec fn confirmation(answer: Seq<char>) -> Option<bool> {
    let lower = lowercased(answer);
    if lower == "y"@ || lower == "yes"@ {
        Some(true)
    } else if lower == "n"@ || lower == "no"@ {
        Some(false)
    } else {
        None
    }
}

/// What the main menu offers.
#[derive(Clone, Copy, Debug, PartialEq, Eq, Structural)]
pub enum MenuChoice {
    CreateAccount,
    Login,
    ShowStats,
    Exit,
}

/// The entry of the main menu that `input` picks: `1` to `4`, nothing else.
pub open spec fn menu_choice(input: Seq<char>) -> Option<MenuChoice> {
    if input == "1"@ {
        Some(MenuChoice::CreateAccount)
    } else if input == "2"@ {
        Some(MenuChoice::Login)
    } else if input == "3"@ {
        Some(MenuChoice::ShowStats)
    } else if input == "4"@ {
        Some(MenuChoice::Exit)
    } else {
        None
    }
}

/// Tells whether `c`, made lowercase where it is an ASCII uppercase letter,
/// is `wanted`.
fn is_ignoring_case(c: char, wanted: char) -> (same: bool)
    ensures
        same == (ascii_lowercase(c) == wanted),
{
    if c >= 'A' && c <= 'Z' {
        c as u32 + 32 == wanted as u32
    } else {
        c == wanted
    }
}

/// Tells whether `text`, with its ASCII uppercase letters made lowercase,
/// reads `word`.
fn reads_ignoring_case(text: &Vec<char>, word: &str) -> (same: bool)
    ensures
        same == (lowercased(text@) == word@),
{
    let wanted = chars_of(word);
    if text.len() != wanted.len() {
        return false;
    }
    let mut i: usize = 0;
    while i < text.len()
        invariant
            i <= text.len(),
            text.len() == wanted.len(),
            wanted@ == word@,
            forall|j: int| 0 <= j < i ==> ascii_lowercase(text@[j]) == wanted@[j],
        decreases text.len() - i,
    {
        if !is_ignoring_case(text[i], wanted[i]) {
            assert(lowercased(text@)[i as int] != word@[i as int]);
            return false;
        }
        i += 1;
    }
    assert(lowercased(text@) =~= word@);
    true
}

/// Tells whether `text` reads `word`.
fn reads(text: &Vec<char>, word: &str) -> (same: bool)
    ensures
        same == (text@ == word@),
{
    let wanted = chars_of(word);
    if text.len() != wanted.len() {
        return false;
    }
    let mut i: usize = 0;
    while i < text.len()
        invariant
            i <= text.len(),
            text.len() == wanted.len(),
            wanted@ == word@,
            forall|j: int| 0 <= j < i ==> text@[j] == wanted@[j],
        decreases text.len() - i,
    {
        if text[i] != wanted[i] {
            assert(text@[i as int] != word@[i as int]);
            return false;
        }
        i += 1;
    }
    assert(text@ =~= word@);
    true
}

/// The decisions of the text interface. Reading and printing are left to
/// the program around the library.
pub struct CLI;

impl CLI {
    /// Reads an answer to a yes-or-no question. `None` means that the
    /// question is to be asked again.
    pub fn confirm_action(answer: &str) -> (decision: Option<bool>)
        ensures
            decision == confirmation(answer@),
    {
        let answer = chars_of(answer);
        if reads_ignoring_case(&answer, "y") || reads_ignoring_case(&answer, "yes") {
            Some(true)
        } else if reads_ignoring_case(&answer, "n") || reads_ignoring_case(&answer, "no") {
            Some(false)
        } else {
            None
        }
    }

    /// Reads a choice from the main menu. `None` means that the choice is
    /// not on the menu.
    pub fn menu_choice(input: &str) -> (choice: Option<MenuChoice>)
        ensures
            choice == menu_choice(input@),
    {
        let input = chars_of(input);
        if reads(&input, "1") {
            Some(MenuChoice::CreateAccount)
        } else if reads(&input, "2") {
            Some(MenuChoice::Login)
        } else if reads(&input, "3") {
            Some(MenuChoice::ShowStats)
        } else if reads(&input, "4") {
            Some(MenuChoice::Exit)
        } else {
            None
        }
    }
}

} // verus!
