//! Decisions of the command-line front end: which mode the program runs
//! in, and whether an answer confirms an action. (Printing and reading
//! the terminal are the program's.)

use vstd::prelude::*;
use vstd::string::*;
use crate::text::text_eq;

verus! {

/// The terminal front end.
pub struct CLI;

/// Whether a (trimmed, lower-cased) answer confirms: `s`, `sim`, `y` or `yes`.
pub open spec fn is_confirmation_spec(answer: Seq<char>) -> bool {
    answer == "s"@ || answer == "sim"@ || answer == "y"@ || answer == "yes"@
}

impl CLI {
    /// Whether an answer to a yes/no question confirms the action. The
    /// answer comes trimmed and in lower case.
    pub fn is_confirmation(answer: &str) -> (r: bool)
        ensures
            r == is_confirmation_spec(answer@),
    {
        text_eq(answer, "s") || text_eq(answer, "sim") || text_eq(answer, "y") || text_eq(answer, "yes")
    }
}

/// The modes the program runs in.
#[derive(Debug, Clone, Copy, PartialEq, Eq, Structural)]
pub enum RunMode {
    Backtest,
    MonteCarlo,
    Live,
    Paper,
}

/// The mode named by the program's first argument; live trading when
/// there is none; `None` for an unknown name.
pub open spec fn run_mode_spec(arg: Option<Seq<char>>) -> Option<RunMode> {
    match arg {
        None => Some(RunMode::Live),
        Some(a) => if a == "backtest"@ {
            Some(RunMode::Backtest)
        } else if a == "monte-carlo"@ {
            Some(RunMode::MonteCarlo)
        } else if a == "live"@ {
            Some(RunMode::Live)
        } else if a == "paper"@ {
            Some(RunMode::Paper)
        } else {
            None
        },
    }
}

impl RunMode {
    /// The mode named by the program's first argument (`backtest`,
    /// `monte-carlo`, `live` or `paper`), live when the argument is missing.
    pub fn from_arg(arg: Option<&str>) -> (r: Option<RunMode>)
        ensures
            r == run_mode_spec(
                match arg {
                    Some(a) => Some(a@),
                    None => None,
                },
            ),
    {
        match arg {
            None => Some(RunMode::Live),
            Some(a) => {
                if text_eq(a, "backtest") {
                    Some(RunMode::Backtest)
                } else if text_eq(a, "monte-carlo") {
                    Some(RunMode::MonteCarlo)
                } else if text_eq(a, "live") {
                    Some(RunMode::Live)
                } else if text_eq(a, "paper") {
                    Some(RunMode::Paper)
                } else {
                    None
                }
            },
        }
    }
}

/// What a choice in the interactive menu leads to.
#[derive(Debug, Clone, Copy, PartialEq, Eq, Structural)]
pub enum MenuAction {
    Backtest,
    MonteCarlo,
    LiveTestnet,
    LiveReal,
    ShowLastBacktest,
    ShowLastMonteCarlo,
    Exit,
    Invalid,
}

/// The action of a (trimmed) menu choice: options "1" to "6", "0" to
/// leave; anything else is invalid.
pub open spec fn menu_action_spec(choice: Seq<char>) -> MenuAction {
    if choice == "1"@ {
        MenuAction::Backtest
    } else if choice == "2"@ {
        MenuAction::MonteCarlo
    } else if choice == "3"@ {
        MenuAction::LiveTestnet
    } else if choice == "4"@ {
        MenuAction::LiveReal
    } else if choice == "5"@ {
        MenuAction::ShowLastBacktest
    } else if choice == "6"@ {
        MenuAction::ShowLastMonteCarlo
    } else if choice == "0"@ {
        MenuAction::Exit
    } else {
        MenuAction::Invalid
    }
}

/// The action of a menu choice.
pub fn menu_action(choice: &str) -> (a: MenuAction)
    ensures
        a == menu_action_spec(choice@),
{
    if text_eq(choice, "1") {
        MenuAction::Backtest
    } else if text_eq(choice, "2") {
        MenuAction::MonteCarlo
    } else if text_eq(choice, "3") {
        MenuAction::LiveTestnet
    } else if text_eq(choice, "4") {
        MenuAction::LiveReal
    } else if text_eq(choice, "5") {
        MenuAction::ShowLastBacktest
    } else if text_eq(choice, "6") {
        MenuAction::ShowLastMonteCarlo
    } else if text_eq(choice, "0") {
        MenuAction::Exit
    } else {
        MenuAction::Invalid
    }
}

/// Whether live trading starts: the first confirmation is always needed;
/// trading with real money needs a second one too.
pub fn live_start_confirmed(real_money: bool, first: bool, second: bool) -> (go: bool)
    ensures
        go == (first && (real_money ==> second)),
        go == live_start_spec(real_money, first, second),
{
    first && (!real_money || second)
}

/// Whether the menu is shown again after an action: after every choice
/// but leaving.
pub fn menu_continues(action: MenuAction) -> (r: bool)
    ensures
        r == (action != MenuAction::Exit),
{
    match action {
        MenuAction::Exit => false,
        _ => true,
    }
}

/// The pause, in seconds, before live trading starts: none on the test
/// network, ten seconds (time to cancel) with real money.
pub fn live_start_delay_seconds(use_testnet: bool) -> (r: u64)
    ensures
        r == if use_testnet {
            0u64
        } else {
            10u64
        },
{
    if use_testnet {
        0
    } else {
        10
    }
}

/// Whether live trading starts after the confirmations given.
pub open spec fn live_start_spec(real_money: bool, first: bool, second: bool) -> bool {
    first && (real_money ==> second)
}

/// Real money is never traded without two confirmations, nothing starts
/// without the first, and the test network needs only the first.
pub proof fn lemma_real_money_needs_two_confirmations(first: bool, second: bool)
    ensures
        live_start_spec(true, first, second) ==> first && second,
        !live_start_spec(true, false, second) && !live_start_spec(false, false, second),
        live_start_spec(false, true, second),
{
}

/// Only the four answers `s`, `sim`, `y` and `yes` confirm; every other
/// answer refuses, among them `n`, `nao`, `não`, `no` and an empty answer.
pub proof fn lemma_only_four_answers_confirm(answer: Seq<char>)
    ensures
        is_confirmation_spec(answer) ==> answer == "s"@ || answer == "sim"@ || answer == "y"@
            || answer == "yes"@,
        is_confirmation_spec("s"@),
        is_confirmation_spec("sim"@),
        is_confirmation_spec("y"@),
        is_confirmation_spec("yes"@),
        !is_confirmation_spec("n"@),
        !is_confirmation_spec("nao"@),
        !is_confirmation_spec("não"@),
        !is_confirmation_spec("no"@),
        !is_confirmation_spec(""@),
{
    reveal_strlit("s");
    reveal_strlit("sim");
    reveal_strlit("y");
    reveal_strlit("yes");
    reveal_strlit("n");
    reveal_strlit("nao");
    reveal_strlit("não");
    reveal_strlit("no");
    reveal_strlit("");
    assert("s"@.len() == 1);
    assert("sim"@.len() == 3);
    assert("y"@.len() == 1);
    assert("yes"@.len() == 3);
    assert("n"@.len() == 1);
    assert("nao"@.len() == 3);
    assert("não"@.len() == 3);
    assert("no"@.len() == 2);
    assert(""@.len() == 0);
    assert("s"@[0] == 's');
    assert("sim"@[0] == 's');
    assert("y"@[0] == 'y');
    assert("yes"@[0] == 'y');
    assert("n"@[0] == 'n');
    assert("nao"@[0] == 'n');
    assert("não"@[0] == 'n');
}

} // verus!
