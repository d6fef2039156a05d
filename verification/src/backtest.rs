//! Backtest bookkeeping that does not depend on prices: why a simulated
//! position is closed, and the win/loss counts and streaks of a series
//! of trades.

use vstd::prelude::*;

verus! {

/// How a closed trade ended, by the sign of its profit after commission.
#[derive(Debug, Clone, Copy, PartialEq, Eq, Structural)]
pub enum TradeOutcome {
    /// Positive profit.
    Win,
    /// Negative profit.
    Loss,
    /// Neither positive nor negative.
    Flat,
}

/// Why a simulated position was closed.
#[derive(Debug, Clone, Copy, PartialEq, Eq, Structural)]
pub enum ExitReason {
    StopLoss,
    TakeProfit,
    StrategySignal,
    EndOfBacktest,
}

/// The label a trade records for its exit reason.
pub open spec fn exit_label(r: ExitReason) -> Seq<char> {
    match r {
        ExitReason::StopLoss => "Stop Loss"@,
        ExitReason::TakeProfit => "Take Profit"@,
        ExitReason::StrategySignal => "Strategy Signal"@,
        ExitReason::EndOfBacktest => "End of Backtest"@,
    }
}

impl ExitReason {
    /// The label a trade records for this exit reason.
    pub fn label(&self) -> (r: &'static str)
        ensures
            r@ == exit_label(*self),
    {
        match self {
            ExitReason::StopLoss => "Stop Loss",
            ExitReason::TakeProfit => "Take Profit",
            ExitReason::StrategySignal => "Strategy Signal",
            ExitReason::EndOfBacktest => "End of Backtest",
        }
    }
}

/// Whether an open position is closed at this candle, and why: the stop
/// loss is checked first, then the take profit, then the strategy.
pub fn exit_decision(stop_hit: bool, take_profit_hit: bool, strategy_close: bool) -> (r: Option<
    ExitReason,
>)
    ensures
        r == if stop_hit {
            Some(ExitReason::StopLoss)
        } else if take_profit_hit {
            Some(ExitReason::TakeProfit)
        } else if strategy_close {
            Some(ExitReason::StrategySignal)
        } else {
            None
        },
{
    if stop_hit {
        Some(ExitReason::StopLoss)
    } else if take_profit_hit {
        Some(ExitReason::TakeProfit)
    } else if strategy_close {
        Some(ExitReason::StrategySignal)
    } else {
        None
    }
}

/// For each trade, whether it belongs to the streak kind: a win for win
/// streaks; anything but a win for loss streaks.
pub open spec fn streak_marks(s: Seq<TradeOutcome>, wins: bool) -> Seq<bool> {
    Seq::new(s.len(), |i: int| (s[i] == TradeOutcome::Win) == wins)
}

/// The length of the run of marked items at the end of `s`.
pub open spec fn trailing_run(s: Seq<bool>) -> nat
    decreases s.len(),
{
    if s.len() == 0 || !s.last() {
        0
    } else {
        1 + trailing_run(s.drop_last())
    }
}

/// The length of the longest run of consecutive marked items in `s`.
pub open spec fn longest_run(s: Seq<bool>) -> nat
    decreases s.len(),
{
    if s.len() == 0 {
        0
    } else {
        let before = longest_run(s.drop_last());
        let here = trailing_run(s);
        if here > before {
            here
        } else {
            before
        }
    }
}

/// The number of trades with a given outcome.
pub open spec fn count_outcome(s: Seq<TradeOutcome>, o: TradeOutcome) -> nat
    decreases s.len(),
{
    if s.len() == 0 {
        0
    } else {
        count_outcome(s.drop_last(), o) + if s.last() == o {
            1nat
        } else {
            0nat
        }
    }
}

/// Counts the winning and the losing trades (flat ones are neither).
pub fn outcome_counts(outcomes: &Vec<TradeOutcome>) -> (r: (usize, usize))
    ensures
        r.0 == count_outcome(outcomes@, TradeOutcome::Win),
        r.1 == count_outcome(outcomes@, TradeOutcome::Loss),
{
    let mut wins: usize = 0;
    let mut losses: usize = 0;
    let mut i: usize = 0;
    while i < outcomes.len()
        invariant
            i <= outcomes.len(),
            wins <= i,
            losses <= i,
            wins == count_outcome(outcomes@.take(i as int), TradeOutcome::Win),
            losses == count_outcome(outcomes@.take(i as int), TradeOutcome::Loss),
        decreases outcomes.len() - i,
    {
        assert(outcomes@.take(i + 1).drop_last() =~= outcomes@.take(i as int));
        match outcomes[i] {
            TradeOutcome::Win => {
                wins += 1;
            },
            TradeOutcome::Loss => {
                losses += 1;
            },
            TradeOutcome::Flat => {},
        }
        i += 1;
    }
    assert(outcomes@.take(outcomes.len() as int) =~= outcomes@);
    (wins, losses)
}

proof fn lemma_marks_take(s: Seq<TradeOutcome>, wins: bool, i: int)
    requires
        0 <= i < s.len(),
    ensures
        streak_marks(s.take(i + 1), wins).drop_last() == streak_marks(s.take(i), wins),
        streak_marks(s.take(i + 1), wins).last() == ((s[i] == TradeOutcome::Win) == wins),
        streak_marks(s.take(i + 1), wins).len() > 0,
{
    assert(streak_marks(s.take(i + 1), wins).drop_last() =~= streak_marks(s.take(i), wins));
}

/// The longest streaks of winning trades and of non-winning trades, as
/// (wins, losses).
pub fn consecutive_streaks(outcomes: &Vec<TradeOutcome>) -> (r: (usize, usize))
    ensures
        r.0 == longest_run(streak_marks(outcomes@, true)),
        r.1 == longest_run(streak_marks(outcomes@, false)),
{
    let mut max_wins: usize = 0;
    let mut max_losses: usize = 0;
    let mut current_wins: usize = 0;
    let mut current_losses: usize = 0;
    let mut i: usize = 0;
    while i < outcomes.len()
        invariant
            i <= outcomes.len(),
            current_wins <= i,
            current_losses <= i,
            current_wins == trailing_run(streak_marks(outcomes@.take(i as int), true)),
            current_losses == trailing_run(streak_marks(outcomes@.take(i as int), false)),
            max_wins == longest_run(streak_marks(outcomes@.take(i as int), true)),
            max_losses == longest_run(streak_marks(outcomes@.take(i as int), false)),
        decreases outcomes.len() - i,
    {
        proof {
            lemma_marks_take(outcomes@, true, i as int);
            lemma_marks_take(outcomes@, false, i as int);
        }
        if outcomes[i] == TradeOutcome::Win {
            current_wins += 1;
            current_losses = 0;
            if current_wins > max_wins {
                max_wins = current_wins;
            }
        } else {
            current_losses += 1;
            current_wins = 0;
            if current_losses > max_losses {
                max_losses = current_losses;
            }
        }
        i += 1;
    }
    assert(outcomes@.take(outcomes.len() as int) =~= outcomes@);
    (max_wins, max_losses)
}

/// Whether all of `s[i..j]` are marked.
pub open spec fn all_marked(s: Seq<bool>, i: int, j: int) -> bool {
    forall|k: int| i <= k < j ==> #[trigger] s[k]
}

proof fn lemma_trailing_run(s: Seq<bool>)
    ensures
        trailing_run(s) <= s.len(),
        all_marked(s, s.len() - trailing_run(s), s.len() as int),
        forall|i: int| 0 <= i <= s.len() && all_marked(s, i, s.len() as int) ==> s.len() - i <= trailing_run(s),
    decreases s.len(),
{
    if s.len() > 0 {
        let t = s.drop_last();
        lemma_trailing_run(t);
        assert forall|i: int| 0 <= i <= s.len() && all_marked(s, i, s.len() as int) implies s.len() - i
            <= trailing_run(s) by {
            if i < s.len() {
                assert(s[s.len() - 1]);
                assert(all_marked(t, i, t.len() as int)) by {
                    assert forall|k: int| i <= k < t.len() implies #[trigger] t[k] by {
                        assert(s[k]);
                    }
                }
            }
        }
        if s.last() {
            assert forall|k: int| s.len() - trailing_run(s) <= k < s.len() implies #[trigger] s[k] by {
                if k < s.len() - 1 {
                    assert(t[k]);
                }
            }
        }
    }
}

/// Whether `s` holds a run of `len` marked items starting at `i`.
pub open spec fn streak_at(s: Seq<bool>, i: int, len: nat) -> bool {
    0 <= i && i + len <= s.len() && all_marked(s, i, i + len)
}

/// The longest streak is a streak that occurs, and no streak is longer.
pub proof fn lemma_longest_run_is_longest(s: Seq<bool>)
    ensures
        longest_run(s) <= s.len(),
        exists|i: int| #[trigger] streak_at(s, i, longest_run(s)),
        forall|i: int, j: int| 0 <= i <= j <= s.len() && all_marked(s, i, j) ==> j - i <= longest_run(s),
    decreases s.len(),
{
    if s.len() == 0 {
        assert(streak_at(s, 0, 0));
    } else {
        let t = s.drop_last();
        lemma_longest_run_is_longest(t);
        lemma_trailing_run(s);
        let before = longest_run(t);
        let here = trailing_run(s);
        if here > before {
            assert(streak_at(s, s.len() - here, here));
        } else {
            let i0 = choose|i: int| #[trigger] streak_at(t, i, before);
            assert(streak_at(s, i0, before)) by {
                assert forall|k: int| i0 <= k < i0 + before implies #[trigger] s[k] by {
                    assert(t[k]);
                }
            }
        }
        assert forall|i: int, j: int| 0 <= i <= j <= s.len() && all_marked(s, i, j) implies j - i
            <= longest_run(s) by {
            if j == s.len() {
            } else {
                assert(all_marked(t, i, j)) by {
                    assert forall|k: int| i <= k < j implies #[trigger] t[k] by {
                        assert(s[k]);
                    }
                }
            }
        }
    }
}

/// The number of marked items.
pub open spec fn count_marked(s: Seq<bool>) -> nat
    decreases s.len(),
{
    if s.len() == 0 {
        0
    } else {
        count_marked(s.drop_last()) + if s.last() {
            1nat
        } else {
            0nat
        }
    }
}

proof fn lemma_runs_within_count(s: Seq<bool>)
    ensures
        trailing_run(s) <= count_marked(s),
        longest_run(s) <= count_marked(s),
    decreases s.len(),
{
    if s.len() > 0 {
        lemma_runs_within_count(s.drop_last());
    }
}

proof fn lemma_win_marks_count(s: Seq<TradeOutcome>)
    ensures
        count_marked(streak_marks(s, true)) == count_outcome(s, TradeOutcome::Win),
        count_marked(streak_marks(s, false)) == s.len() - count_outcome(s, TradeOutcome::Win),
        count_outcome(s, TradeOutcome::Win) + count_outcome(s, TradeOutcome::Loss) + count_outcome(
            s,
            TradeOutcome::Flat,
        ) == s.len(),
    decreases s.len(),
{
    if s.len() > 0 {
        lemma_win_marks_count(s.drop_last());
        assert(streak_marks(s, true).drop_last() =~= streak_marks(s.drop_last(), true));
        assert(streak_marks(s, false).drop_last() =~= streak_marks(s.drop_last(), false));
    }
}

/// Wins and losses never outnumber the trades, the longest winning streak
/// is no longer than the number of wins, and the longest losing streak is
/// no longer than the number of trades that were not wins.
pub proof fn lemma_streaks_within_counts(s: Seq<TradeOutcome>)
    ensures
        count_outcome(s, TradeOutcome::Win) + count_outcome(s, TradeOutcome::Loss) <= s.len(),
        longest_run(streak_marks(s, true)) <= count_outcome(s, TradeOutcome::Win),
        longest_run(streak_marks(s, false)) <= s.len() - count_outcome(s, TradeOutcome::Win),
{
    lemma_win_marks_count(s);
    lemma_runs_within_count(streak_marks(s, true));
    lemma_runs_within_count(streak_marks(s, false));
}

} // verus!
