//! Order execution decisions: client order ids, the retry policy with
//! exponential back-off, progress while waiting for a fill, and finding
//! an asset's balance. The program performs the requests and the waits;
//! these functions decide what comes next.

use vstd::prelude::*;
use vstd::string::*;
use vstd::arithmetic::power2::{pow2, lemma_pow2_unfold, lemma2_to64, lemma2_to64_rest};
use crate::error::TradingError;
use crate::text::{decimal, u128_to_decimal, text_eq, lemma_decimal_injective};
use crate::types::{OrderStatus, status_name};

verus! {

/// The client order id of an order placed at `millis` milliseconds since
/// the Unix epoch.
pub open spec fn client_order_id_text(millis: nat) -> Seq<char> {
    "robo_"@ + decimal(millis)
}

/// The client order id of an order placed at `millis` milliseconds since
/// the Unix epoch: `robo_` and the decimal timestamp.
pub fn client_order_id(millis: u128) -> (r: String)
    ensures
        r@ == client_order_id_text(millis as nat),
{
    let mut r = String::from_str("robo_");
    let digits = u128_to_decimal(millis);
    r.append(digits.as_str());
    r
}

/// Orders placed at different times get different client order ids, and
/// every id starts with `robo_`.
pub proof fn lemma_client_order_ids_distinct(a: nat, b: nat)
    requires
        a != b,
    ensures
        client_order_id_text(a) != client_order_id_text(b),
        "robo_"@.is_prefix_of(client_order_id_text(a)),
{
    let p = "robo_"@;
    if client_order_id_text(a) == client_order_id_text(b) {
        let da = decimal(a);
        let db = decimal(b);
        assert(client_order_id_text(a).subrange(p.len() as int, client_order_id_text(a).len() as int) =~= da);
        assert(client_order_id_text(b).subrange(p.len() as int, client_order_id_text(b).len() as int) =~= db);
        lemma_decimal_injective(a, b);
    }
    assert(client_order_id_text(a).subrange(0, p.len() as int) =~= p);
}

/// The pause before the next try, in seconds, after `k + 1` failed tries: `2^k`.
pub open spec fn backoff_seconds(k: nat) -> nat
    decreases k,
{
    if k == 0 {
        1
    } else {
        2 * backoff_seconds((k - 1) as nat)
    }
}

proof fn lemma_backoff_monotonic(i: nat, j: nat)
    requires
        i <= j,
    ensures
        backoff_seconds(i) <= backoff_seconds(j),
    decreases j,
{
    if i < j {
        lemma_backoff_monotonic(i, (j - 1) as nat);
    }
}

proof fn lemma_backoff_is_pow2(k: nat)
    ensures
        backoff_seconds(k) == pow2(k),
    decreases k,
{
    if k == 0 {
        lemma2_to64();
    } else {
        lemma_backoff_is_pow2((k - 1) as nat);
        lemma_pow2_unfold(k);
    }
}

/// What to do after a failed try.
#[derive(Debug, Clone, Copy, PartialEq, Eq, Structural)]
pub enum RetryDecision {
    /// Report the failure: the tries are used up.
    GiveUp,
    /// Pause this many seconds, then try again.
    RetryAfter(u64),
}

/// The decision after the `attempts`-th try failed, when at most
/// `max_attempts` tries are allowed (one try is always made).
pub open spec fn retry_decision_spec(attempts: nat, max_attempts: nat) -> RetryDecision {
    if attempts >= max_attempts {
        RetryDecision::GiveUp
    } else {
        RetryDecision::RetryAfter(backoff_seconds((attempts - 1) as nat) as u64)
    }
}

/// Decides what follows the `attempts`-th failed try of an order request:
/// give up once `max_attempts` tries were made, else wait `2^(attempts-1)`
/// seconds and try again.
pub fn retry_decision(attempts: u32, max_attempts: u32) -> (d: RetryDecision)
    requires
        attempts >= 1,
        attempts < max_attempts ==> attempts <= 64,
    ensures
        d == retry_decision_spec(attempts as nat, max_attempts as nat),
        d matches RetryDecision::RetryAfter(w) ==> w == backoff_seconds((attempts - 1) as nat),
{
    if attempts >= max_attempts {
        return RetryDecision::GiveUp;
    }
    let e: u32 = attempts - 1;
    proof {
        lemma_backoff_is_pow2(63);
        lemma2_to64_rest();
    }
    let mut w: u64 = 1;
    let mut i: u32 = 0;
    while i < e
        invariant
            e <= 63,
            i <= e,
            backoff_seconds(63) == 0x8000_0000_0000_0000,
            w == backoff_seconds(i as nat),
        decreases e - i,
    {
        proof {
            lemma_backoff_monotonic((i + 1) as nat, 63);
        }
        w = w * 2;
        i += 1;
    }
    RetryDecision::RetryAfter(w)
}

/// The back-off doubles from one failed try to the next, starting at one second.
pub proof fn lemma_backoff_doubles(k: nat)
    ensures
        backoff_seconds(0) == 1,
        backoff_seconds(k + 1) == 2 * backoff_seconds(k),
{
}

/// A request that keeps failing is tried exactly `max(1, max_attempts)`
/// times: every earlier failure leads to another try, that one to giving up.
pub proof fn lemma_retry_gives_up_at_limit(attempts: nat, max_attempts: nat)
    requires
        attempts >= 1,
    ensures
        (retry_decision_spec(attempts, max_attempts) == RetryDecision::GiveUp) <==> attempts
            >= max_attempts,
        attempts < max_attempts ==> retry_decision_spec(attempts, max_attempts) is RetryAfter,
{
}

/// Where an order stands while the program waits for it to fill.
#[derive(Debug)]
pub enum FillStep {
    /// The order is filled: stop waiting.
    Done,
    /// The order is still open: ask again after a pause.
    KeepWaiting,
    /// The order will not fill: report this error.
    Fail(TradingError),
}

/// The message of an order that ended without filling.
pub open spec fn fill_failure_message(status: OrderStatus) -> Seq<char> {
    "Order failed: "@ + status_name(status)
}

/// Decides, from an order's reported state, whether waiting for its fill
/// is over: filled orders are done; cancelled, rejected and expired ones
/// fail; new, partially filled and pending-cancel ones are waited for.
pub fn fill_step(status: OrderStatus) -> (r: FillStep)
    ensures
        r is Done <==> status == OrderStatus::Filled,
        r is Fail <==> (status == OrderStatus::Canceled || status == OrderStatus::Rejected || status
            == OrderStatus::Expired),
        r is Fail ==> (r matches FillStep::Fail(TradingError::OrderError(m)) && m@
            == fill_failure_message(status)),
{
    match status {
        OrderStatus::Filled => FillStep::Done,
        OrderStatus::Canceled | OrderStatus::Rejected | OrderStatus::Expired => {
            let mut m = String::from_str("Order failed: ");
            m.append(status.name());
            FillStep::Fail(TradingError::OrderError(m))
        },
        _ => FillStep::KeepWaiting,
    }
}

/// The error of an order that did not fill in time.
pub fn fill_timeout_error() -> (e: TradingError)
    ensures
        e matches TradingError::OrderError(m) && m@ == "Order fill timeout"@,
{
    TradingError::OrderError(String::from_str("Order fill timeout"))
}

/// The message of a balance lookup for an asset the account does not hold.
pub open spec fn missing_asset_message(asset: Seq<char>) -> Seq<char> {
    "Asset "@ + asset + " not found in account"@
}

/// Finds the first balance entry of `asset` among the account's assets,
/// in the order the exchange listed them.
pub fn find_asset(assets: &Vec<String>, asset: &str) -> (r: Result<usize, TradingError>)
    ensures
        r matches Ok(i) ==> i < assets.len() && assets@[i as int]@ == asset@ && forall|j: int|
            0 <= j < i ==> assets@[j]@ != asset@,
        r is Err <==> forall|j: int| 0 <= j < assets.len() ==> assets@[j]@ != asset@,
        r is Err ==> (r matches Err(TradingError::ApiError(m)) && m@ == missing_asset_message(
            asset@,
        )),
{
    let mut i: usize = 0;
    while i < assets.len()
        invariant
            i <= assets.len(),
            forall|j: int| 0 <= j < i ==> assets@[j]@ != asset@,
        decreases assets.len() - i,
    {
        if text_eq(assets[i].as_str(), asset) {
            return Ok(i);
        }
        i += 1;
    }
    let mut m = String::from_str("Asset ");
    m.append(asset);
    m.append(" not found in account");
    Err(TradingError::ApiError(m))
}

} // verus!
