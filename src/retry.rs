use vstd::prelude::*;
use vstd::string::*;

verus! {

/// Failed attempts in one batch; the operator is asked after each full batch.
pub const DOWNLOAD_BATCH_SIZE: usize = 5;

/// How many network fetch attempts one run may make.
#[derive(Clone, Copy, Debug, PartialEq, Eq, Structural)]
pub enum DownloadBudget {
    Limited(usize),
    Unlimited,
}

/// What to do before the next fetch attempt.
#[derive(Clone, Copy, Debug, PartialEq, Eq, Structural)]
pub enum RetryStep {
    /// Fetch again.
    Attempt,
    /// A batch has failed: ask the operator, then fetch again.
    ConfirmThenAttempt,
    /// The budget is spent: signal exhaustion.
    GiveUp,
}

/// The decision after `failed` failed attempts.
pub open spec fn retry_step_of(failed: nat, budget: DownloadBudget) -> RetryStep {
    match budget {
        DownloadBudget::Limited(n) if failed >= n => RetryStep::GiveUp,
        _ => if failed > 0 && failed % (DOWNLOAD_BATCH_SIZE as nat) == 0 {
            RetryStep::ConfirmThenAttempt
        } else {
            RetryStep::Attempt
        },
    }
}

/// Decides, from the number of failed attempts so far and the budget, whether to fetch
/// again, to ask the operator first, or to give up.
pub fn retry_step(failed: usize, budget: DownloadBudget) -> (r: RetryStep)
    ensures
        r == retry_step_of(failed as nat, budget),
{
    if let DownloadBudget::Limited(n) = budget {
        if failed >= n {
            return RetryStep::GiveUp;
        }
    }
    if failed > 0 && failed % DOWNLOAD_BATCH_SIZE == 0 {
        RetryStep::ConfirmThenAttempt
    } else {
        RetryStep::Attempt
    }
}

/// The budget for a count given on the command line: none, or the largest count,
/// means no limit.
pub open spec fn budget_for(count: Option<usize>) -> DownloadBudget {
    match count {
        Some(n) if n < usize::MAX => DownloadBudget::Limited(n),
        _ => DownloadBudget::Unlimited,
    }
}

pub fn budget_from_count(count: Option<usize>) -> (r: DownloadBudget)
    ensures
        r == budget_for(count),
{
    match count {
        Some(n) if n < usize::MAX => DownloadBudget::Limited(n),
        _ => DownloadBudget::Unlimited,
    }
}

/// With a budget of `n` and a fetch that always fails, exactly `n` attempts are made:
/// none of the first `n` decisions gives up and the one after `n` failures does. The
/// operator is asked only at the end of a full batch, before the budget is spent.
pub proof fn limited_budget_bounds_attempts(n: usize, failed: nat)
    ensures
        failed < n ==> retry_step_of(failed, DownloadBudget::Limited(n)) != RetryStep::GiveUp,
        failed >= n ==> retry_step_of(failed, DownloadBudget::Limited(n)) == RetryStep::GiveUp,
        retry_step_of(failed, DownloadBudget::Limited(n)) == RetryStep::ConfirmThenAttempt
            <==> (0 < failed < n && failed % 5 == 0),
{
}

/// With no limit, the decision never gives up, and it asks the operator after every
/// fifth failed attempt and only then.
pub proof fn unlimited_budget_never_gives_up(failed: nat)
    ensures
        retry_step_of(failed, DownloadBudget::Unlimited) != RetryStep::GiveUp,
        retry_step_of(failed, DownloadBudget::Unlimited) == RetryStep::ConfirmThenAttempt
            <==> (failed > 0 && failed % 5 == 0),
{
}

pub open spec fn is_digit(c: char) -> bool {
    '0' <= c && c <= '9'
}

/// The number that the decimal digits `s` write.
pub open spec fn decimal_value(s: Seq<char>) -> int
    decreases s.len(),
{
    if s.len() == 0 {
        0
    } else {
        decimal_value(s.drop_last()) * 10 + (s.last() as int - '0' as int)
    }
}

/// The digits of a count: the text without one leading `+`.
pub open spec fn count_digits(s: Seq<char>) -> Seq<char> {
    if s.len() > 0 && s[0] == '+' {
        s.drop_first()
    } else {
        s
    }
}

/// The count that `s` writes: one or more decimal digits, after an optional `+`, whose
/// value fits in `usize`.
pub open spec fn count_of(s: Seq<char>) -> Option<int> {
    let d = count_digits(s);
    if d.len() > 0 && (forall|i: int| 0 <= i < d.len() ==> is_digit(#[trigger] d[i]))
        && decimal_value(d) <= usize::MAX {
        Some(decimal_value(d))
    } else {
        None
    }
}

proof fn decimal_value_grows(d: Seq<char>, i: int, j: int)
    requires
        0 <= i <= j <= d.len(),
        forall|k: int| 0 <= k < d.len() ==> is_digit(#[trigger] d[k]),
    ensures
        decimal_value(d.take(i)) <= decimal_value(d.take(j)),
    decreases j - i,
{
    if i < j {
        decimal_value_grows(d, i, j - 1);
        assert(d.take(j).drop_last() =~= d.take(j - 1));
        assert(is_digit(d[j - 1]));
        assert(decimal_value(d.take(j - 1)) >= 0) by {
            decimal_value_nonneg(d.take(j - 1));
        }
    }
}

proof fn decimal_value_nonneg(d: Seq<char>)
    requires
        forall|k: int| 0 <= k < d.len() ==> is_digit(#[trigger] d[k]),
    ensures
        decimal_value(d) >= 0,
    decreases d.len(),
{
    if d.len() > 0 {
        decimal_value_nonneg(d.drop_last());
        assert(is_digit(d[d.len() - 1]));
    }
}

/// Reads the count of download attempts given on the command line.
pub fn parse_count(arg: &str) -> (r: Option<usize>)
    ensures
        match r {
            Some(n) => count_of(arg@) == Some(n as int),
            None => count_of(arg@) is None,
        },
{
    let len = arg.unicode_len();
    let mut i: usize = 0;
    if len > 0 && arg.get_char(0) == '+' {
        i = 1;
    }
    let start = i;
    let ghost d = count_digits(arg@);
    assert(d =~= arg@.subrange(start as int, len as int));
    if start == len {
        return None;
    }
    let mut value: usize = 0;
    while i < len
        invariant
            start <= i <= len,
            len == arg@.len(),
            d =~= arg@.subrange(start as int, len as int),
            d == count_digits(arg@),
            forall|k: int| 0 <= k < i - start ==> is_digit(#[trigger] d[k]),
            value == decimal_value(d.take(i - start)),
        decreases len - i,
    {
        let c = arg.get_char(i);
        if !('0' <= c && c <= '9') {
            assert(d[i - start] == arg@[i as int]);
            assert(!is_digit(d[i - start]));
            assert(!(forall|k: int| 0 <= k < d.len() ==> is_digit(#[trigger] d[k])));
            return None;
        }
        let digit = (c as u32 - '0' as u32) as usize;
        assert(d[i - start] == c);
        assert(digit == c as int - '0' as int);
        assert(d.take(i + 1 - start).drop_last() =~= d.take(i - start));
        if value > (usize::MAX - digit) / 10 {
            proof {
                assert(value * 10 + digit > usize::MAX) by (nonlinear_arith)
                    requires
                        value > (usize::MAX - digit) / 10,
                        digit <= 9,
                ;
                if forall|k: int| 0 <= k < d.len() ==> is_digit(#[trigger] d[k]) {
                    decimal_value_grows(d, i + 1 - start, d.len() as int);
                    assert(d.take(d.len() as int) =~= d);
                }
            }
            return None;
        }
        assert(value * 10 + digit <= usize::MAX) by (nonlinear_arith)
            requires
                value <= (usize::MAX - digit) / 10,
                digit <= 9,
        ;
        value = value * 10 + digit;
        i = i + 1;
    }
    assert(d.take(len - start) =~= d);
    Some(value)
}

} // verus!
