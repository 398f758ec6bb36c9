//! Control statements for entering and leaving a transaction level.
//!
//! Savepoints are named after the depth at which they were created: the
//! savepoint opened by `begin` at depth `d` is `_sqlx_savepoint_d`, and the
//! commit or rollback issued at depth `d + 1` addresses that same name.

use vstd::prelude::*;
use vstd::utf8::is_ascii_chars;

verus! {

/// The decimal digit for `d < 10`.
pub open spec fn digit(d: nat) -> char {
    seq!['0', '1', '2', '3', '4', '5', '6', '7', '8', '9'][d as int]
}

/// The decimal rendering of `n`, without leading zeros.
pub open spec fn decimal(n: nat) -> Seq<char>
    decreases n,
{
    if n < 10 {
        seq![digit(n)]
    } else {
        decimal(n / 10).push(digit(n % 10))
    }
}

/// The name of the savepoint that opens the level above depth `n`.
pub open spec fn savepoint_name(n: nat) -> Seq<char> {
    "_sqlx_savepoint_"@ + decimal(n)
}

/// The statement that `begin` issues at depth `depth`.
pub open spec fn begin_sql(depth: nat) -> Seq<char> {
    if depth == 0 {
        "BEGIN"@
    } else {
        "SAVEPOINT "@ + savepoint_name(depth)
    }
}

/// The statement that `commit` issues at depth `depth` (at least one).
pub open spec fn commit_sql(depth: nat) -> Seq<char> {
    if depth == 1 {
        "COMMIT"@
    } else {
        "RELEASE SAVEPOINT "@ + savepoint_name((depth - 1) as nat)
    }
}

/// The statement that `rollback` issues at depth `depth` (at least one).
pub open spec fn rollback_sql(depth: nat) -> Seq<char> {
    if depth == 1 {
        "ROLLBACK"@
    } else {
        "ROLLBACK TO SAVEPOINT "@ + savepoint_name((depth - 1) as nat)
    }
}

/// Ten to the power `k`.
pub open spec fn pow10(k: nat) -> nat
    decreases k,
{
    if k == 0 {
        1
    } else {
        10 * pow10((k - 1) as nat)
    }
}

proof fn lemma_digit_ascii(d: nat)
    requires
        d < 10,
    ensures
        '0' <= digit(d) <= '9',
{
    let digits = seq!['0', '1', '2', '3', '4', '5', '6', '7', '8', '9'];
    assert(digits[0] == '0' && digits[1] == '1' && digits[2] == '2' && digits[3] == '3' && digits[4]
        == '4' && digits[5] == '5' && digits[6] == '6' && digits[7] == '7' && digits[8] == '8'
        && digits[9] == '9');
}

/// A number below `10^k` has at most `k` decimal digits, all of them ASCII.
pub proof fn lemma_decimal_fits(n: nat, k: nat)
    requires
        1 <= k,
        n < pow10(k),
    ensures
        decimal(n).len() <= k,
        is_ascii_chars(decimal(n)),
    decreases k,
{
    if n < 10 {
        lemma_digit_ascii(n);
    } else {
        if k == 1 {
            assert(pow10(1) == 10) by {
                reveal_with_fuel(pow10, 2);
            }
        }
        let p = pow10((k - 1) as nat);
        assert(n / 10 < p) by (nonlinear_arith)
            requires
                n < 10 * p,
        ;
        lemma_decimal_fits(n / 10, (k - 1) as nat);
        lemma_digit_ascii(n % 10);
        let s = decimal(n);
        assert forall|i: int| 0 <= i < s.len() implies '\0' <= #[trigger] s[i] <= '\u{7f}' by {
            if i < s.len() - 1 {
                assert(s[i] == decimal(n / 10)[i]);
            }
        }
    }
}

/// The rollback statement at any depth that fits in `usize` is ASCII and
/// short.
pub proof fn lemma_rollback_sql_fits(depth: nat)
    requires
        1 <= depth <= usize::MAX,
    ensures
        is_ascii_chars(rollback_sql(depth)),
        rollback_sql(depth).len() <= 64,
{
    reveal_strlit("ROLLBACK");
    reveal_strlit("ROLLBACK TO SAVEPOINT ");
    reveal_strlit("_sqlx_savepoint_");
    if depth > 1 {
        assert(pow10(20) == 100000000000000000000) by {
            reveal_with_fuel(pow10, 21);
        }
        lemma_decimal_fits((depth - 1) as nat, 20);
        let s = rollback_sql(depth);
        let a = "ROLLBACK TO SAVEPOINT "@;
        let b = "_sqlx_savepoint_"@;
        let c = decimal((depth - 1) as nat);
        assert(s =~= a + (b + c));
        assert forall|i: int| 0 <= i < s.len() implies '\0' <= #[trigger] s[i] <= '\u{7f}' by {
            if i < a.len() {
                assert(s[i] == a[i]);
            } else if i < a.len() + b.len() {
                assert(s[i] == b[i - a.len()]);
            } else {
                assert(s[i] == c[i - a.len() - b.len()]);
            }
        }
    }
}

/// Relies on `sqlx_core::transaction::begin_ansi_transaction_sql`:
/// `BEGIN` at depth zero, else `SAVEPOINT _sqlx_savepoint_{depth}`.
#[verifier::external_body]
fn ansi_begin(depth: usize) -> (r: String)
    ensures
        r@ == begin_sql(depth as nat),
{
    sqlx_core::transaction::begin_ansi_transaction_sql(depth).into_owned()
}

/// Relies on `sqlx_core::transaction::commit_ansi_transaction_sql`:
/// `COMMIT` at depth one, else `RELEASE SAVEPOINT _sqlx_savepoint_{depth - 1}`.
/// It subtracts one from `depth`, so depth zero is left out.
#[verifier::external_body]
fn ansi_commit(depth: usize) -> (r: String)
    requires
        depth >= 1,
    ensures
        r@ == commit_sql(depth as nat),
{
    sqlx_core::transaction::commit_ansi_transaction_sql(depth).into_owned()
}

/// Relies on `sqlx_core::transaction::rollback_ansi_transaction_sql`:
/// `ROLLBACK` at depth one, else `ROLLBACK TO SAVEPOINT _sqlx_savepoint_{depth - 1}`.
/// It subtracts one from `depth`, so depth zero is left out.
#[verifier::external_body]
fn ansi_rollback(depth: usize) -> (r: String)
    requires
        depth >= 1,
    ensures
        r@ == rollback_sql(depth as nat),
{
    sqlx_core::transaction::rollback_ansi_transaction_sql(depth).into_owned()
}

/// The statement that opens a new level on top of `depth`: a plain
/// transaction start at depth zero, a savepoint otherwise.
pub fn begin_statement(depth: usize) -> (r: String)
    ensures
        r@ == begin_sql(depth as nat),
{
    ansi_begin(depth)
}

/// The statement that commits the innermost of `depth` levels: a plain
/// commit at depth one, the release of the innermost savepoint otherwise.
pub fn commit_statement(depth: usize) -> (r: String)
    requires
        depth >= 1,
    ensures
        r@ == commit_sql(depth as nat),
{
    ansi_commit(depth)
}

/// The statement that rolls back the innermost of `depth` levels: a plain
/// rollback at depth one, a rollback to the innermost savepoint otherwise.
pub fn rollback_statement(depth: usize) -> (r: String)
    requires
        depth >= 1,
    ensures
        r@ == rollback_sql(depth as nat),
{
    ansi_rollback(depth)
}

} // verus!
