//! The faucet pallet: rate-limited token grants from a pooled account.
//!
//! Each account may draw at most `faucet_amount` tokens per accumulation
//! period; draws within a period add up, and a draw that would push the
//! accumulated total past the cap is refused. The actual token transfers
//! are the host's (they live in another pallet); this module makes every
//! decision and keeps the per-account request records.

use vstd::prelude::*;

use crate::sat_sub;
use crate::transaction::{
    InvalidTransaction, Origin, ProvidesTag, RuntimeCall, TransactionSource, TransactionValidity,
    ValidTransaction,
};

verus! {

/// Per-deployment constants of the faucet.
#[derive(Clone, Copy, Debug, PartialEq, Eq, Structural)]
pub struct Config {
    /// Blocks after which an account's drawn total resets.
    pub accumulation_period: u64,
    /// Most tokens one account may draw within one period.
    pub faucet_amount: u64,
    /// The faucet's own pooled account, fixed by the deployment (a chain
    /// reads it off the pallet's identifier).
    pub pallet_account: u64,
}

impl Config {
    /// Well-formed: small enough that accumulating one more grant onto a
    /// capped balance cannot overflow.
    pub open spec fn wf(&self) -> bool {
        self.faucet_amount <= u64::MAX / 2
    }
}

/// One account's request record: what it has drawn in the current period,
/// and when that period started.
#[derive(Clone, Copy, Debug, PartialEq, Eq, Structural)]
pub struct FaucetRecord {
    /// The account that drew from the faucet.
    pub account: u64,
    /// Tokens drawn within the current accumulation period.
    pub balance: u64,
    /// Block number the current period is measured from.
    pub last_time: u64,
}

/// Errors of the faucet dispatchables.
#[derive(Clone, Copy, Debug, PartialEq, Eq, Structural)]
pub enum Error {
    /// A single draw larger than the faucet amount.
    AmountTooHigh,
    /// The draw would push the period's total past the faucet amount.
    RequestLimitExceeded,
    /// The faucet account itself holds too little.
    NotEnoughFaucetBalance,
}

/// What a faucet dispatch can fail with.
#[derive(Clone, Copy, Debug, PartialEq, Eq, Structural)]
pub enum DispatchError {
    /// The call came under an origin it refuses.
    BadOrigin,
    /// A pallet error.
    Module(Error),
}

/// An approved draw: the transfer the host must perform, and the record
/// to store once it succeeded.
#[derive(Clone, Copy, Debug, PartialEq, Eq, Structural)]
pub struct FaucetGrant {
    /// Receiving account.
    pub dest: u64,
    /// Tokens to move from the faucet account to `dest`.
    pub amount: u64,
    /// The period total to record for `dest` afterwards.
    pub total: u64,
    /// The period start to record for `dest` afterwards.
    pub stamp: u64,
}

/// The record stored for account `a`: `(balance, last_time)`, defaulting
/// to `(0, 0)` for an account that never drew.
pub open spec fn request_of(s: Seq<FaucetRecord>, a: u64) -> (u64, u64)
    decreases s.len(),
{
    if s.len() == 0 {
        (0u64, 0u64)
    } else if s.last().account == a {
        (s.last().balance, s.last().last_time)
    } else {
        request_of(s.drop_last(), a)
    }
}

/// No two records belong to the same account.
pub open spec fn unique_accounts(s: Seq<FaucetRecord>) -> bool {
    forall|j: int, k: int|
        0 <= j < k < s.len() ==> (#[trigger] s[j]).account != (#[trigger] s[k]).account
}

/// The faucet pallet's state: its configuration and the request records.
#[derive(Debug, Clone, PartialEq, Eq)]
pub struct Pallet {
    /// The deployment's constants.
    pub config: Config,
    /// One record per account that ever drew.
    pub last_requests: Vec<FaucetRecord>,
}

impl Pallet {
    /// Well-formedness: the configuration admits no overflow, each account
    /// has one record, and no recorded total exceeds the cap.
    pub open spec fn wf(&self) -> bool {
        &&& self.config.wf()
        &&& unique_accounts(self.last_requests@)
        &&& forall|j: int|
            0 <= j < self.last_requests@.len() ==> (#[trigger] self.last_requests@[j]).balance
                <= self.config.faucet_amount
    }

    /// Genesis state: no recorded requests.
    pub fn new(config: Config) -> (p: Pallet)
        requires
            config.wf(),
        ensures
            p.wf(),
            p.config == config,
            p.last_requests@ == Seq::<FaucetRecord>::empty(),
    {
        Pallet { config, last_requests: Vec::new() }
    }

    /// The account the faucet grants from and is refilled into.
    pub fn account_id(&self) -> (r: u64)
        ensures
            r == self.config.pallet_account,
    {
        self.config.pallet_account
    }

    /// The stored request record of `who`, `(0, 0)` if there is none.
    pub fn last_request(&self, who: u64) -> (r: (u64, u64))
        requires
            unique_accounts(self.last_requests@),
        ensures
            r == request_of(self.last_requests@, who),
    {
        let n = self.last_requests.len();
        let mut j: usize = 0;
        while j < n
            invariant
                unique_accounts(self.last_requests@),
                n == self.last_requests@.len(),
                0 <= j <= n,
                forall|t: int| 0 <= t < j ==> (#[trigger] self.last_requests@[t]).account != who,
            decreases n - j,
        {
            let rec = &self.last_requests[j];
            if rec.account == who {
                proof {
                    lemma_request_of_agrees(self.last_requests@, who, j as int);
                }
                return (rec.balance, rec.last_time);
            }
            j += 1;
        }
        proof {
            lemma_request_of_absent(self.last_requests@, who);
        }
        (0, 0)
    }

    /// The faucet draw: all checks of the dispatchable, up to the token
    /// transfer itself, which the host performs with the returned grant.
    /// Afterwards the host records the grant with [`Self::record_grant`].
    ///
    /// The draw must come unsigned (the pool's validator admits it), must
    /// not exceed the faucet amount on its own or accumulated with what
    /// `dest` already drew this period, and must be covered by the faucet
    /// account's balance `faucet_balance` at block `now`.
    pub fn token_faucet(&self, origin: Origin, dest: u64, amount: u64, now: u64, faucet_balance: u64)
        -> (r: Result<FaucetGrant, DispatchError>)
        requires
            self.wf(),
        ensures
            !(origin matches Origin::Unsigned) ==> r == Err::<FaucetGrant, DispatchError>(
                DispatchError::BadOrigin,
            ),
            origin matches Origin::Unsigned && amount > self.config.faucet_amount ==> r == Err::<
                FaucetGrant,
                DispatchError,
            >(DispatchError::Module(Error::AmountTooHigh)),
            origin matches Origin::Unsigned && amount <= self.config.faucet_amount ==> ({
                let (balance, last_time) = request_of(self.last_requests@, dest);
                let fresh = sat_sub(now, last_time) >= self.config.accumulation_period;
                let total: int = if fresh {
                    amount as int
                } else {
                    balance + amount
                };
                let stamp = if fresh {
                    now
                } else {
                    last_time
                };
                &&& total > self.config.faucet_amount ==> r == Err::<FaucetGrant, DispatchError>(
                    DispatchError::Module(Error::RequestLimitExceeded),
                )
                &&& total <= self.config.faucet_amount && faucet_balance < amount ==> r == Err::<
                    FaucetGrant,
                    DispatchError,
                >(DispatchError::Module(Error::NotEnoughFaucetBalance))
                &&& total <= self.config.faucet_amount && faucet_balance >= amount ==> r == Ok::<
                    FaucetGrant,
                    DispatchError,
                >(FaucetGrant { dest, amount, total: total as u64, stamp })
            }),
    {
        match origin {
            Origin::Unsigned => {},
            _ => {
                return Err(DispatchError::BadOrigin);
            },
        }
        if amount > self.config.faucet_amount {
            return Err(DispatchError::Module(Error::AmountTooHigh));
        }
        let (balance, last_time) = self.last_request(dest);
        proof {
            lemma_request_balance_bounded(self.last_requests@, dest, self.config.faucet_amount);
        }
        let period = if now >= last_time {
            now - last_time
        } else {
            0
        };
        let (total, stamp) = if period >= self.config.accumulation_period {
            (amount, now)
        } else {
            (balance + amount, last_time)
        };
        if total > self.config.faucet_amount {
            return Err(DispatchError::Module(Error::RequestLimitExceeded));
        }
        if faucet_balance < amount {
            return Err(DispatchError::Module(Error::NotEnoughFaucetBalance));
        }
        Ok(FaucetGrant { dest, amount, total, stamp })
    }

    /// Record a performed grant: the receiving account's record becomes
    /// `(total, stamp)`; every other account's record is untouched.
    pub fn record_grant(&mut self, grant: FaucetGrant)
        requires
            old(self).wf(),
            grant.total <= old(self).config.faucet_amount,
        ensures
            final(self).wf(),
            final(self).config == old(self).config,
            request_of(final(self).last_requests@, grant.dest) == (grant.total, grant.stamp),
            forall|a: u64|
                a != grant.dest ==> request_of(final(self).last_requests@, a) == request_of(
                    old(self).last_requests@,
                    a,
                ),
    {
        let rec = FaucetRecord { account: grant.dest, balance: grant.total, last_time: grant.stamp };
        let ghost s = self.last_requests@;
        match find_account(&self.last_requests, grant.dest) {
            Some(j) => {
                self.last_requests.set(j, rec);
                proof {
                    let u = self.last_requests@;
                    lemma_update_keeps_unique(s, j as int, rec);
                    lemma_request_of_agrees(u, grant.dest, j as int);
                    assert forall|a: u64| a != grant.dest implies request_of(u, a) == request_of(
                        s,
                        a,
                    ) by {
                        lemma_request_of_update_other(s, j as int, rec, a);
                    }
                    assert forall|t: int| 0 <= t < u.len() implies (#[trigger] u[t]).balance
                        <= self.config.faucet_amount by {
                        if t != j {
                            assert(u[t] == s[t]);
                        }
                    }
                }
            },
            None => {
                self.last_requests.push(rec);
                proof {
                    let t = self.last_requests@;
                    assert(t.drop_last() =~= s);
                    assert(t.last() == rec);
                    assert forall|jj: int, kk: int| 0 <= jj < kk < t.len() implies (
                    #[trigger] t[jj]).account != (#[trigger] t[kk]).account by {
                        if kk == s.len() {
                            assert(t[jj] == s[jj]);
                        }
                    }
                    assert forall|a: u64| a != grant.dest implies request_of(t, a) == request_of(
                        s,
                        a,
                    ) by {
                        assert(t.last().account != a);
                    }
                    assert forall|tt: int| 0 <= tt < t.len() implies (#[trigger] t[tt]).balance
                        <= self.config.faucet_amount by {
                        if tt < s.len() {
                            assert(t[tt] == s[tt]);
                        }
                    }
                }
            },
        }
    }

    /// Refill: a signed origin asks to move `amount` of its own tokens
    /// into the faucet account; the transfer is the host's. Returns the
    /// signer the tokens must come from.
    pub fn refill_pallet(origin: Origin, amount: u64) -> (r: Result<u64, DispatchError>)
        ensures
            origin matches Origin::Signed(who) ==> r == Ok::<u64, DispatchError>(who),
            !(origin matches Origin::Signed(_)) ==> r == Err::<u64, DispatchError>(
                DispatchError::BadOrigin,
            ),
    {
        match origin {
            Origin::Signed(who) => Ok(who),
            _ => Err(DispatchError::BadOrigin),
        }
    }

    /// Deposit `amount` into the existing account `who`; admitted only
    /// unsigned. The deposit itself is the host's.
    pub fn set_balance(origin: Origin, who: u64, amount: u64) -> (r: Result<(), DispatchError>)
        ensures
            origin matches Origin::Unsigned ==> r == Ok::<(), DispatchError>(()),
            !(origin matches Origin::Unsigned) ==> r == Err::<(), DispatchError>(
                DispatchError::BadOrigin,
            ),
    {
        match origin {
            Origin::Unsigned => Ok(()),
            _ => Err(DispatchError::BadOrigin),
        }
    }

    /// The pool-side gate for unsigned faucet calls: `token_faucet` and
    /// `set_balance` are admitted, each tagged with its account and amount
    /// and marked for propagation; every other call shape is refused.
    pub fn validate_unsigned(_source: TransactionSource, call: RuntimeCall) -> (r:
        TransactionValidity)
        ensures
            call matches RuntimeCall::TokenFaucet { dest, amount } ==> r
                == TransactionValidity::Valid(
                ValidTransaction {
                    provides: ProvidesTag::Faucet { account: dest, amount },
                    propagate: true,
                },
            ),
            call matches RuntimeCall::SetBalance { who, amount } ==> r
                == TransactionValidity::Valid(
                ValidTransaction {
                    provides: ProvidesTag::Faucet { account: who, amount },
                    propagate: true,
                },
            ),
            !(call matches RuntimeCall::TokenFaucet { .. }) && !(call
                matches RuntimeCall::SetBalance { .. }) ==> r == TransactionValidity::Invalid(
                InvalidTransaction::Call,
            ),
    {
        match call {
            RuntimeCall::TokenFaucet { dest, amount } => TransactionValidity::Valid(
                ValidTransaction {
                    provides: ProvidesTag::Faucet { account: dest, amount },
                    propagate: true,
                },
            ),
            RuntimeCall::SetBalance { who, amount } => TransactionValidity::Valid(
                ValidTransaction {
                    provides: ProvidesTag::Faucet { account: who, amount },
                    propagate: true,
                },
            ),
            _ => TransactionValidity::Invalid(InvalidTransaction::Call),
        }
    }
}

/// The position of `who`'s record, if it has one.
fn find_account(v: &Vec<FaucetRecord>, who: u64) -> (r: Option<usize>)
    ensures
        match r {
            Some(j) => j < v@.len() && v@[j as int].account == who,
            None => forall|t: int| 0 <= t < v@.len() ==> (#[trigger] v@[t]).account != who,
        },
{
    let n = v.len();
    let mut j: usize = 0;
    while j < n
        invariant
            n == v@.len(),
            0 <= j <= n,
            forall|t: int| 0 <= t < j ==> (#[trigger] v@[t]).account != who,
        decreases n - j,
    {
        if v[j].account == who {
            return Some(j);
        }
        j += 1;
    }
    None
}

/// With unique accounts, `request_of` agrees with any record of the
/// account.
proof fn lemma_request_of_agrees(s: Seq<FaucetRecord>, a: u64, j: int)
    requires
        unique_accounts(s),
        0 <= j < s.len(),
        s[j].account == a,
    ensures
        request_of(s, a) == (s[j].balance, s[j].last_time),
    decreases s.len(),
{
    if j == s.len() - 1 {
        assert(s.last() == s[j]);
    } else {
        assert(s[s.len() - 1].account != a);
        assert(s.drop_last()[j] == s[j]);
        lemma_request_of_agrees(s.drop_last(), a, j);
    }
}

/// An account with no record reads as `(0, 0)`.
proof fn lemma_request_of_absent(s: Seq<FaucetRecord>, a: u64)
    requires
        forall|t: int| 0 <= t < s.len() ==> (#[trigger] s[t]).account != a,
    ensures
        request_of(s, a) == (0u64, 0u64),
    decreases s.len(),
{
    if s.len() > 0 {
        assert(s[s.len() - 1].account != a);
        assert(forall|t: int|
            0 <= t < s.drop_last().len() ==> (#[trigger] s.drop_last()[t]).account != a);
        lemma_request_of_absent(s.drop_last(), a);
    }
}

/// Recorded balances bound whatever `request_of` reads.
proof fn lemma_request_balance_bounded(s: Seq<FaucetRecord>, a: u64, bound: u64)
    requires
        forall|j: int| 0 <= j < s.len() ==> (#[trigger] s[j]).balance <= bound,
    ensures
        request_of(s, a).0 <= bound,
    decreases s.len(),
{
    if s.len() > 0 {
        if s.last().account == a {
            assert(s[s.len() - 1].balance <= bound);
        } else {
            assert(forall|j: int|
                0 <= j < s.drop_last().len() ==> (#[trigger] s.drop_last()[j]).balance <= bound);
            lemma_request_balance_bounded(s.drop_last(), a, bound);
        }
    }
}

/// Replacing a record with one for the same account keeps accounts unique.
proof fn lemma_update_keeps_unique(s: Seq<FaucetRecord>, j: int, rec: FaucetRecord)
    requires
        unique_accounts(s),
        0 <= j < s.len(),
        s[j].account == rec.account,
    ensures
        unique_accounts(s.update(j, rec)),
{
    let u = s.update(j, rec);
    assert forall|x: int, y: int| 0 <= x < y < u.len() implies (#[trigger] u[x]).account
        != (#[trigger] u[y]).account by {
        assert(s[x].account != s[y].account);
        if x != j {
            assert(u[x] == s[x]);
        }
        if y != j {
            assert(u[y] == s[y]);
        }
    }
}

/// Replacing a record leaves every other account's read unchanged.
proof fn lemma_request_of_update_other(s: Seq<FaucetRecord>, j: int, rec: FaucetRecord, a: u64)
    requires
        0 <= j < s.len(),
        rec.account != a,
        s[j].account != a,
    ensures
        request_of(s.update(j, rec), a) == request_of(s, a),
    decreases s.len(),
{
    let u = s.update(j, rec);
    if j == s.len() - 1 {
        assert(u.last() == rec);
        assert(u.drop_last() =~= s.drop_last());
    } else {
        assert(u.last() == s.last());
        assert(u.drop_last() =~= s.drop_last().update(j, rec));
        if s.last().account != a {
            lemma_request_of_update_other(s.drop_last(), j, rec, a);
        }
    }
}

} // verus!
