//! The connection bootstrapper's decision core. Establishing the
//! relational connection is attempted up to a fixed number of times,
//! with a fixed wait between attempts; on success a background liveness
//! task is spawned, and on exhaustion startup is fatal. The attempts
//! themselves are I/O performed by the caller; this module decides,
//! after each attempt, whether to connect, wait and retry, or give up,
//! and states what any whole run of that policy looks like.

use vstd::prelude::*;

use crate::errors::AppError;

verus! {

/// Total connection attempts the bootstrapper makes before giving up.
pub const MAX_CONNECT_ATTEMPTS: u64 = 5;

/// Seconds waited between two consecutive connection attempts.
pub const RETRY_DELAY_SECS: u64 = 5;

/// Fallback relational connection string, used when none is configured.
pub const DEFAULT_CONNECTION_STRING: &'static str = "host=localhost user=postgres";

/// Configuration for the relational connection.
pub struct PostgresConfig {
    pub connection_string: String,
}

/// What the bootstrapper does after a connection attempt.
pub enum BootstrapStep {
    /// The attempt succeeded: use the connection and spawn the liveness task.
    Connected,
    /// The attempt failed with budget left: wait `RETRY_DELAY_SECS`, then retry.
    RetryAfterDelay,
    /// The attempt failed and the budget is spent: startup is fatal.
    GiveUp,
}

/// Decides the bootstrapper's next step after the `attempts_made`-th
/// connection attempt has succeeded or failed.
pub fn next_bootstrap_step(attempts_made: u64, attempt_succeeded: bool) -> (step: BootstrapStep)
    requires
        1 <= attempts_made <= MAX_CONNECT_ATTEMPTS,
    ensures
        attempt_succeeded ==> step is Connected,
        !attempt_succeeded && attempts_made < MAX_CONNECT_ATTEMPTS ==> step is RetryAfterDelay,
        !attempt_succeeded && attempts_made == MAX_CONNECT_ATTEMPTS ==> step is GiveUp,
{
    if attempt_succeeded {
        BootstrapStep::Connected
    } else if attempts_made < MAX_CONNECT_ATTEMPTS {
        BootstrapStep::RetryAfterDelay
    } else {
        BootstrapStep::GiveUp
    }
}

/// Whether one of the first `MAX_CONNECT_ATTEMPTS` attempt outcomes is a
/// success.
pub open spec fn any_success(outcomes: Seq<bool>) -> bool {
    exists|i: int| 0 <= i < MAX_CONNECT_ATTEMPTS && outcomes[i]
}

/// How many attempts a bootstrap run consumes, counting from attempt
/// `i`: it stops at the first success, and never makes more than
/// `MAX_CONNECT_ATTEMPTS` attempts in all.
pub open spec fn attempts_taken(outcomes: Seq<bool>, i: int) -> int
    decreases MAX_CONNECT_ATTEMPTS - i,
{
    if i < 0 || i >= MAX_CONNECT_ATTEMPTS {
        MAX_CONNECT_ATTEMPTS as int
    } else if outcomes[i] {
        i + 1
    } else {
        attempts_taken(outcomes, i + 1)
    }
}

/// What a whole bootstrap run did: how many attempts it made, how many
/// waits it inserted between them, whether it ended connected, and
/// whether the background liveness task was spawned.
pub struct BootstrapReport {
    pub attempts: u64,
    pub waits: u64,
    pub connected: bool,
    pub liveness_spawned: bool,
}

/// Runs the bootstrap policy over the given attempt outcomes (`true`
/// meaning that attempt would connect). The run stops at the first
/// success, waits once between consecutive attempts, never exceeds the
/// attempt budget, and spawns the liveness task exactly when it ends
/// connected.
pub fn bootstrap_outcome(outcomes: &Vec<bool>) -> (report: BootstrapReport)
    requires
        outcomes@.len() >= MAX_CONNECT_ATTEMPTS,
    ensures
        report.connected == any_success(outcomes@),
        report.attempts == attempts_taken(outcomes@, 0),
        report.waits == report.attempts - 1,
        report.liveness_spawned == report.connected,
        report.connected ==> outcomes@[report.attempts - 1],
        forall|j: int| 0 <= j < report.attempts - 1 ==> !outcomes@[j],
        !report.connected ==> report.attempts == MAX_CONNECT_ATTEMPTS,
{
    let mut attempts: u64 = 0;
    let mut waits: u64 = 0;
    let mut connected = false;
    while !connected && attempts < MAX_CONNECT_ATTEMPTS
        invariant
            outcomes@.len() >= MAX_CONNECT_ATTEMPTS,
            attempts <= MAX_CONNECT_ATTEMPTS,
            forall|j: int| 0 <= j < attempts ==> !connected ==> !outcomes@[j],
            connected ==> 1 <= attempts && outcomes@[attempts - 1],
            connected ==> forall|j: int| 0 <= j < attempts - 1 ==> !outcomes@[j],
            !connected && attempts < MAX_CONNECT_ATTEMPTS ==> waits == attempts,
            !connected && attempts == MAX_CONNECT_ATTEMPTS ==> waits == attempts - 1,
            connected ==> waits == attempts - 1,
        decreases MAX_CONNECT_ATTEMPTS - attempts,
    {
        let ok = outcomes[attempts as usize];
        attempts = attempts + 1;
        match next_bootstrap_step(attempts, ok) {
            BootstrapStep::Connected => {
                connected = true;
            },
            BootstrapStep::RetryAfterDelay => {
                waits = waits + 1;
            },
            BootstrapStep::GiveUp => {},
        }
    }
    proof {
        if connected {
            lemma_attempts_taken_first_success(outcomes@, attempts - 1);
        } else {
            lemma_attempts_taken_all_fail(outcomes@, 0);
        }
    }
    BootstrapReport { attempts, waits, connected, liveness_spawned: connected }
}

proof fn lemma_attempts_taken_all_fail(outcomes: Seq<bool>, i: int)
    requires
        0 <= i <= MAX_CONNECT_ATTEMPTS,
        forall|j: int| i <= j < MAX_CONNECT_ATTEMPTS ==> !outcomes[j],
    ensures
        attempts_taken(outcomes, i) == MAX_CONNECT_ATTEMPTS,
    decreases MAX_CONNECT_ATTEMPTS - i,
{
    if i < MAX_CONNECT_ATTEMPTS {
        lemma_attempts_taken_all_fail(outcomes, i + 1);
    }
}

proof fn lemma_attempts_taken_first_success_from(outcomes: Seq<bool>, i: int, k: int)
    requires
        0 <= i <= k < MAX_CONNECT_ATTEMPTS,
        outcomes[k],
        forall|j: int| i <= j < k ==> !outcomes[j],
    ensures
        attempts_taken(outcomes, i) == k + 1,
    decreases k - i,
{
    if i < k {
        lemma_attempts_taken_first_success_from(outcomes, i + 1, k);
    }
}

proof fn lemma_attempts_taken_first_success(outcomes: Seq<bool>, k: int)
    requires
        0 <= k < MAX_CONNECT_ATTEMPTS,
        outcomes[k],
        forall|j: int| 0 <= j < k ==> !outcomes[j],
    ensures
        attempts_taken(outcomes, 0) == k + 1,
{
    lemma_attempts_taken_first_success_from(outcomes, 0, k);
}

/// Law: against a store that fails the first four connection attempts
/// and would succeed on the fifth, bootstrap connects, uses the whole
/// attempt budget, and therefore waits four times between attempts —
/// at least `4 * RETRY_DELAY_SECS` seconds of backoff elapse.
pub proof fn lemma_retry_until_fifth_success(outcomes: Seq<bool>)
    requires
        outcomes.len() >= MAX_CONNECT_ATTEMPTS,
        forall|j: int| 0 <= j < MAX_CONNECT_ATTEMPTS - 1 ==> !outcomes[j],
        outcomes[MAX_CONNECT_ATTEMPTS - 1],
    ensures
        any_success(outcomes),
        attempts_taken(outcomes, 0) == MAX_CONNECT_ATTEMPTS,
{
    assert(outcomes[MAX_CONNECT_ATTEMPTS - 1]);
    lemma_attempts_taken_first_success(outcomes, MAX_CONNECT_ATTEMPTS - 1);
}

/// Law: against a store that fails every attempt, bootstrap ends not
/// connected after the whole attempt budget; by `bootstrap_outcome`'s
/// contract no liveness task is spawned in that case.
pub proof fn lemma_retry_exhaustion(outcomes: Seq<bool>)
    requires
        outcomes.len() >= MAX_CONNECT_ATTEMPTS,
        forall|j: int| 0 <= j < MAX_CONNECT_ATTEMPTS ==> !outcomes[j],
    ensures
        !any_success(outcomes),
        attempts_taken(outcomes, 0) == MAX_CONNECT_ATTEMPTS,
{
    lemma_attempts_taken_all_fail(outcomes, 0);
}

/// The configured relational connection string, or the documented
/// fallback default when none is configured.
pub fn connection_string_or_default(configured: Option<String>) -> (s: String)
    ensures
        configured matches Some(v) ==> s@ == v@,
        configured is None ==> s@ == DEFAULT_CONNECTION_STRING@,
{
    match configured {
        Some(v) => v,
        None => DEFAULT_CONNECTION_STRING.to_owned(),
    }
}

/// Checks the document-store connection URI: a missing URI is a fatal
/// startup error of the database kind; a present one is passed through.
pub fn document_store_uri(configured: Option<String>) -> (r: Result<String, AppError>)
    ensures
        configured matches Some(u) ==> (r matches Ok(s) && s@ == u@),
        configured is None ==> (r matches Err(e) && e is DatabaseError
            && e.spec_message() == "MongoDB URI not set"@),
{
    match configured {
        Some(u) => Ok(u),
        None => Err(AppError::DatabaseError("MongoDB URI not set".to_owned())),
    }
}

/// Checks the document-store database name: like the URI it is
/// environment-sourced and required, so a missing name is a fatal
/// startup error of the database kind; a present one is passed through.
pub fn document_store_name(configured: Option<String>) -> (r: Result<String, AppError>)
    ensures
        configured matches Some(n) ==> (r matches Ok(s) && s@ == n@),
        configured is None ==> (r matches Err(e) && e is DatabaseError
            && e.spec_message() == "MongoDB database name not set"@),
{
    match configured {
        Some(n) => Ok(n),
        None => Err(AppError::DatabaseError("MongoDB database name not set".to_owned())),
    }
}

} // verus!
