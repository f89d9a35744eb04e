//! Per-address outcomes: the exact line owed for each address, the fan-in
//! that owes one outcome per configured address, and the laws that hold of a
//! whole run.

use vstd::prelude::*;

use crate::LAMPORTS_PER_SOL;
use crate::config::yaml_string_list_of;
use crate::decimal::dec_rep;
use crate::decimal::u64_to_decimal;
use crate::rpc::FetchError;
use crate::rpc::interpret_reply;
use crate::rpc::spec_reply_result;

verus! {

/// One per-address outcome: the exact line the operator sees, tagged with
/// the stream it goes to.
#[derive(Debug)]
pub enum Outcome {
    /// A line for standard output.
    Success(String),
    /// A line for standard error.
    Failure(String),
}

/// The ghost shape of an outcome: which stream, and the line's text.
pub enum OutcomeModel {
    /// On standard output.
    Printed(Seq<char>),
    /// On standard error.
    Reported(Seq<char>),
}

impl Outcome {
    /// Which stream the line goes to, and its text.
    pub open spec fn model(&self) -> OutcomeModel {
        match self {
            Outcome::Success(l) => OutcomeModel::Printed(l@),
            Outcome::Failure(l) => OutcomeModel::Reported(l@),
        }
    }

    /// The line's text, whichever stream it goes to.
    pub open spec fn spec_line(&self) -> Seq<char> {
        match self {
            Outcome::Success(l) => l@,
            Outcome::Failure(l) => l@,
        }
    }

    /// The line's text, whichever stream it goes to.
    pub fn line(&self) -> (r: &str)
        ensures
            r@ == self.spec_line(),
    {
        match self {
            Outcome::Success(l) => l.as_str(),
            Outcome::Failure(l) => l.as_str(),
        }
    }

    /// Whether the line goes to standard error.
    pub fn is_failure(&self) -> (r: bool)
        ensures
            r == (self is Failure),
    {
        match self {
            Outcome::Success(_) => false,
            Outcome::Failure(_) => true,
        }
    }
}

/// The success line for one address holding `balance` smallest units: the
/// whole-unit amount is the truncating integer division by the unit scale.
pub open spec fn success_line_of(address: Seq<char>, balance: u64) -> Seq<char> {
    "Balance for wallet "@ + address + ": "@ + dec_rep(
        (balance as nat) / (LAMPORTS_PER_SOL as nat),
    ) + " lamports"@
}

/// Renders the success line for one address.
pub fn success_line(address: &str, balance: u64) -> (r: String)
    ensures
        r@ == success_line_of(address@, balance),
{
    let units = balance / LAMPORTS_PER_SOL;
    let mut r = String::from_str("Balance for wallet ");
    r.append(address);
    r.append(": ");
    let digits = u64_to_decimal(units);
    r.append(digits.as_str());
    r.append(" lamports");
    proof {
        assert(r@ =~= success_line_of(address@, balance));
    }
    r
}

/// The failure line for one address and one failure description.
pub open spec fn failure_line_of(address: Seq<char>, description: Seq<char>) -> Seq<char> {
    "Error getting balance for "@ + address + ": "@ + description
}

/// Renders the failure line for one address.
pub fn failure_line(address: &str, description: &str) -> (r: String)
    ensures
        r@ == failure_line_of(address@, description@),
{
    let mut r = String::from_str("Error getting balance for ");
    r.append(address);
    r.append(": ");
    r.append(description);
    proof {
        assert(r@ =~= failure_line_of(address@, description@));
    }
    r
}

/// Spec view of what the transport handed back for one address: the reply
/// body when the HTTP exchange completed, or the transport's message.
pub open spec fn transport_view(t: Result<String, String>) -> Result<Seq<char>, Seq<char>> {
    match t {
        Ok(b) => Ok(b@),
        Err(m) => Err(m@),
    }
}

/// The outcome owed for one address, given what the transport handed back.
pub open spec fn spec_outcome(address: Seq<char>, transport: Result<Seq<char>, Seq<char>>) -> OutcomeModel {
    match transport {
        Err(m) => OutcomeModel::Reported(failure_line_of(address, m)),
        Ok(body) => match spec_reply_result(body) {
            Ok(balance) => OutcomeModel::Printed(success_line_of(address, balance)),
            Err(d) => OutcomeModel::Reported(failure_line_of(address, d)),
        },
    }
}

/// Decides one address's outcome. A transport failure and every reply
/// failure end in that address's failure line; a reply carrying a balance
/// ends in its success line.
pub fn outcome_for(address: &str, transport: &Result<String, String>) -> (r: Outcome)
    ensures
        r.model() == spec_outcome(address@, transport_view(*transport)),
{
    match transport {
        Err(m) => {
            let e = FetchError::Network(m.clone());
            Outcome::Failure(failure_line(address, e.description()))
        },
        Ok(body) => match interpret_reply(body.as_str()) {
            Ok(balance) => Outcome::Success(success_line(address, balance)),
            Err(e) => Outcome::Failure(failure_line(address, e.description())),
        },
    }
}

/// Runs the fan-in sequentially: exactly one outcome per address, in order,
/// each depending only on that address's own transport result.
pub fn collect_outcomes(results: &Vec<(String, Result<String, String>)>) -> (r: Vec<Outcome>)
    ensures
        r@.len() == results@.len(),
        forall|i: int|
            0 <= i < results@.len() ==> (#[trigger] r@[i]).model() == spec_outcome(
                results@[i].0@,
                transport_view(results@[i].1),
            ),
{
    let mut out: Vec<Outcome> = Vec::new();
    let mut k: usize = 0;
    while k < results.len()
        invariant
            k <= results@.len(),
            out@.len() == k,
            forall|i: int|
                0 <= i < k ==> (#[trigger] out@[i]).model() == spec_outcome(
                    results@[i].0@,
                    transport_view(results@[i].1),
                ),
        decreases results@.len() - k,
    {
        let pair = &results[k];
        let outcome = outcome_for(pair.0.as_str(), &pair.1);
        out.push(outcome);
        k = k + 1;
    }
    out
}

/// The wallet list that a configuration text denotes, when it denotes one.
pub open spec fn spec_wallets(cfg: Seq<char>) -> Option<Seq<Seq<char>>> {
    match yaml_string_list_of(cfg, "wallets"@) {
        Ok(Some(ws)) => Some(ws),
        Ok(None) => None,
        Err(_) => None,
    }
}

/// The whole run over a configuration text, given what the transport handed
/// back for each configured address in order: `None` when the configuration
/// is invalid (the run aborts before any network call), otherwise one
/// outcome per address. Meaningful when `transports` has one entry per
/// configured address.
pub open spec fn spec_run(cfg: Seq<char>, transports: Seq<Result<Seq<char>, Seq<char>>>) -> Option<
    Seq<OutcomeModel>,
> {
    match spec_wallets(cfg) {
        None => None,
        Some(ws) => Some(Seq::new(ws.len(), |i: int| spec_outcome(ws[i], transports[i]))),
    }
}

/// One outcome is owed per configured address: a valid configuration with N
/// addresses yields exactly N outcomes, however many of them are failures,
/// and an invalid configuration yields none.
pub proof fn lemma_one_outcome_per_address(
    cfg: Seq<char>,
    transports: Seq<Result<Seq<char>, Seq<char>>>,
)
    requires
        spec_wallets(cfg) matches Some(ws) && transports.len() == ws.len(),
    ensures
        spec_run(cfg, transports) matches Some(outs) && outs.len() == transports.len(),
{
}

/// An empty wallet list owes zero outcomes.
pub proof fn lemma_empty_config_no_outcomes(cfg: Seq<char>)
    requires
        spec_wallets(cfg) matches Some(ws) && ws.len() == 0,
    ensures
        spec_run(cfg, Seq::empty()) matches Some(outs) && outs.len() == 0,
{
}

/// Failures are isolated: each address's outcome depends only on that
/// address and its own transport result. Whatever the other addresses are
/// and whatever their exchanges returned — including replies that are not
/// valid JSON — outcome `i` is unchanged.
pub proof fn lemma_outcome_isolation(
    cfg1: Seq<char>,
    t1: Seq<Result<Seq<char>, Seq<char>>>,
    cfg2: Seq<char>,
    t2: Seq<Result<Seq<char>, Seq<char>>>,
    i: int,
)
    requires
        spec_wallets(cfg1) matches Some(w1) && spec_wallets(cfg2) matches Some(w2) && 0 <= i
            < w1.len() && i < w2.len() && w1[i] == w2[i],
        t1[i] == t2[i],
    ensures
        spec_run(cfg1, t1) matches Some(o1) && spec_run(cfg2, t2) matches Some(o2) && o1[i]
            == o2[i],
{
}

/// Idempotence: two runs over the same configuration text, in which the
/// chain answers every address the same way, owe exactly the same outcomes —
/// so their output is line-for-line identical, in whatever order the lines
/// appear.
pub proof fn lemma_run_idempotent(
    cfg1: Seq<char>,
    t1: Seq<Result<Seq<char>, Seq<char>>>,
    cfg2: Seq<char>,
    t2: Seq<Result<Seq<char>, Seq<char>>>,
)
    requires
        cfg1 == cfg2,
        t1 == t2,
    ensures
        spec_run(cfg1, t1) == spec_run(cfg2, t2),
{
}

} // verus!
