//! The decisions of one best-effort usage query. The candidate endpoints are
//! tried one after another, in their declared order; the first response that
//! succeeds and reads under a known shape ends the pass. The caller performs
//! each request that a [`Probe`] asks for and hands the response back.

use vstd::prelude::*;
use crate::schema::{normalized_body, parse_usage_limits, Windows};
use crate::text::{dec, push_decimal};
use crate::usage::{UsageError, UsageInfo, UsageSource};

verus! {

/// How many candidate endpoints a pass tries.
pub const CANDIDATE_COUNT: usize = 2;

/// The candidate endpoints, legacy first.
pub open spec fn candidate_urls() -> Seq<Seq<char>> {
    seq![
        "https://chat.openai.com/backend-api/user_limits"@,
        "https://chat.openai.com/backend-api/usage/limits"@,
    ]
}

/// The URL of candidate `i`.
pub fn candidate_url(i: usize) -> (r: &'static str)
    requires
        i < CANDIDATE_COUNT,
    ensures
        r@ == candidate_urls()[i as int],
{
    if i == 0 {
        "https://chat.openai.com/backend-api/user_limits"
    } else {
        "https://chat.openai.com/backend-api/usage/limits"
    }
}

/// What one request to a candidate gave.
#[derive(Debug, Clone, PartialEq, Eq)]
pub enum CandidateResponse {
    /// The request was not answered, or its body could not be read
    /// (this includes a timeout or a cancellation).
    Transport(String),
    /// An answer with this status code and body.
    Http { status: u16, body: String },
}

/// What a pass asks for next.
#[derive(Debug, PartialEq, Eq)]
pub enum ProbeAction {
    /// Send a GET with the bearer credential to this URL.
    Get(String),
    /// The pass is over: the windows read, or the last failure's text.
    Done(Result<Windows, String>),
}

/// The state of a pass: the candidate to try next and the last failure.
#[derive(Debug, Clone, PartialEq, Eq)]
pub struct Probe {
    pub next: usize,
    pub last_error: Option<String>,
}

pub open spec fn opt_view(o: Option<String>) -> Option<Seq<char>> {
    match o {
        Some(s) => Some(s@),
        None => None,
    }
}

pub open spec fn is_success_status(status: u16) -> bool {
    200 <= status <= 299
}

/// The windows that one candidate's response gives, or the failure to record.
pub open spec fn candidate_outcome(url: Seq<char>, resp: CandidateResponse) -> Result<
    Windows,
    Seq<char>,
> {
    match resp {
        CandidateResponse::Transport(e) => Err(e@),
        CandidateResponse::Http { status, body } => if is_success_status(status) {
            match normalized_body(body@) {
                Ok(w) => Ok(w),
                Err(_) => Err("unexpected response schema"@),
            }
        } else {
            Err(url + " returned status "@ + dec(status as nat))
        },
    }
}

/// The text of a failed pass: the last failure, if any was recorded.
pub open spec fn final_error(last: Option<Seq<char>>) -> Seq<char> {
    match last {
        Some(e) => e,
        None => "failed to fetch usage"@,
    }
}

/// `a` is the action owed with `next` candidates tried and `last` the last failure.
pub open spec fn action_for(a: ProbeAction, next: nat, last: Option<Seq<char>>) -> bool {
    if next < candidate_urls().len() {
        a matches ProbeAction::Get(u) && u@ == candidate_urls()[next as int]
    } else {
        a matches ProbeAction::Done(Err(m)) && m@ == final_error(last)
    }
}

/// The outcome of a whole pass from candidate `i` on, given the response
/// that each candidate gives.
pub open spec fn pass_outcome(rs: Seq<CandidateResponse>, i: nat, last: Option<Seq<char>>) -> Result<
    Windows,
    Seq<char>,
>
    decreases candidate_urls().len() - i,
{
    if i >= candidate_urls().len() || i >= rs.len() {
        Err(final_error(last))
    } else {
        match candidate_outcome(candidate_urls()[i as int], rs[i as int]) {
            Ok(w) => Ok(w),
            Err(e) => pass_outcome(rs, i + 1, Some(e)),
        }
    }
}

impl Probe {
    /// A pass that has tried nothing yet.
    pub fn new() -> (r: Probe)
        ensures
            r.next == 0,
            r.last_error is None,
    {
        Probe { next: 0, last_error: None }
    }

    /// The action owed in the current state.
    pub fn action(&self) -> (a: ProbeAction)
        requires
            self.next <= CANDIDATE_COUNT,
        ensures
            action_for(a, self.next as nat, opt_view(self.last_error)),
    {
        if self.next < CANDIDATE_COUNT {
            ProbeAction::Get(String::from_str(candidate_url(self.next)))
        } else {
            match &self.last_error {
                Some(e) => ProbeAction::Done(Err(e.clone())),
                None => ProbeAction::Done(Err(String::from_str("failed to fetch usage"))),
            }
        }
    }

    /// Takes the response of the candidate that was asked for last, and
    /// returns what to do next.
    pub fn record(&mut self, resp: &CandidateResponse) -> (a: ProbeAction)
        requires
            old(self).next < CANDIDATE_COUNT,
        ensures
            match candidate_outcome(candidate_urls()[old(self).next as int], *resp) {
                Ok(w) => a == ProbeAction::Done(Ok(w)) && *final(self) == *old(self),
                Err(e) => final(self).next == old(self).next + 1 && opt_view(final(self).last_error)
                    == Some(e) && action_for(a, final(self).next as nat, Some(e)),
            },
    {
        let url = candidate_url(self.next);
        let failure = match resp {
            CandidateResponse::Transport(e) => e.clone(),
            CandidateResponse::Http { status, body } => {
                if 200 <= *status && *status <= 299 {
                    match parse_usage_limits(body.as_str()) {
                        Ok(w) => {
                            return ProbeAction::Done(Ok(w));
                        },
                        Err(_) => String::from_str("unexpected response schema"),
                    }
                } else {
                    let mut m = String::from_str(url);
                    m.append(" returned status ");
                    push_decimal(&mut m, *status as u64);
                    m
                }
            },
        };
        self.next = self.next + 1;
        self.last_error = Some(failure);
        self.action()
    }
}

/// How the identity signed in.
#[derive(Debug, Clone, Copy, PartialEq, Eq, Structural)]
pub enum AuthMode {
    ChatGpt,
    ApiKey,
}

/// Whether a query for this identity probes the network at all.
pub fn needs_probe(mode: AuthMode) -> (r: bool)
    ensures
        r == (mode == AuthMode::ChatGpt),
{
    match mode {
        AuthMode::ChatGpt => true,
        AuthMode::ApiKey => false,
    }
}

/// The result of a query, from the identity's plan and mode and, for a
/// web-session identity, the outcome of its pass (or of getting its
/// credential). An API-key identity gets `UnsupportedForAuthMode` whatever
/// `fetched` holds.
pub fn usage_from_fetch(plan: Option<String>, mode: AuthMode, fetched: Result<Windows, String>) -> (r:
    Result<UsageInfo, UsageError>)
    ensures
        mode == AuthMode::ApiKey ==> r == Err::<UsageInfo, _>(UsageError::UnsupportedForAuthMode),
        mode == AuthMode::ChatGpt ==> match fetched {
            Ok((five, weekly)) => r == Ok::<_, UsageError>(
                UsageInfo { plan, five_hour: five, weekly, source: UsageSource::ChatGptWeb },
            ),
            Err(e) => r matches Err(UsageError::Message(m)) && m@
                == "could not fetch ChatGPT usage: "@ + e@,
        },
{
    match mode {
        AuthMode::ApiKey => Err(UsageError::UnsupportedForAuthMode),
        AuthMode::ChatGpt => match fetched {
            Ok((five, weekly)) => Ok(
                UsageInfo { plan, five_hour: five, weekly, source: UsageSource::ChatGptWeb },
            ),
            Err(e) => {
                let mut m = String::from_str("could not fetch ChatGPT usage: ");
                m.append(e.as_str());
                Err(UsageError::Message(m))
            },
        },
    }
}

proof fn lemma_pass_from(rs: Seq<CandidateResponse>, i: nat, last: Option<Seq<char>>, k: nat)
    requires
        i <= k < candidate_urls().len(),
        k < rs.len(),
        forall|j: int| i <= j < k ==> candidate_outcome(candidate_urls()[j], rs[j]) is Err,
        candidate_outcome(candidate_urls()[k as int], rs[k as int]) is Ok,
    ensures
        pass_outcome(rs, i, last) == candidate_outcome(candidate_urls()[k as int], rs[k as int]),
    decreases k - i,
{
    if i < k {
        let e = candidate_outcome(candidate_urls()[i as int], rs[i as int])->Err_0;
        lemma_pass_from(rs, i + 1, Some(e), k);
    }
}

/// Candidates are tried in their declared order and the first success
/// ends the pass: its windows are the result, and the failures before it
/// leave no trace in it.
pub proof fn lemma_first_success_wins(rs: Seq<CandidateResponse>, k: nat)
    requires
        k < candidate_urls().len(),
        k < rs.len(),
        forall|j: int| 0 <= j < k ==> candidate_outcome(candidate_urls()[j], rs[j]) is Err,
        candidate_outcome(candidate_urls()[k as int], rs[k as int]) is Ok,
    ensures
        pass_outcome(rs, 0, None) == candidate_outcome(candidate_urls()[k as int], rs[k as int]),
{
    lemma_pass_from(rs, 0, None, k);
}

/// When every candidate fails, the pass ends in one error: the failure of
/// the last candidate.
pub proof fn lemma_all_candidates_fail(rs: Seq<CandidateResponse>)
    requires
        rs.len() >= candidate_urls().len(),
        forall|j: int|
            0 <= j < candidate_urls().len() ==> candidate_outcome(candidate_urls()[j], rs[j]) is Err,
    ensures
        pass_outcome(rs, 0, None) == candidate_outcome(candidate_urls()[1], rs[1]),
{
    assert(candidate_outcome(candidate_urls()[0], rs[0]) is Err);
    assert(candidate_outcome(candidate_urls()[1], rs[1]) is Err);
    let e0 = candidate_outcome(candidate_urls()[0], rs[0])->Err_0;
    let e1 = candidate_outcome(candidate_urls()[1], rs[1])->Err_0;
    assert(pass_outcome(rs, 2, Some(e1)) == Err::<Windows, Seq<char>>(e1));
    assert(pass_outcome(rs, 1, Some(e0)) == pass_outcome(rs, 2, Some(e1)));
}

/// The URLs that a pass requests from candidate `i` on, one per step: a
/// candidate is requested only after every earlier one failed.
pub open spec fn requested(rs: Seq<CandidateResponse>, i: nat) -> Seq<Seq<char>>
    decreases candidate_urls().len() - i,
{
    if i >= candidate_urls().len() || i >= rs.len() {
        Seq::empty()
    } else {
        seq![candidate_urls()[i as int]] + match candidate_outcome(
            candidate_urls()[i as int],
            rs[i as int],
        ) {
            Ok(_) => Seq::empty(),
            Err(_) => requested(rs, i + 1),
        }
    }
}

proof fn lemma_requested_from(rs: Seq<CandidateResponse>, i: nat)
    requires
        i <= candidate_urls().len(),
    ensures
        i + requested(rs, i).len() <= candidate_urls().len(),
        requested(rs, i) == candidate_urls().subrange(i as int, (i + requested(rs, i).len()) as int),
        forall|j: int|
            i <= j < i + requested(rs, i).len() - 1 ==> candidate_outcome(
                candidate_urls()[j],
                rs[j],
            ) is Err,
    decreases candidate_urls().len() - i,
{
    if i < candidate_urls().len() && i < rs.len() {
        if candidate_outcome(candidate_urls()[i as int], rs[i as int]) is Err {
            lemma_requested_from(rs, i + 1);
        }
        assert(requested(rs, i) =~= candidate_urls().subrange(i as int, (i + requested(rs, i).len()) as int));
    }
}

/// A pass requests the candidates in their declared order, each at most
/// once: what it requests is a prefix of the candidate list, and every
/// candidate before the last one requested failed. When a candidate
/// succeeds, the pass ends there.
pub proof fn lemma_requests_in_order(rs: Seq<CandidateResponse>)
    ensures
        requested(rs, 0).len() <= candidate_urls().len(),
        requested(rs, 0) == candidate_urls().take(requested(rs, 0).len() as int),
        forall|j: int|
            0 <= j < requested(rs, 0).len() - 1 ==> candidate_outcome(candidate_urls()[j], rs[j]) is Err,
        forall|k: int|
            0 <= k < requested(rs, 0).len() && candidate_outcome(candidate_urls()[k], rs[k]) is Ok
                ==> k == requested(rs, 0).len() - 1 && pass_outcome(rs, 0, None)
                == candidate_outcome(candidate_urls()[k], rs[k]),
{
    lemma_requested_from(rs, 0);
    let n = requested(rs, 0).len();
    assert forall|k: int|
        0 <= k < n && candidate_outcome(candidate_urls()[k], rs[k]) is Ok implies k == n - 1
            && pass_outcome(rs, 0, None) == candidate_outcome(candidate_urls()[k], rs[k]) by {
        if k < n - 1 {
            assert(candidate_outcome(candidate_urls()[k], rs[k]) is Err);
        }
        assert(k < rs.len()) by {
            lemma_requested_len(rs, 0);
        }
        lemma_first_success_wins(rs, k as nat);
    }
}

proof fn lemma_requested_len(rs: Seq<CandidateResponse>, i: nat)
    ensures
        requested(rs, i).len() > 0 ==> i + requested(rs, i).len() <= rs.len(),
    decreases candidate_urls().len() - i,
{
    if i < candidate_urls().len() && i < rs.len() {
        if candidate_outcome(candidate_urls()[i as int], rs[i as int]) is Err {
            lemma_requested_len(rs, i + 1);
        }
    }
}

} // verus!
