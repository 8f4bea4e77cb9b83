//! One repository unit and the update algorithm's decisions.
//!
//! The update algorithm (fetch the remote branch tip into a private tracking
//! ref, compare it with the local head, hard-reset when they differ) runs
//! against the filesystem and the network. Those operations happen outside
//! the library; each attempt reports what they yielded as an
//! [`AttemptEvents`] value, and every decision and every change to the
//! repository's mutable state is made here, verified.

use vstd::prelude::*;
use crate::config::Config;
use crate::util::bytes_eq;

verus! {

/// The identity of a commit: the raw object id bytes.
#[derive(Clone, Debug)]
pub struct CommitId {
    pub bytes: Vec<u8>,
}

impl CommitId {
    /// Two commit ids name the same commit exactly when their bytes agree.
    pub fn same_as(&self, other: &CommitId) -> (r: bool)
        ensures
            r == (self.bytes@ == other.bytes@),
    {
        bytes_eq(self.bytes.as_slice(), other.bytes.as_slice())
    }
}

/// Why an update attempt failed.
#[derive(Clone, Copy, Debug, PartialEq, Eq, Structural)]
pub enum UpdateError {
    /// Local filesystem or repository open/init/reset failure.
    Storage,
    /// Network or protocol failure while fetching.
    Remote,
    /// Credential negotiation failure.
    Auth,
}

/// What the fetch step yielded.
#[derive(Clone, Copy, Debug, PartialEq, Eq, Structural)]
pub enum FetchOutcome {
    /// The remote branch tip landed in the tracking ref.
    Fetched,
    /// The credential negotiation failed (see [`crate::creds`]).
    AuthFailed,
    /// Any other fetch failure.
    TransportFailed,
}

/// What one update attempt's outside steps yielded, in the order the
/// algorithm takes them: open or initialize the repository, fetch, resolve
/// the two heads, and (only when they differ) hard-reset.
#[derive(Clone, Debug)]
pub struct AttemptEvents {
    /// The local repository could be opened, or created and initialized.
    pub opened: bool,
    /// The fetch outcome; a fetch is attempted exactly when `opened`.
    pub fetch: Option<FetchOutcome>,
    /// The local head before any reset, if one exists (a brand-new
    /// repository has none); resolved only after a successful fetch.
    pub head: Option<CommitId>,
    /// The tracking ref's tip; present after every successful fetch.
    pub target: Option<CommitId>,
    /// Whether the hard reset succeeded; meaningful only when one was
    /// needed, and to be left `true` when none was.
    pub reset_ok: bool,
}

impl AttemptEvents {
    /// The events are consistent with the order of the algorithm's steps.
    pub open spec fn wf(self) -> bool {
        &&& self.fetch is Some <==> self.opened
        &&& self.target is Some <==> self.fetch == Some(FetchOutcome::Fetched)
        &&& self.head is Some ==> self.fetch == Some(FetchOutcome::Fetched)
    }
}

/// The local working copy already sits on the fetched tip: nothing to do.
pub open spec fn up_to_date(head: Option<CommitId>, target: Option<CommitId>) -> bool {
    &&& head matches Some(h)
    &&& target matches Some(t)
    &&& h.bytes@ == t.bytes@
}

/// What one attempt returns, as a function of what its outside steps
/// yielded: open/init failure is `Storage`; a failed credential negotiation
/// is `Auth` and any other fetch failure `Remote`; an up-to-date working
/// copy is `Ok(false)`; a failed reset is `Storage`; a completed reset is
/// `Ok(true)`.
pub open spec fn attempt_result(e: AttemptEvents) -> Result<bool, UpdateError> {
    if !e.opened {
        Err(UpdateError::Storage)
    } else {
        match e.fetch {
            Some(FetchOutcome::AuthFailed) => Err(UpdateError::Auth),
            Some(FetchOutcome::TransportFailed) => Err(UpdateError::Remote),
            Some(FetchOutcome::Fetched) => if up_to_date(e.head, e.target) {
                Ok(false)
            } else if !e.reset_ok {
                Err(UpdateError::Storage)
            } else {
                Ok(true)
            },
            None => Err(UpdateError::Remote),
        }
    }
}

/// The private tracking ref that every fetch lands in: a fixed name
/// distinct from any user branch, so repeated runs always land in the same
/// place.
pub fn target_ref() -> (r: &'static str)
    ensures
        r@ == "refs/pullomatic"@,
{
    "refs/pullomatic"
}

/// The refspec one attempt fetches: the configured remote branch, forced
/// into the private tracking ref.
pub fn fetch_refspec(config: &Config) -> (r: String)
    ensures
        r@ == "+"@ + "refs/heads/"@ + config.remote_branch@ + ":"@ + "refs/pullomatic"@,
{
    let mut r = String::from_str("+");
    let head = config.remote_ref();
    r.append(head.as_str());
    r.append(":");
    r.append(target_ref());
    r
}

/// The mutable per-repository state, guarded outside the library by the
/// unit's exclusive lock.
#[derive(Clone, Copy, Debug)]
pub struct RepoState {
    /// When the last update attempt began, failed ones included.
    pub last_checked: Option<u64>,
    /// When an attempt last changed the working copy.
    pub last_changed: Option<u64>,
}

impl RepoState {
    /// `last_changed` never runs ahead of `last_checked`.
    pub open spec fn wf(self) -> bool {
        self.last_changed matches Some(c) ==> (self.last_checked matches Some(k) && c <= k)
    }

    /// Fresh state: no attempt has run yet.
    pub fn new() -> (s: RepoState)
        ensures
            s.last_checked is None,
            s.last_changed is None,
            s.wf(),
    {
        RepoState { last_checked: None, last_changed: None }
    }

    /// When the last update attempt began, if any has.
    pub fn last_checked(&self) -> (r: Option<u64>)
        ensures
            r == self.last_checked,
    {
        self.last_checked
    }

    /// An attempt begins: `last_checked` advances to `now` unconditionally,
    /// even if later steps fail, so failed checks still advance the
    /// schedule.
    pub fn begin_attempt(&mut self, now: u64)
        requires
            old(self).wf(),
            old(self).last_checked matches Some(k) ==> k <= now,
        ensures
            final(self).last_checked == Some(now),
            final(self).last_changed == old(self).last_changed,
            final(self).wf(),
    {
        self.last_checked = Some(now);
    }

    /// An attempt ends: return what it yielded and, exactly on a completed
    /// change, advance `last_changed` to the attempt's `now`.
    pub fn conclude_attempt(&mut self, now: u64, e: &AttemptEvents) -> (r: Result<
        bool,
        UpdateError,
    >)
        requires
            old(self).wf(),
            e.wf(),
            old(self).last_checked == Some(now),
        ensures
            r == attempt_result(*e),
            final(self).last_checked == Some(now),
            r == Ok::<bool, UpdateError>(true) ==> final(self).last_changed == Some(now),
            r != Ok::<bool, UpdateError>(true) ==> final(self).last_changed == old(
                self,
            ).last_changed,
            final(self).wf(),
    {
        if !e.opened {
            return Err(UpdateError::Storage);
        }
        match &e.fetch {
            Some(FetchOutcome::AuthFailed) => Err(UpdateError::Auth),
            Some(FetchOutcome::TransportFailed) => Err(UpdateError::Remote),
            Some(FetchOutcome::Fetched) => {
                let same = match (&e.head, &e.target) {
                    (Some(h), Some(t)) => h.same_as(t),
                    _ => false,
                };
                if same {
                    Ok(false)
                } else if !e.reset_ok {
                    Err(UpdateError::Storage)
                } else {
                    self.last_changed = Some(now);
                    Ok(true)
                }
            },
            None => Err(UpdateError::Remote),
        }
    }
}

/// Whether the algorithm's reset step is due: the fetch succeeded and the
/// working copy is not already on the fetched tip.
pub fn needs_reset(e: &AttemptEvents) -> (r: bool)
    ensures
        r == (e.opened && e.fetch == Some(FetchOutcome::Fetched) && !up_to_date(
            e.head,
            e.target,
        )),
{
    if !e.opened {
        return false;
    }
    match &e.fetch {
        Some(FetchOutcome::Fetched) => {
            let same = match (&e.head, &e.target) {
                (Some(h), Some(t)) => h.same_as(t),
                _ => false,
            };
            !same
        },
        _ => false,
    }
}

/// One repository unit's static fields; the mutable [`RepoState`] lives
/// beside it, behind the unit's exclusive lock.
#[derive(Clone, Debug)]
pub struct Repo {
    pub name: String,
    pub config: Config,
}

impl Repo {
    /// A unit is created once at startup from one configuration entry.
    pub fn new(name: String, config: Config) -> (r: Repo)
        ensures
            r.name == name,
            r.config == config,
    {
        Repo { name, config }
    }
}

/// The state after a whole attempt that began at `now` on state `pre` and
/// observed `e`: `last_checked` is `now`, and `last_changed` moved to `now`
/// exactly when the attempt changed the working copy.
pub open spec fn attempt_post(pre: RepoState, now: u64, e: AttemptEvents) -> RepoState {
    RepoState {
        last_checked: Some(now),
        last_changed: if attempt_result(e) == Ok::<bool, UpdateError>(true) {
            Some(now)
        } else {
            pre.last_changed
        },
    }
}

/// After any update attempt at a time `now` later than every earlier check,
/// `last_checked` strictly increases, and it stays at or above every
/// `last_changed` time, the previous one included.
pub proof fn lemma_attempt_monotonic(pre: RepoState, now: u64, e: AttemptEvents)
    requires
        pre.wf(),
        pre.last_checked matches Some(k) ==> k < now,
    ensures
        attempt_post(pre, now, e).wf(),
        attempt_post(pre, now, e).last_checked == Some(now),
        pre.last_checked matches Some(k) ==> k < now,
        pre.last_changed matches Some(c) ==> c <= now,
        attempt_post(pre, now, e).last_changed matches Some(c) ==> c <= now,
{
}

/// Idempotence: a second attempt that fetches the same remote tip that the
/// first attempt ended on reports "unchanged" and leaves `last_changed`
/// exactly where the first attempt put it. That the second attempt's local
/// head equals the first attempt's fetched tip is what a completed first
/// attempt establishes: either its reset moved the head there, or the head
/// was already there.
pub proof fn lemma_attempt_idempotent(
    pre: RepoState,
    now1: u64,
    now2: u64,
    e1: AttemptEvents,
    e2: AttemptEvents,
)
    requires
        e1.wf(),
        e2.wf(),
        attempt_result(e1) is Ok,
        e2.opened,
        e2.fetch == Some(FetchOutcome::Fetched),
        ({
            &&& e1.target matches Some(t1)
            &&& e2.target matches Some(t2) && t2.bytes@ == t1.bytes@
            &&& e2.head matches Some(h) && h.bytes@ == t1.bytes@
        }),
    ensures
        attempt_result(e2) == Ok::<bool, UpdateError>(false),
        attempt_post(attempt_post(pre, now1, e1), now2, e2).last_changed == attempt_post(
            pre,
            now1,
            e1,
        ).last_changed,
{
}

} // verus!
