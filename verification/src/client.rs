//! The request-budget tracker: a counter of authorized requests and a fixed
//! ceiling. An authorization is granted only while it keeps the counter at or
//! under the ceiling; the counter returns to zero only through a reset (the
//! owning client runs one periodically). Concurrent callers share a governor
//! behind a lock, so each call below acts as one atomic step.

use vstd::prelude::*;
use vstd::string::StringExecFns;

use crate::bakery::json_value_of_bytes;
use crate::bakery::leaven;
use crate::bakery::Leavenable;
use crate::error::DecodeError;
use crate::error::OARSError;

verus! {

/// Whether a request for `amount` more units fits under the ceiling.
pub open spec fn bump_allowed(counter: int, ceiling: int, amount: int) -> bool {
    counter + amount <= ceiling
}

/// The counter after a request for `amount` units: incremented when it fits,
/// unchanged when it does not.
pub open spec fn bump_next(counter: int, ceiling: int, amount: int) -> int {
    if bump_allowed(counter, ceiling, amount) {
        counter + amount
    } else {
        counter
    }
}

/// The counter after `n` single-unit authorization attempts.
pub open spec fn counter_after_auths(counter: int, ceiling: int, n: nat) -> int
    decreases n,
{
    if n == 0 {
        counter
    } else {
        bump_next(counter_after_auths(counter, ceiling, (n - 1) as nat), ceiling, 1)
    }
}

/// How many of `n` single-unit authorization attempts succeed.
pub open spec fn successful_auths(counter: int, ceiling: int, n: nat) -> int
    decreases n,
{
    if n == 0 {
        0
    } else {
        successful_auths(counter, ceiling, (n - 1) as nat) + if bump_allowed(
            counter_after_auths(counter, ceiling, (n - 1) as nat),
            ceiling,
            1,
        ) {
            1int
        } else {
            0int
        }
    }
}

/// Tracks how many requests have been authorized within the current window
/// and refuses authorization past the configured ceiling.
#[derive(Debug)]
pub struct QuotaGovernor {
    querycount: usize,
    dailylimit: usize,
}

impl QuotaGovernor {
    /// The number of requests authorized so far in this window.
    pub closed spec fn counter(self) -> int {
        self.querycount as int
    }

    /// The maximum number of requests permitted within one window.
    pub closed spec fn ceiling(self) -> int {
        self.dailylimit as int
    }

    /// The governor's invariant: the counter never passes the ceiling.
    pub open spec fn wf(self) -> bool {
        0 <= self.counter() <= self.ceiling()
    }

    /// A fresh governor: nothing authorized yet.
    pub fn new(dailylimit: usize) -> (g: Self)
        ensures
            g.counter() == 0,
            g.ceiling() == dailylimit,
            g.wf(),
    {
        QuotaGovernor { querycount: 0, dailylimit }
    }

    /// The current counter value. Never mutates.
    pub fn get_querycount(&self) -> (count: usize)
        ensures
            count == self.counter(),
    {
        self.querycount
    }

    /// Atomically checks whether `increment` (default 1) more requests fit
    /// under the ceiling; if so charges them to the counter, otherwise leaves
    /// the counter unchanged and reports `QueryLimitReached`.
    pub fn bump_querycount(&mut self, increment: Option<usize>) -> (r: Result<(), OARSError>)
        ensures
            old(self).wf() ==> final(self).wf(),
            final(self).ceiling() == old(self).ceiling(),
            ({
                let amount = match increment {
                    Some(n) => n as int,
                    None => 1int,
                };
                final(self).counter() == bump_next(old(self).counter(), old(self).ceiling(), amount)
                    && (r is Ok <==> bump_allowed(old(self).counter(), old(self).ceiling(), amount))
                    && (r matches Err(e) ==> e == OARSError::QueryLimitReached)
            }),
    {
        let amount: usize = match increment {
            Some(n) => n,
            None => 1,
        };
        if self.querycount > self.dailylimit || amount > self.dailylimit - self.querycount {
            return Err(OARSError::QueryLimitReached);
        }
        self.querycount = self.querycount + amount;
        Ok(())
    }

    /// Sets the counter back to exactly 0, whatever it was. Idempotent;
    /// callable directly or by the periodic reset.
    pub fn reset_querycount(&mut self)
        ensures
            final(self).counter() == 0,
            final(self).ceiling() == old(self).ceiling(),
            final(self).wf(),
    {
        self.querycount = 0;
    }
}

/// The counter stays at or under the ceiling through any run of single-unit
/// authorization attempts that starts in a well-formed state.
pub proof fn lemma_counter_stays_bounded(counter: int, ceiling: int, n: nat)
    requires
        0 <= counter <= ceiling,
    ensures
        0 <= counter_after_auths(counter, ceiling, n) <= ceiling,
    decreases n,
{
    if n > 0 {
        lemma_counter_stays_bounded(counter, ceiling, (n - 1) as nat);
    }
}

/// Each successful single-unit authorization adds exactly one to the counter
/// and a failed one adds nothing, so the successes among `n` attempts are the
/// distance the counter travelled.
pub proof fn lemma_successes_measure_counter(counter: int, ceiling: int, n: nat)
    requires
        0 <= counter <= ceiling,
    ensures
        successful_auths(counter, ceiling, n) == counter_after_auths(counter, ceiling, n) - counter,
    decreases n,
{
    if n > 0 {
        lemma_successes_measure_counter(counter, ceiling, (n - 1) as nat);
    }
}

/// The budget law: for every ceiling and any number of single-unit
/// authorization attempts issued before a reset, at most `ceiling` of them
/// succeed.
pub proof fn lemma_quota_never_exceeded(ceiling: int, n: nat)
    requires
        ceiling >= 0,
    ensures
        successful_auths(0, ceiling, n) <= ceiling,
{
    lemma_counter_stays_bounded(0, ceiling, n);
    lemma_successes_measure_counter(0, ceiling, n);
}

/// The kind of resource a fetch is for; each kind has its own path segment
/// under the service's base path.
pub enum ResourceKind {
    Works,
    Authors,
    Funders,
    Institutions,
    Publishers,
    Sources,
    Topics,
}

impl ResourceKind {
    /// The path segment of this resource kind.
    pub open spec fn segment_spec(self) -> Seq<char> {
        match self {
            ResourceKind::Works => "works"@,
            ResourceKind::Authors => "authors"@,
            ResourceKind::Funders => "funders"@,
            ResourceKind::Institutions => "institutions"@,
            ResourceKind::Publishers => "publishers"@,
            ResourceKind::Sources => "sources"@,
            ResourceKind::Topics => "topics"@,
        }
    }

    /// The path segment of this resource kind.
    pub fn segment(&self) -> (s: &str)
        ensures
            s@ == self.segment_spec(),
    {
        match self {
            ResourceKind::Works => "works",
            ResourceKind::Authors => "authors",
            ResourceKind::Funders => "funders",
            ResourceKind::Institutions => "institutions",
            ResourceKind::Publishers => "publishers",
            ResourceKind::Sources => "sources",
            ResourceKind::Topics => "topics",
        }
    }
}

/// The URL a fetch addresses: the base path, the kind's segment and the
/// resource's identifier, separated by slashes.
pub open spec fn fetch_url_spec(base: Seq<char>, segment: Seq<char>, id: Seq<char>) -> Seq<char> {
    base + "/"@ + segment + "/"@ + id
}

/// Builds the URL for one resource fetch.
pub fn fetch_url(base: &str, kind: &ResourceKind, id: &str) -> (url: String)
    ensures
        url@ == fetch_url_spec(base@, kind.segment_spec(), id@),
{
    let mut url = base.to_owned();
    url.append("/");
    url.append(kind.segment());
    url.append("/");
    url.append(id);
    url
}

/// The first half of a resource fetch: ask the governor to authorize one
/// request. When the budget allows it, the request is charged and the URL to
/// address is handed out; when it does not, `QueryLimitReached` comes back,
/// the counter stays unchanged and no URL is handed out, so no transport call
/// is made for this fetch.
pub fn prepare_fetch(
    gov: &mut QuotaGovernor,
    base: &str,
    kind: &ResourceKind,
    id: &str,
) -> (r: Result<String, OARSError>)
    ensures
        old(gov).wf() ==> final(gov).wf(),
        final(gov).ceiling() == old(gov).ceiling(),
        final(gov).counter() == bump_next(old(gov).counter(), old(gov).ceiling(), 1),
        if bump_allowed(old(gov).counter(), old(gov).ceiling(), 1) {
            r matches Ok(url) && url@ == fetch_url_spec(base@, kind.segment_spec(), id@)
        } else {
            r == Err::<String, OARSError>(OARSError::QueryLimitReached)
        },
{
    match gov.bump_querycount(None) {
        Ok(()) => Ok(fetch_url(base, kind, id)),
        Err(e) => Err(e),
    }
}

/// The second half of a resource fetch: judge what the transport call
/// produced. A transport failure (no body) surfaces as `NetworkError`; a body
/// is decoded through the codec's byte path, and a body that does not parse
/// surfaces as a decode failure.
pub fn complete_fetch(body: Option<Vec<u8>>) -> (r: Result<serde_json::Value, OARSError>)
    ensures
        match body {
            None => r == Err::<serde_json::Value, OARSError>(OARSError::NetworkError),
            Some(b) => r == (match json_value_of_bytes(b@) {
                Some(v) => Ok::<serde_json::Value, OARSError>(v),
                None => Err(OARSError::Decode(DecodeError::Malformed)),
            }),
        },
{
    match body {
        None => Err(OARSError::NetworkError),
        Some(b) => match leaven(Leavenable::ByteArray(b)) {
            Ok(v) => Ok(v),
            Err(e) => Err(OARSError::Decode(e)),
        },
    }
}

} // verus!
