//! A pool holding at most one live browser session.
//!
//! The pool never holds more than one constructed resource. On
//! acquisition the caller reports the result of a liveness probe of the
//! held session: a live session is handed out again unchanged, while a
//! missing or dead one triggers construction of a fresh session. The
//! session itself lives outside the library; here it is identified by
//! its construction number, so reuse and recreation are observable.

use vstd::prelude::*;

verus! {

/// Holds at most one live browser session, identified by the number of
/// constructions performed so far.
pub struct BrowserPool {
    current: Option<u64>,
    created: u64,
}

/// Full relation between a pool before and after one `acquire` call:
/// `handle` is the session handed out, `constructed` says whether a new
/// session was built, `probe_alive` is the caller's liveness probe of
/// the held session (ignored when none is held).
pub open spec fn acquire_post(
    pre: BrowserPool,
    post: BrowserPool,
    handle: u64,
    constructed: bool,
    probe_alive: bool,
) -> bool {
    if pre.spec_current() is Some && probe_alive {
        &&& handle == pre.spec_current()->0
        &&& !constructed
        &&& post.spec_current() == pre.spec_current()
        &&& post.spec_created() == pre.spec_created()
    } else {
        &&& constructed
        &&& handle == pre.spec_created() + 1
        &&& post.spec_current() == Some(handle)
        &&& post.spec_created() == pre.spec_created() + 1
    }
}

impl BrowserPool {
    /// The session currently held, if any.
    pub closed spec fn spec_current(self) -> Option<u64> {
        self.current
    }

    /// How many sessions have ever been constructed.
    pub closed spec fn spec_created(self) -> u64 {
        self.created
    }

    /// The held session, if any, is the most recently constructed one.
    pub open spec fn wf(self) -> bool {
        self.spec_current() matches Some(g) ==> g == self.spec_created()
    }

    /// A pool that holds no session yet.
    pub fn new() -> (r: BrowserPool)
        ensures
            r.wf(),
            r.spec_current() is None,
            r.spec_created() == 0,
    {
        BrowserPool { current: None, created: 0 }
    }

    /// How many sessions this pool has constructed so far.
    pub fn created_count(&self) -> (r: u64)
        ensures
            r == self.spec_created(),
    {
        self.created
    }

    /// Hands out a session. If one is held and `probe_alive` reports it
    /// live, that same session is returned and nothing is constructed;
    /// otherwise a fresh session replaces it. Returns the session and
    /// whether it was constructed by this call.
    pub fn acquire(&mut self, probe_alive: bool) -> (r: (u64, bool))
        requires
            old(self).wf(),
            old(self).spec_created() < u64::MAX,
        ensures
            final(self).wf(),
            acquire_post(*old(self), *final(self), r.0, r.1, probe_alive),
    {
        match self.current {
            Some(g) if probe_alive => (g, false),
            _ => {
                let g = self.created + 1;
                self.created = g;
                self.current = Some(g);
                (g, true)
            },
        }
    }
}

/// Law: when the session handed out by one acquisition stays alive, the
/// next acquisition hands out the very same session and constructs
/// nothing.
pub proof fn lemma_second_acquire_reuses(
    s0: BrowserPool,
    s1: BrowserPool,
    s2: BrowserPool,
    g1: u64,
    g2: u64,
    c1: bool,
    c2: bool,
    probe1: bool,
)
    requires
        acquire_post(s0, s1, g1, c1, probe1),
        acquire_post(s1, s2, g2, c2, true),
    ensures
        g2 == g1,
        !c2,
        s2.spec_created() == s1.spec_created(),
{
}

/// Law: when the held session dies between two acquisitions, the next
/// acquisition constructs a session that is not the one handed out
/// before.
pub proof fn lemma_dead_probe_recreates(
    s0: BrowserPool,
    s1: BrowserPool,
    s2: BrowserPool,
    g1: u64,
    g2: u64,
    c1: bool,
    c2: bool,
    probe1: bool,
)
    requires
        s0.wf(),
        s1.spec_created() < u64::MAX,
        acquire_post(s0, s1, g1, c1, probe1),
        acquire_post(s1, s2, g2, c2, false),
    ensures
        c2,
        g2 != g1,
{
}

} // verus!
