//! The registry of active streaming sessions, the session control surface
//! a host application polls: sessions are keyed by monotonically
//! increasing integer ids, and a stopped session is removed from the
//! registry.
//!
//! The registry is generic in what it stores, so the application shell
//! registers its running sessions — which carry thread handles the
//! verified core cannot hold — under the same verified id, lookup and
//! removal discipline that the library's own session core uses.

use vstd::prelude::*;
use vstd::string::StringExecFns;
use crate::errors::CoreError;
use crate::session::StreamingHandle;

verus! {

/// The first handle registered under `id`, if any.
pub open spec fn find_session<T>(s: Seq<(u64, T)>, id: u64) -> Option<T>
    decreases s.len(),
{
    if s.len() == 0 {
        None
    } else if s[0].0 == id {
        Some(s[0].1)
    } else {
        find_session(s.drop_first(), id)
    }
}

/// The sequence without its first entry keyed `id` (unchanged if none).
pub open spec fn remove_session_spec<T>(s: Seq<(u64, T)>, id: u64) -> Seq<(u64, T)>
    decreases s.len(),
{
    if s.len() == 0 {
        s
    } else if s[0].0 == id {
        s.drop_first()
    } else {
        seq![s[0]] + remove_session_spec(s.drop_first(), id)
    }
}

/// No id occurs twice.
pub open spec fn ids_unique<T>(s: Seq<(u64, T)>) -> bool {
    forall|i: int, j: int| 0 <= i < j < s.len() ==> s[i].0 != s[j].0
}

/// A session is found exactly when some entry carries its id.
pub proof fn lemma_find_session_some<T>(s: Seq<(u64, T)>, id: u64)
    ensures
        (find_session(s, id) is Some) <==> exists|i: int| 0 <= i < s.len() && s[i].0 == id,
    decreases s.len(),
{
    if s.len() > 0 {
        lemma_find_session_some(s.drop_first(), id);
        if s[0].0 != id {
            if exists|i: int| 0 <= i < s.len() && s[i].0 == id {
                let i = choose|i: int| 0 <= i < s.len() && s[i].0 == id;
                assert(s.drop_first()[i - 1].0 == id);
            }
            if exists|i: int| 0 <= i < s.drop_first().len() && s.drop_first()[i].0 == id {
                let i = choose|i: int|
                    0 <= i < s.drop_first().len() && s.drop_first()[i].0 == id;
                assert(s[i + 1].0 == id);
            }
        }
    }
}

/// Dropping the head of a sequence with unique ids keeps its ids unique.
pub proof fn lemma_ids_unique_drop_first<T>(s: Seq<(u64, T)>)
    requires
        s.len() > 0,
        ids_unique(s),
    ensures
        ids_unique(s.drop_first()),
{
    assert forall|i: int, j: int| 0 <= i < j < s.drop_first().len() implies s.drop_first()[i].0
        != s.drop_first()[j].0 by {
        assert(s.drop_first()[i] == s[i + 1]);
        assert(s.drop_first()[j] == s[j + 1]);
    }
}

/// Removing an id removes it for good (ids being unique), and leaves every
/// other id bound to the same handle.
pub proof fn lemma_remove_session<T>(s: Seq<(u64, T)>, id: u64)
    requires
        ids_unique(s),
    ensures
        ids_unique(remove_session_spec(s, id)),
        find_session(remove_session_spec(s, id), id) is None,
        forall|other: u64| other != id ==> find_session(remove_session_spec(s, id), other)
            == find_session(s, other),
    decreases s.len(),
{
    if s.len() > 0 {
        lemma_ids_unique_drop_first(s);
        if s[0].0 == id {
            // the removal yields the tail, where `id` cannot occur again
            lemma_find_session_some(s.drop_first(), id);
            if find_session(s.drop_first(), id) is Some {
                let i = choose|i: int|
                    0 <= i < s.drop_first().len() && s.drop_first()[i].0 == id;
                assert(s[0].0 == s[i + 1].0);
                assert(false);
            }
        } else {
            lemma_remove_session(s.drop_first(), id);
            lemma_remove_keeps_ids(s.drop_first(), id);
            let rest = remove_session_spec(s.drop_first(), id);
            let whole = seq![s[0]] + rest;
            assert(remove_session_spec(s, id) == whole);
            assert(whole[0] == s[0]);
            assert(whole.drop_first() =~= rest);
            assert forall|i: int, j: int| 0 <= i < j < whole.len() implies whole[i].0
                != whole[j].0 by {
                if i == 0 {
                    assert(whole[j] == rest[j - 1]);
                    let k = choose|k: int|
                        0 <= k < s.drop_first().len() && #[trigger] s.drop_first()[k] == rest[j
                            - 1];
                    assert(s[k + 1] == rest[j - 1]);
                } else {
                    assert(whole[i] == rest[i - 1] && whole[j] == rest[j - 1]);
                }
            }
            assert(find_session(whole, id) == find_session(rest, id));
            assert forall|other: u64| other != id implies find_session(whole, other)
                == find_session(s, other) by {
                if s[0].0 == other {
                    assert(find_session(whole, other) == Some(whole[0].1));
                    assert(find_session(s, other) == Some(s[0].1));
                } else {
                    assert(find_session(whole, other) == find_session(rest, other));
                    assert(find_session(s, other) == find_session(s.drop_first(), other));
                }
            }
        }
    }
}

/// Every entry that survives removal was present before.
pub proof fn lemma_remove_keeps_ids<T>(s: Seq<(u64, T)>, id: u64)
    ensures
        forall|j: int|
            0 <= j < remove_session_spec(s, id).len() ==> exists|k: int|
                0 <= k < s.len() && #[trigger] s[k] == #[trigger] remove_session_spec(s, id)[j],
    decreases s.len(),
{
    if s.len() > 0 {
        if s[0].0 == id {
            assert forall|j: int| 0 <= j < remove_session_spec(s, id).len() implies exists|k: int|
                0 <= k < s.len() && #[trigger] s[k] == #[trigger] remove_session_spec(s, id)[j] by {
                assert(s[j + 1] == remove_session_spec(s, id)[j]);
            }
        } else {
            lemma_remove_keeps_ids(s.drop_first(), id);
            let rest = remove_session_spec(s.drop_first(), id);
            assert forall|j: int| 0 <= j < remove_session_spec(s, id).len() implies exists|k: int|
                0 <= k < s.len() && #[trigger] s[k] == #[trigger] remove_session_spec(s, id)[j] by {
                if j == 0 {
                    assert(s[0] == remove_session_spec(s, id)[0]);
                } else {
                    assert(remove_session_spec(s, id)[j] == rest[j - 1]);
                    let k = choose|k: int|
                        0 <= k < s.drop_first().len() && s.drop_first()[k] == rest[j - 1];
                    assert(s[k + 1] == rest[j - 1]);
                }
            }
        }
    }
}

/// Registry of the active streaming sessions.
pub struct SessionRegistry<T> {
    next_id: u64,
    sessions: Vec<(u64, T)>,
}

impl<T> SessionRegistry<T> {
    pub closed spec fn spec_next_id(&self) -> u64 {
        self.next_id
    }

    pub closed spec fn spec_sessions(&self) -> Seq<(u64, T)> {
        self.sessions@
    }

    /// Ids are unique and all below the id the next session will get.
    pub open spec fn wf(&self) -> bool {
        &&& ids_unique(self.spec_sessions())
        &&& forall|i: int| 0 <= i < self.spec_sessions().len() ==> self.spec_sessions()[i].0
            < self.spec_next_id()
    }

    /// An empty registry; the first session gets id 1.
    pub fn new() -> (r: Self)
        ensures
            r.wf(),
            r.spec_sessions().len() == 0,
            r.spec_next_id() == 1,
    {
        SessionRegistry { next_id: 1, sessions: Vec::new() }
    }

    /// Whether another session can still be registered (ids not yet
    /// exhausted).
    pub fn can_register(&self) -> (r: bool)
        ensures
            r == (self.spec_next_id() < u64::MAX),
    {
        self.next_id < u64::MAX
    }

    /// Register a freshly started session and hand out its id.  Ids grow
    /// monotonically: each registration returns the current `next_id` and
    /// advances it.
    pub fn start_streaming_session(&mut self, handle: T) -> (id: u64)
        requires
            old(self).wf(),
            old(self).spec_next_id() < u64::MAX,
        ensures
            final(self).wf(),
            id == old(self).spec_next_id(),
            final(self).spec_next_id() == old(self).spec_next_id() + 1,
            final(self).spec_sessions() == old(self).spec_sessions().push((id, handle)),
            find_session(final(self).spec_sessions(), id) == Some(handle),
    {
        let id = self.next_id;
        self.next_id = self.next_id + 1;
        self.sessions.push((id, handle));
        proof {
            let s = self.spec_sessions();
            lemma_find_session_last(s, id);
            assert forall|i: int, j: int| 0 <= i < j < s.len() implies s[i].0 != s[j].0 by {
                if j == s.len() - 1 {
                    assert(old(self).spec_sessions()[i].0 < id);
                }
            }
        }
        id
    }

    /// The session registered under this id, if any.
    pub fn get_session(&self, session_id: u64) -> (r: Option<&T>)
        ensures
            match find_session(self.spec_sessions(), session_id) {
                Some(h) => r matches Some(b) && *b == h,
                None => r is None,
            },
    {
        let n = self.sessions.len();
        let mut i: usize = 0;
        proof {
            assert(self.spec_sessions().skip(0) =~= self.spec_sessions());
        }
        while i < n
            invariant
                i <= n,
                n == self.spec_sessions().len(),
                find_session(self.spec_sessions(), session_id) == find_session(
                    self.spec_sessions().skip(i as int),
                    session_id,
                ),
            decreases n - i,
        {
            let sid = self.sessions[i].0;
            proof {
                assert(self.spec_sessions().skip(i as int)[0] == self.spec_sessions()[i as int]);
            }
            if sid == session_id {
                return Some(&self.sessions[i].1);
            }
            proof {
                lemma_find_session_skip(self.spec_sessions(), session_id, i as int);
            }
            i += 1;
        }
        None
    }

    /// Remove the session with this id so it can be stopped; an unknown id
    /// is an error and leaves the registry unchanged.  After removal the
    /// id is gone and every other session is untouched.
    pub fn remove_session(&mut self, session_id: u64) -> (r: Result<T, CoreError>)
        requires
            old(self).wf(),
        ensures
            final(self).wf(),
            final(self).spec_next_id() == old(self).spec_next_id(),
            match r {
                Ok(h) => {
                    &&& find_session(old(self).spec_sessions(), session_id) == Some(h)
                    &&& final(self).spec_sessions() == remove_session_spec(
                        old(self).spec_sessions(),
                        session_id,
                    )
                    &&& find_session(final(self).spec_sessions(), session_id) is None
                },
                Err(e) => {
                    &&& find_session(old(self).spec_sessions(), session_id) is None
                    &&& final(self).spec_sessions() == old(self).spec_sessions()
                    &&& e matches CoreError::Transcription(m) && m@
                        == "Streaming session not found"@
                },
            },
            forall|other: u64| other != session_id ==> find_session(
                final(self).spec_sessions(),
                other,
            ) == find_session(old(self).spec_sessions(), other),
    {
        let n = self.sessions.len();
        let mut i: usize = 0;
        while i < n
            invariant
                i <= n,
                n == self.spec_sessions().len(),
                self == old(self),
                old(self).wf(),
                forall|j: int| 0 <= j < i ==> self.spec_sessions()[j].0 != session_id,
            decreases n - i,
        {
            let sid = self.sessions[i].0;
            if sid == session_id {
                proof {
                    assert(ids_unique(self.spec_sessions()));
                    lemma_remove_session_at(self.spec_sessions(), session_id, i as int);
                    lemma_find_session_at(self.spec_sessions(), session_id, i as int);
                    lemma_remove_session(self.spec_sessions(), session_id);
                    lemma_remove_keeps_ids(self.spec_sessions(), session_id);
                }
                let removed = self.sessions.remove(i);
                let handle = removed.1;
                proof {
                    let olds = old(self).spec_sessions();
                    let news = self.spec_sessions();
                    assert(news =~= remove_session_spec(olds, session_id));
                    assert forall|k: int| 0 <= k < news.len() implies news[k].0
                        < self.spec_next_id() by {
                        assert(news[k] == remove_session_spec(olds, session_id)[k]);
                        let w = choose|w: int|
                            0 <= w < olds.len() && #[trigger] olds[w] == remove_session_spec(
                                olds,
                                session_id,
                            )[k];
                        assert(olds[w].0 < old(self).spec_next_id());
                    }
                }
                return Ok(handle);
            }
            i += 1;
        }
        proof {
            lemma_find_session_some(self.spec_sessions(), session_id);
        }
        Err(CoreError::Transcription(String::from_str("Streaming session not found")))
    }
}

impl SessionRegistry<StreamingHandle> {
    /// The accumulated text of the session with this id, or the empty
    /// string when no such session is active.
    pub fn get_streaming_text(&self, session_id: u64) -> (r: String)
        ensures
            match find_session(self.spec_sessions(), session_id) {
                Some(h) => r@ == h.spec_text(),
                None => r@ == Seq::<char>::empty(),
            },
    {
        match self.get_session(session_id) {
            Some(handle) => handle.current_text(),
            None => String::new(),
        }
    }

    /// Whether the session with this id exists and still runs.
    pub fn is_streaming_session_active(&self, session_id: u64) -> (r: bool)
        ensures
            r == match find_session(self.spec_sessions(), session_id) {
                Some(h) => !h.spec_stop_requested(),
                None => false,
            },
    {
        match self.get_session(session_id) {
            Some(handle) => handle.is_running(),
            None => false,
        }
    }
}

/// Skipping past entries that do not match leaves the lookup unchanged.
pub proof fn lemma_find_session_skip<T>(s: Seq<(u64, T)>, id: u64, i: int)
    requires
        0 <= i < s.len(),
        s[i].0 != id,
    ensures
        find_session(s.skip(i), id) == find_session(s.skip(i + 1), id),
{
    assert(s.skip(i).len() > 0);
    assert(s.skip(i)[0] == s[i]);
    assert(s.skip(i).drop_first() =~= s.skip(i + 1));
}

/// A freshly pushed entry is found when no earlier entry matches its id.
pub proof fn lemma_find_session_last<T>(s: Seq<(u64, T)>, id: u64)
    requires
        s.len() > 0,
        s.last().0 == id,
        forall|i: int| 0 <= i < s.len() - 1 ==> s[i].0 != id,
    ensures
        find_session(s, id) == Some(s.last().1),
    decreases s.len(),
{
    if s.len() > 1 {
        assert(s.drop_first().last() == s.last());
        lemma_find_session_last(s.drop_first(), id);
    }
}

/// Lookup finds the entry at the first matching index.
pub proof fn lemma_find_session_at<T>(s: Seq<(u64, T)>, id: u64, i: int)
    requires
        0 <= i < s.len(),
        s[i].0 == id,
        forall|j: int| 0 <= j < i ==> s[j].0 != id,
    ensures
        find_session(s, id) == Some(s[i].1),
    decreases i,
{
    if i > 0 {
        lemma_find_session_at(s.drop_first(), id, i - 1);
    }
}

/// Removal removes exactly the entry at the first matching index.
pub proof fn lemma_remove_session_at<T>(s: Seq<(u64, T)>, id: u64, i: int)
    requires
        0 <= i < s.len(),
        s[i].0 == id,
        forall|j: int| 0 <= j < i ==> s[j].0 != id,
    ensures
        remove_session_spec(s, id) =~= s.remove(i),
    decreases i,
{
    if i == 0 {
        assert(s.drop_first() =~= s.remove(0));
    } else {
        lemma_remove_session_at(s.drop_first(), id, i - 1);
        assert(seq![s[0]] + s.drop_first().remove(i - 1) =~= s.remove(i));
    }
}

} // verus!
