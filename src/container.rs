use vstd::prelude::*;
use crate::error::Error;
use crate::ids::SessionKey;

verus! {

/// What the registry keeps of a live session.
#[derive(Clone, Copy, Debug)]
pub struct SessionEntry {
    pub key: SessionKey,
    pub finished: bool,
}

pub type KeyView = (Seq<u8>, Option<Seq<u8>>);

/// Registry of the live sessions of one kind, keyed by session key.
pub struct SessionContainer {
    entries: Vec<SessionEntry>,
    preserve: bool,
    listeners: usize,
}

impl SessionContainer {
    /// No key stands twice.
    pub closed spec fn wf(&self) -> bool {
        forall|i: int, j: int|
            0 <= i < self.entries@.len() && 0 <= j < self.entries@.len() && i != j
                ==> self.entries@[i].key@ != self.entries@[j].key@
    }

    /// The keys of the live sessions.
    pub closed spec fn keys(&self) -> Set<KeyView> {
        Set::new(|k: KeyView| exists|i: int| 0 <= i < self.entries@.len() && self.entries@[i].key@ == k)
    }

    /// The keys of the live sessions that have reached a terminal state.
    pub closed spec fn finished_keys(&self) -> Set<KeyView> {
        Set::new(|k: KeyView| exists|i: int| 0 <= i < self.entries@.len() && self.entries@[i].key@ == k
            && self.entries@[i].finished)
    }

    /// Positions in the registry that hold a session under `k`.
    pub closed spec fn slots_of(&self, k: KeyView) -> Set<int> {
        Set::new(|i: int| 0 <= i < self.entries@.len() && self.entries@[i].key@ == k)
    }

    /// Both registries keep their preserving mode and their listeners.
    pub open spec fn settings_kept(&self, other: &SessionContainer) -> bool {
        self.preserving() == other.preserving() && self.listener_count() == other.listener_count()
    }

    /// Both registries hold the same sessions in the same states, under the
    /// same settings.
    pub open spec fn same_state(&self, other: &SessionContainer) -> bool {
        &&& self.keys() == other.keys()
        &&& self.finished_keys() == other.finished_keys()
        &&& self.settings_kept(other)
    }

    /// Whether finished sessions are kept for inspection.
    pub closed spec fn preserving(&self) -> bool {
        self.preserve
    }

    /// Number of registered listeners.
    pub closed spec fn listener_count(&self) -> nat {
        self.listeners as nat
    }

    pub fn new() -> (r: SessionContainer)
        ensures
            r.wf(),
            r.keys() == Set::<KeyView>::empty(),
            !r.preserving(),
            r.listener_count() == 0,
    {
        let r = SessionContainer { entries: Vec::new(), preserve: false, listeners: 0 };
        assert(r.keys() =~= Set::<KeyView>::empty());
        r
    }

    fn position(&self, key: &SessionKey) -> (r: Option<usize>)
        ensures
            r matches Some(i) ==> i < self.entries@.len() && self.entries@[i as int].key@ == key@,
            r is None ==> !self.keys().contains(key@),
    {
        let mut i: usize = 0;
        while i < self.entries.len()
            invariant
                0 <= i <= self.entries@.len(),
                forall|j: int| 0 <= j < i ==> self.entries@[j].key@ != key@,
            decreases self.entries.len() - i,
        {
            if self.entries[i].key.same(key) {
                return Some(i);
            }
            i = i + 1;
        }
        None
    }

    /// Whether no session is live.
    pub fn is_empty(&self) -> (r: bool)
        ensures
            r == (self.keys() == Set::<KeyView>::empty()),
    {
        if self.entries.len() == 0 {
            assert(self.keys() =~= Set::<KeyView>::empty());
            true
        } else {
            assert(self.keys().contains(self.entries@[0].key@));
            false
        }
    }

    /// Registers a new live session under `key`. Fails with
    /// `DuplicateSessionId` where `key` is live already, and for an exclusive
    /// session with `HasActiveSessions` where any session is live.
    pub fn insert(&mut self, key: SessionKey, is_exclusive: bool) -> (r: Result<(), Error>)
        requires
            old(self).wf(),
        ensures
            final(self).wf(),
            final(self).preserving() == old(self).preserving(),
            final(self).listener_count() == old(self).listener_count(),
            old(self).keys().contains(key@) ==> r == Err::<(), Error>(Error::DuplicateSessionId),
            !old(self).keys().contains(key@) && is_exclusive && old(self).keys() != Set::<KeyView>::empty()
                ==> r == Err::<(), Error>(Error::HasActiveSessions),
            !old(self).keys().contains(key@) && !(is_exclusive && old(self).keys() != Set::<KeyView>::empty())
                ==> r is Ok,
            r is Ok ==> final(self).keys() == old(self).keys().insert(key@)
                && final(self).finished_keys() == old(self).finished_keys(),
            r is Err ==> final(self).keys() == old(self).keys()
                && final(self).finished_keys() == old(self).finished_keys(),
    {
        if let Some(_) = self.position(&key) {
            return Err(Error::DuplicateSessionId);
        }
        if is_exclusive && !self.is_empty() {
            return Err(Error::HasActiveSessions);
        }
        let ghost before = self.entries@;
        self.entries.push(SessionEntry { key, finished: false });
        proof {
            assert forall|k: KeyView| self.keys().contains(k) <==> old(self).keys().insert(key@).contains(k) by {
                if self.keys().contains(k) {
                    let i = choose|i: int| 0 <= i < self.entries@.len() && self.entries@[i].key@ == k;
                    if i < before.len() {
                        assert(before[i] == self.entries@[i]);
                    }
                }
                if old(self).keys().contains(k) {
                    let i = choose|i: int| 0 <= i < before.len() && before[i].key@ == k;
                    assert(before[i] == self.entries@[i]);
                }
                if k == key@ {
                    assert(self.entries@[before.len() as int].key@ == k);
                }
            }
            assert(self.keys() =~= old(self).keys().insert(key@));
            assert forall|k: KeyView| self.finished_keys().contains(k) <==> old(self).finished_keys().contains(k) by {
                if self.finished_keys().contains(k) {
                    let i = choose|i: int| 0 <= i < self.entries@.len() && self.entries@[i].key@ == k
                        && self.entries@[i].finished;
                    assert(i < before.len());
                    assert(before[i] == self.entries@[i]);
                }
                if old(self).finished_keys().contains(k) {
                    let i = choose|i: int| 0 <= i < before.len() && before[i].key@ == k && before[i].finished;
                    assert(before[i] == self.entries@[i]);
                }
            }
            assert(self.finished_keys() =~= old(self).finished_keys());
            assert forall|i: int, j: int|
                0 <= i < self.entries@.len() && 0 <= j < self.entries@.len() && i != j
                implies self.entries@[i].key@ != self.entries@[j].key@ by {
                if i == before.len() {
                    assert(old(self).keys().contains(self.entries@[j].key@));
                }
                if j == before.len() {
                    assert(old(self).keys().contains(self.entries@[i].key@));
                }
            }
        }
        Ok(())
    }
}

impl SessionContainer {
    /// The live session under `key`; a finished one only where
    /// `include_finished` asks for it.
    pub fn get(&self, key: &SessionKey, include_finished: bool) -> (r: Option<SessionEntry>)
        requires
            self.wf(),
        ensures
            r is Some <==> self.keys().contains(key@) && (include_finished
                || !self.finished_keys().contains(key@)),
            r matches Some(e) ==> e.key@ == key@ && e.finished == self.finished_keys().contains(key@),
    {
        match self.position(key) {
            Some(i) => {
                let e = self.entries[i];
                proof {
                    if self.finished_keys().contains(key@) {
                        let j = choose|j: int| 0 <= j < self.entries@.len() && self.entries@[j].key@ == key@
                            && self.entries@[j].finished;
                        assert(j == i);
                    }
                    if e.finished {
                        assert(self.finished_keys().contains(key@));
                    }
                }
                if e.finished && !include_finished {
                    None
                } else {
                    Some(e)
                }
            },
            None => {
                proof {
                    if self.finished_keys().contains(key@) {
                        let j = choose|j: int| 0 <= j < self.entries@.len() && self.entries@[j].key@ == key@
                            && self.entries@[j].finished;
                        assert(self.keys().contains(key@));
                    }
                }
                None
            },
        }
    }

    /// Some live session, where there is any.
    pub fn first(&self) -> (r: Option<SessionEntry>)
        ensures
            r is Some <==> self.keys() != Set::<KeyView>::empty(),
            r matches Some(e) ==> self.keys().contains(e.key@),
    {
        if self.entries.len() == 0 {
            assert(self.keys() =~= Set::<KeyView>::empty());
            None
        } else {
            assert(self.keys().contains(self.entries@[0].key@));
            Some(self.entries[0])
        }
    }

    /// Records that the session under `key` has reached a terminal state.
    pub fn set_finished(&mut self, key: &SessionKey)
        requires
            old(self).wf(),
        ensures
            final(self).wf(),
            final(self).keys() == old(self).keys(),
            final(self).finished_keys() == if old(self).keys().contains(key@) {
                old(self).finished_keys().insert(key@)
            } else {
                old(self).finished_keys()
            },
            final(self).preserving() == old(self).preserving(),
            final(self).listener_count() == old(self).listener_count(),
    {
        match self.position(key) {
            Some(i) => {
                let ghost before = self.entries@;
                let e = SessionEntry { key: self.entries[i].key, finished: true };
                self.entries.set(i, e);
                proof {
                    assert forall|k: KeyView| self.keys().contains(k) <==> old(self).keys().contains(k) by {
                        if self.keys().contains(k) {
                            let j = choose|j: int| 0 <= j < self.entries@.len() && self.entries@[j].key@ == k;
                            assert(before[j].key@ == k);
                        }
                        if old(self).keys().contains(k) {
                            let j = choose|j: int| 0 <= j < before.len() && before[j].key@ == k;
                            assert(self.entries@[j].key@ == k);
                        }
                    }
                    assert(self.keys() =~= old(self).keys());
                    assert forall|k: KeyView| self.finished_keys().contains(k)
                        <==> old(self).finished_keys().insert(key@).contains(k) by {
                        if self.finished_keys().contains(k) && k != key@ {
                            let j = choose|j: int| 0 <= j < self.entries@.len() && self.entries@[j].key@ == k
                                && self.entries@[j].finished;
                            assert(before[j] == self.entries@[j]);
                        }
                        if old(self).finished_keys().contains(k) {
                            let j = choose|j: int| 0 <= j < before.len() && before[j].key@ == k
                                && before[j].finished;
                            if j != i {
                                assert(self.entries@[j] == before[j]);
                            }
                        }
                        if k == key@ {
                            assert(self.entries@[i as int].key@ == k && self.entries@[i as int].finished);
                        }
                    }
                    assert(self.finished_keys() =~= old(self).finished_keys().insert(key@));
                }
            },
            None => {},
        }
    }

    /// Takes the session under `key` out of the registry and hands it back,
    /// so that its listeners can be told; `None` where no such session is
    /// live.
    pub fn remove(&mut self, key: &SessionKey) -> (r: Option<SessionEntry>)
        requires
            old(self).wf(),
        ensures
            final(self).wf(),
            r is Some <==> old(self).keys().contains(key@),
            r matches Some(e) ==> e.key@ == key@ && e.finished == old(self).finished_keys().contains(key@),
            final(self).keys() == old(self).keys().remove(key@),
            final(self).finished_keys() == old(self).finished_keys().remove(key@),
            final(self).preserving() == old(self).preserving(),
            final(self).listener_count() == old(self).listener_count(),
    {
        match self.position(key) {
            Some(i) => {
                let ghost before = self.entries@;
                let e = self.entries.remove(i);
                proof {
                    assert forall|j: int| 0 <= j < self.entries@.len() implies
                        self.entries@[j] == (if j < i { before[j] } else { before[j + 1] }) by {}
                    assert forall|k: KeyView| self.keys().contains(k) <==> old(self).keys().remove(key@).contains(k) by {
                        if self.keys().contains(k) {
                            let j = choose|j: int| 0 <= j < self.entries@.len() && self.entries@[j].key@ == k;
                            if j < i {
                                assert(before[j].key@ == k);
                            } else {
                                assert(before[j + 1].key@ == k);
                            }
                        }
                        if old(self).keys().contains(k) && k != key@ {
                            let j = choose|j: int| 0 <= j < before.len() && before[j].key@ == k;
                            if j < i {
                                assert(self.entries@[j].key@ == k);
                            } else {
                                assert(self.entries@[j - 1].key@ == k);
                            }
                        }
                    }
                    assert(self.keys() =~= old(self).keys().remove(key@));
                    assert forall|k: KeyView| self.finished_keys().contains(k)
                        <==> old(self).finished_keys().remove(key@).contains(k) by {
                        if self.finished_keys().contains(k) {
                            let j = choose|j: int| 0 <= j < self.entries@.len() && self.entries@[j].key@ == k
                                && self.entries@[j].finished;
                            if j < i {
                                assert(before[j] == self.entries@[j]);
                            } else {
                                assert(before[j + 1] == self.entries@[j]);
                            }
                        }
                        if old(self).finished_keys().contains(k) && k != key@ {
                            let j = choose|j: int| 0 <= j < before.len() && before[j].key@ == k
                                && before[j].finished;
                            if j < i {
                                assert(self.entries@[j] == before[j]);
                            } else {
                                assert(self.entries@[j - 1] == before[j]);
                            }
                        }
                    }
                    assert(self.finished_keys() =~= old(self).finished_keys().remove(key@));
                    if old(self).finished_keys().contains(key@) {
                        let j = choose|j: int| 0 <= j < before.len() && before[j].key@ == key@
                            && before[j].finished;
                        assert(j == i);
                    }
                }
                Some(e)
            },
            None => {
                proof {
                    assert(self.keys().remove(key@) =~= self.keys());
                    assert forall|k: KeyView| self.finished_keys().contains(k) implies self.keys().contains(k) by {
                        let j = choose|j: int| 0 <= j < self.entries@.len() && self.entries@[j].key@ == k
                            && self.entries@[j].finished;
                    }
                    assert(self.finished_keys().remove(key@) =~= self.finished_keys());
                }
                None
            },
        }
    }

    /// Keeps finished sessions in the registry from now on.
    pub fn preserve_sessions(&mut self)
        requires
            old(self).wf(),
        ensures
            final(self).wf(),
            final(self).preserving(),
            final(self).keys() == old(self).keys(),
            final(self).finished_keys() == old(self).finished_keys(),
            final(self).listener_count() == old(self).listener_count(),
    {
        self.preserve = true;
    }

    /// Registers one more listener of removals.
    pub fn add_listener(&mut self)
        requires
            old(self).wf(),
            old(self).listener_count() < usize::MAX,
        ensures
            final(self).wf(),
            final(self).listener_count() == old(self).listener_count() + 1,
            final(self).preserving() == old(self).preserving(),
            final(self).keys() == old(self).keys(),
            final(self).finished_keys() == old(self).finished_keys(),
    {
        self.listeners = self.listeners + 1;
    }

    /// Number of listeners that a removal notifies.
    pub fn listeners(&self) -> (r: usize)
        ensures
            r == self.listener_count(),
    {
        self.listeners
    }

    /// Handles the terminal transition of the session under `key`: outside
    /// preserving mode the session is removed at once and handed back for its
    /// listeners, each of which is then told once; in preserving mode it stays.
    pub fn on_session_finished(&mut self, key: &SessionKey) -> (r: Option<SessionEntry>)
        requires
            old(self).wf(),
        ensures
            final(self).wf(),
            !old(self).preserving() ==> final(self).keys() == old(self).keys().remove(key@)
                && (r is Some <==> old(self).keys().contains(key@)),
            old(self).preserving() ==> r is None && final(self).keys() == old(self).keys()
                && final(self).finished_keys().contains(key@) == old(self).keys().contains(key@),
            r matches Some(e) ==> e.key@ == key@ && e.finished,
            final(self).preserving() == old(self).preserving(),
            final(self).listener_count() == old(self).listener_count(),
    {
        self.set_finished(key);
        if self.preserve {
            None
        } else {
            self.remove(key)
        }
    }
}

/// Whatever was done to a registry, it never holds two sessions under one key.
pub proof fn at_most_one_session_per_key(c: &SessionContainer, k: KeyView)
    requires
        c.wf(),
    ensures
        c.slots_of(k).finite(),
        c.slots_of(k).len() <= 1,
        c.slots_of(k).len() == 1 <==> c.keys().contains(k),
{
    if c.keys().contains(k) {
        let i = choose|i: int| 0 <= i < c.entries@.len() && c.entries@[i].key@ == k;
        assert(c.slots_of(k) =~= set![i]);
    } else {
        assert(c.slots_of(k) =~= Set::<int>::empty());
    }
}

/// A session taken out of a registry is no longer in it, so a later removal
/// or terminal signal for the same key hands nothing back and its listeners
/// are told once.
pub proof fn removal_reported_once(before: &SessionContainer, after: &SessionContainer, k: KeyView)
    requires
        before.wf(),
        after.keys() == before.keys().remove(k),
    ensures
        !after.keys().contains(k),
        after.keys().remove(k) == after.keys(),
{
    assert(after.keys().remove(k) =~= after.keys());
}

/// Only a live session can be finished.
pub proof fn finished_are_live(c: &SessionContainer)
    ensures
        forall|k: KeyView| #[trigger] c.finished_keys().contains(k) ==> c.keys().contains(k),
{
    assert forall|k: KeyView| #[trigger] c.finished_keys().contains(k) implies c.keys().contains(k) by {
        let j = choose|j: int| 0 <= j < c.entries@.len() && c.entries@[j].key@ == k && c.entries@[j].finished;
    }
}

} // verus!
