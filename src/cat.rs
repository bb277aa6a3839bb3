//! The `cat` command as a session: the caller fetches and writes what the
//! session asks for, one object at a time, and reports back what happened.

use vstd::prelude::*;
use crate::listing::S3Ctx;
use crate::listing::page_keys;

verus! {

/// The parts joined end to end, in order.
pub open spec fn concat_all(parts: Seq<Seq<u8>>) -> Seq<u8>
    decreases parts.len(),
{
    if parts.len() == 0 {
        Seq::empty()
    } else {
        concat_all(parts.drop_last()) + parts.last()
    }
}

/// What the session asks its caller to do next.
pub enum CatAction {
    /// Fetch the full content of the object with this key.
    Fetch(String),
    /// Write these bytes to the output, as they are.
    Write(Vec<u8>),
    /// Every object has been written: the command is done.
    Finish,
    /// A fetch failed: the command ends without writing anything more.
    Abort,
}

/// What happened to the caller's last action.
pub enum CatEvent {
    /// The fetch succeeded, with the object's content.
    Fetched(Vec<u8>),
    /// The fetch failed.
    FetchFailed,
    /// The bytes were written.
    Written,
}

/// Where a session stands.
pub enum CatPhase {
    /// Waiting for the content of the current key.
    Fetching,
    /// Waiting for the content of the current key to be written.
    Writing,
    /// Done with every key.
    Finished,
    /// Stopped by a failed fetch or an event that answers no request.
    Aborted,
}

/// The state of one `cat` run over a fixed list of keys.
pub struct CatSession {
    keys: Vec<String>,
    pos: usize,
    phase: CatPhase,
    fetched: Ghost<Seq<Seq<u8>>>,
    written: Ghost<Seq<u8>>,
}

impl CatSession {
    /// The keys the session fetches, in order.
    pub closed spec fn keys(&self) -> Seq<Seq<char>> {
        self.keys.deep_view()
    }

    /// The index of the key the session is working on.
    pub closed spec fn position(&self) -> nat {
        self.pos as nat
    }

    pub closed spec fn phase(&self) -> CatPhase {
        self.phase
    }

    /// The contents received so far, one per key, in the order of the keys.
    pub closed spec fn contents(&self) -> Seq<Seq<u8>> {
        self.fetched@
    }

    /// All the bytes the session has asked to be written so far.
    pub closed spec fn written(&self) -> Seq<u8> {
        self.written@
    }

    pub closed spec fn wf(&self) -> bool {
        &&& self.pos <= self.keys@.len()
        &&& self.written@ == concat_all(self.fetched@)
        &&& match self.phase {
            CatPhase::Fetching => self.pos < self.keys@.len() && self.fetched@.len() == self.pos,
            CatPhase::Writing => self.pos < self.keys@.len() && self.fetched@.len() == self.pos + 1,
            CatPhase::Finished => self.pos == self.keys@.len() && self.fetched@.len() == self.pos,
            CatPhase::Aborted => self.fetched@.len() <= self.keys@.len(),
        }
    }

    /// Starts a session over `keys`, with its first action: the fetch of the
    /// first key, or `Finish` when there are none.
    pub fn new(keys: Vec<String>) -> (r: (CatSession, CatAction))
        ensures
            r.0.wf(),
            r.0.keys() == keys.deep_view(),
            r.0.position() == 0,
            r.0.contents() == Seq::<Seq<u8>>::empty(),
            r.0.written() == Seq::<u8>::empty(),
            keys@.len() == 0 ==> r.0.phase() == CatPhase::Finished && r.1 == CatAction::Finish,
            keys@.len() > 0 ==> r.0.phase() == CatPhase::Fetching && (r.1 matches CatAction::Fetch(
                k,
            ) && k@ == keys.deep_view()[0]),
    {
        let ghost none: Seq<Seq<u8>> = Seq::empty();
        assert(concat_all(none) =~= Seq::empty());
        if keys.len() == 0 {
            let s = CatSession {
                keys,
                pos: 0,
                phase: CatPhase::Finished,
                fetched: Ghost(none),
                written: Ghost(Seq::empty()),
            };
            (s, CatAction::Finish)
        } else {
            let first = keys[0].clone();
            let s = CatSession {
                keys,
                pos: 0,
                phase: CatPhase::Fetching,
                fetched: Ghost(none),
                written: Ghost(Seq::empty()),
            };
            (s, CatAction::Fetch(first))
        }
    }

    /// Takes the outcome of the last action and gives the next one.
    ///
    /// A fetched content is written next, unchanged; once it is written the
    /// next key is fetched, or the session finishes after the last key. A
    /// failed fetch, or an event that answers no pending request, aborts the
    /// session. A finished or aborted session stays as it is.
    pub fn step(&mut self, event: CatEvent) -> (action: CatAction)
        requires
            old(self).wf(),
        ensures
            final(self).wf(),
            final(self).keys() == old(self).keys(),
            match (old(self).phase(), event) {
                (CatPhase::Fetching, CatEvent::Fetched(b)) => {
                    &&& action == CatAction::Write(b)
                    &&& final(self).phase() == CatPhase::Writing
                    &&& final(self).position() == old(self).position()
                    &&& final(self).contents() == old(self).contents().push(b@)
                    &&& final(self).written() == old(self).written() + b@
                },
                (CatPhase::Writing, CatEvent::Written) => {
                    &&& final(self).position() == old(self).position() + 1
                    &&& final(self).contents() == old(self).contents()
                    &&& final(self).written() == old(self).written()
                    &&& if old(self).position() + 1 < old(self).keys().len() {
                        &&& final(self).phase() == CatPhase::Fetching
                        &&& action matches CatAction::Fetch(k)
                        &&& k@ == old(self).keys()[old(self).position() + 1int]
                    } else {
                        final(self).phase() == CatPhase::Finished && action == CatAction::Finish
                    }
                },
                (CatPhase::Finished, _) => *final(self) == *old(self) && action
                    == CatAction::Finish,
                (CatPhase::Aborted, _) => *final(self) == *old(self) && action == CatAction::Abort,
                _ => {
                    &&& final(self).phase() == CatPhase::Aborted
                    &&& action == CatAction::Abort
                    &&& final(self).contents() == old(self).contents()
                    &&& final(self).written() == old(self).written()
                },
            },
    {
        match self.phase {
            CatPhase::Finished => {
                return CatAction::Finish;
            },
            CatPhase::Aborted => {
                return CatAction::Abort;
            },
            CatPhase::Fetching => {
                match event {
                    CatEvent::Fetched(b) => {
                        let ghost parts = self.fetched@.push(b@);
                        assert(parts.drop_last() =~= self.fetched@);
                        self.fetched = Ghost(parts);
                        self.written = Ghost(self.written@ + b@);
                        self.phase = CatPhase::Writing;
                        return CatAction::Write(b);
                    },
                    _ => {},
                }
            },
            CatPhase::Writing => {
                match event {
                    CatEvent::Written => {
                        let n = self.keys.len();
                        self.pos = self.pos + 1;
                        if self.pos < n {
                            self.phase = CatPhase::Fetching;
                            return CatAction::Fetch(self.keys[self.pos].clone());
                        } else {
                            self.phase = CatPhase::Finished;
                            return CatAction::Finish;
                        }
                    },
                    _ => {},
                }
            },
        }
        self.phase = CatPhase::Aborted;
        CatAction::Abort
    }
}

/// A session that finished has fetched one content for each of its keys, and
/// has written exactly those contents, end to end, in the order of the keys.
pub proof fn lemma_finished_output(s: &CatSession)
    requires
        s.wf(),
        s.phase() == CatPhase::Finished,
    ensures
        s.contents().len() == s.keys().len(),
        s.written() == concat_all(s.contents()),
{
}

/// Where a well-formed session stands: while it fetches, the content it waits
/// for is that of key number `position()` and will be the next entry of
/// `contents()`; while it writes, that content is already the last entry.
pub proof fn lemma_session_position(s: &CatSession)
    requires
        s.wf(),
    ensures
        s.position() <= s.keys().len(),
        s.written() == concat_all(s.contents()),
        s.phase() == CatPhase::Fetching ==> s.position() < s.keys().len() && s.contents().len()
            == s.position(),
        s.phase() == CatPhase::Writing ==> s.position() < s.keys().len() && s.contents().len()
            == s.position() + 1,
        s.phase() == CatPhase::Aborted ==> s.contents().len() <= s.keys().len(),
{
}

impl S3Ctx {
    /// Starts `cat` on one listing call: a session over the kept keys, in
    /// listing order, with its first action. A failed listing hands its
    /// error on and starts nothing.
    pub fn cat_objects<E>(&self, listing: Result<Option<Vec<Option<String>>>, E>) -> (r: Result<
        (CatSession, CatAction),
        E,
    >)
        ensures
            match listing {
                Ok(page) => r matches Ok(started) && {
                    let ks = self.kept(page_keys(page.deep_view()));
                    &&& started.0.wf()
                    &&& started.0.keys() == ks
                    &&& started.0.position() == 0
                    &&& started.0.contents() == Seq::<Seq<u8>>::empty()
                    &&& started.0.written() == Seq::<u8>::empty()
                    &&& ks.len() == 0 ==> started.0.phase() == CatPhase::Finished && started.1
                        == CatAction::Finish
                    &&& ks.len() > 0 ==> started.0.phase() == CatPhase::Fetching
                        && (started.1 matches CatAction::Fetch(k) && k@ == ks[0])
                },
                Err(e) => r matches Err(e2) && e2 == e,
            },
    {
        match self.keys(listing) {
            Ok(v) => Ok(CatSession::new(v)),
            Err(e) => Err(e),
        }
    }
}

} // verus!
