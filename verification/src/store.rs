//! A session store held in memory: one criteria snapshot per session
//! identifier.

use vstd::prelude::*;
use vstd::string::*;
use crate::criteria::{
    blank, lemma_independent_updates_commute, merged, CriteriaView, PartialUpdate,
    RecommendationCriteria, UpdateView,
};
use crate::errors::EngineError;
use crate::feedback::{batch_ids, lemma_refine_idempotent, refine, refined, KeywordResponse};
use crate::text::same_text;

verus! {

struct SessionEntry {
    id: String,
    criteria: RecommendationCriteria,
}

impl SessionEntry {
    fn copy(&self) -> (r: Self)
        ensures
            r.id@ == self.id@,
            r.criteria@ == self.criteria@,
    {
        SessionEntry { id: self.id.clone(), criteria: self.criteria.clone() }
    }
}

/// What reading a session from a store gave.
#[derive(Debug, PartialEq, Eq)]
pub enum StoreRead {
    /// The snapshot stored under the identifier.
    Found(RecommendationCriteria),
    /// Nothing is stored under the identifier.
    Missing,
    /// The store could not be read.
    Unavailable,
}

/// The snapshots of the sessions of a store, by session identifier.
pub struct SessionStore {
    entries: Vec<SessionEntry>,
}

/// The snapshots that a list of writes leaves: for each identifier the one
/// written last.
spec fn recorded(entries: Seq<SessionEntry>) -> Map<Seq<char>, CriteriaView>
    decreases entries.len(),
{
    if entries.len() == 0 {
        Map::empty()
    } else {
        recorded(entries.drop_last()).insert(entries.last().id@, entries.last().criteria@)
    }
}

impl View for SessionStore {
    type V = Map<Seq<char>, CriteriaView>;

    closed spec fn view(&self) -> Map<Seq<char>, CriteriaView> {
        recorded(self.entries@)
    }
}

/// The sessions of `store` after one answer of the wizard for `session_id`:
/// the snapshot of that session has the answer's field overwritten; a store
/// without that session stays as it is.
pub open spec fn applied(
    store: Map<Seq<char>, CriteriaView>,
    session_id: Seq<char>,
    update: UpdateView,
) -> Map<Seq<char>, CriteriaView> {
    if store.contains_key(session_id) {
        store.insert(session_id, merged(store[session_id], update))
    } else {
        store
    }
}

/// The sessions of `store` after a round of feedback for `session_id`; a
/// store without that session stays as it is.
pub open spec fn refined_in(
    store: Map<Seq<char>, CriteriaView>,
    session_id: Seq<char>,
    liked: Seq<Seq<i64>>,
    disliked: Seq<Seq<i64>>,
) -> Map<Seq<char>, CriteriaView> {
    if store.contains_key(session_id) {
        store.insert(session_id, refined(store[session_id], liked, disliked))
    } else {
        store
    }
}

impl SessionStore {
    /// A store without sessions.
    pub fn new() -> (s: Self)
        ensures
            s@ == Map::<Seq<char>, CriteriaView>::empty(),
    {
        SessionStore { entries: Vec::new() }
    }

    fn lookup(&self, session_id: &str) -> (r: Option<RecommendationCriteria>)
        ensures
            self@.contains_key(session_id@) ==> r is Some && r->0@ == self@[session_id@],
            !self@.contains_key(session_id@) ==> r is None,
    {
        let mut latest: Option<usize> = None;
        let mut i: usize = 0;
        while i < self.entries.len()
            invariant
                i <= self.entries.len(),
                match latest {
                    Some(j) => j < i && recorded(self.entries@.take(i as int)).contains_key(
                        session_id@,
                    ) && recorded(self.entries@.take(i as int))[session_id@]
                        == self.entries@[j as int].criteria@,
                    None => !recorded(self.entries@.take(i as int)).contains_key(session_id@),
                },
            decreases self.entries.len() - i,
        {
            proof {
                assert(self.entries@.take(i as int + 1).drop_last() =~= self.entries@.take(
                    i as int,
                ));
            }
            if same_text(self.entries[i].id.as_str(), session_id) {
                latest = Some(i);
            }
            i = i + 1;
        }
        proof {
            assert(self.entries@.take(i as int) =~= self.entries@);
        }
        match latest {
            Some(j) => Some(self.entries[j].criteria.clone()),
            None => None,
        }
    }

    /// Reads the snapshot of a session. A store in memory is never
    /// unavailable.
    pub fn read(&self, session_id: &str) -> (r: StoreRead)
        ensures
            self@.contains_key(session_id@) ==> r is Found && r->Found_0@ == self@[session_id@],
            !self@.contains_key(session_id@) ==> r is Missing,
    {
        match self.lookup(session_id) {
            Some(criteria) => StoreRead::Found(criteria),
            None => StoreRead::Missing,
        }
    }

    /// The snapshot of a session, or `SessionNotFound`.
    pub fn get(&self, session_id: &str) -> (r: Result<RecommendationCriteria, EngineError>)
        ensures
            self@.contains_key(session_id@) ==> r is Ok && r->Ok_0@ == self@[session_id@],
            !self@.contains_key(session_id@) ==> r is Err && r->Err_0
                == EngineError::SessionNotFound,
    {
        match self.lookup(session_id) {
            Some(criteria) => Ok(criteria),
            None => Err(EngineError::SessionNotFound),
        }
    }

    /// Forgets a session. Other sessions stay as they are.
    pub fn delete(&mut self, session_id: &str)
        ensures
            final(self)@ == old(self)@.remove(session_id@),
    {
        let mut kept: Vec<SessionEntry> = Vec::new();
        let mut i: usize = 0;
        while i < self.entries.len()
            invariant
                i <= self.entries.len(),
                *self == *old(self),
                recorded(kept@) == recorded(self.entries@.take(i as int)).remove(session_id@),
            decreases self.entries.len() - i,
        {
            proof {
                assert(self.entries@.take(i as int + 1).drop_last() =~= self.entries@.take(
                    i as int,
                ));
            }
            let ghost before = recorded(self.entries@.take(i as int));
            let ghost entry = self.entries@[i as int];
            if same_text(self.entries[i].id.as_str(), session_id) {
                proof {
                    assert(before.insert(entry.id@, entry.criteria@).remove(session_id@)
                        =~= before.remove(session_id@));
                }
            } else {
                let copy = self.entries[i].copy();
                let ghost kept_before = kept@;
                kept.push(copy);
                proof {
                    assert(kept@.drop_last() =~= kept_before);
                    assert(before.insert(entry.id@, entry.criteria@).remove(session_id@)
                        =~= before.remove(session_id@).insert(entry.id@, entry.criteria@));
                }
            }
            i = i + 1;
        }
        proof {
            assert(self.entries@.take(i as int) =~= self.entries@);
        }
        self.entries = kept;
    }

    /// Stores a snapshot under a session identifier, in place of the one that
    /// was there, if any. Other sessions stay as they are.
    pub fn put(&mut self, session_id: &str, criteria: RecommendationCriteria)
        ensures
            final(self)@ == old(self)@.insert(session_id@, criteria@),
    {
        self.delete(session_id);
        let ghost before = self.entries@;
        self.entries.push(SessionEntry { id: String::from_str(session_id), criteria });
        proof {
            assert(self.entries@.drop_last() =~= before);
            assert(old(self)@.remove(session_id@).insert(session_id@, criteria@) =~= old(
                self,
            )@.insert(session_id@, criteria@));
        }
    }

    /// Opens a session under the given identifier, with nothing chosen.
    pub fn create_session(&mut self, session_id: &str)
        ensures
            final(self)@ == old(self)@.insert(session_id@, blank()),
    {
        self.put(session_id, RecommendationCriteria::empty());
    }

    /// Opens a session under a fresh identifier, with nothing chosen, and
    /// returns the identifier.
    pub fn start_recommendation_session(&mut self) -> (session_id: String)
        ensures
            final(self)@ == old(self)@.insert(session_id@, blank()),
            session_id@.len() == 36,
    {
        let session_id = fresh_session_id();
        self.create_session(session_id.as_str());
        session_id
    }

    /// Ends a session: its snapshot is forgotten.
    pub fn end_session(&mut self, session_id: String)
        ensures
            final(self)@ == old(self)@.remove(session_id@),
    {
        self.delete(session_id.as_str());
    }

    /// Merges one answer of the wizard into the snapshot of a session: the
    /// snapshot is read, the answer's field overwritten, and the result
    /// stored. A session that does not exist is not created.
    pub fn apply(&mut self, session_id: &str, update: PartialUpdate) -> (r: Result<
        (),
        EngineError,
    >)
        ensures
            final(self)@ == applied(old(self)@, session_id@, update@),
            old(self)@.contains_key(session_id@) ==> r is Ok,
            !old(self)@.contains_key(session_id@) ==> r is Err && r->Err_0
                == EngineError::SessionNotFound,
    {
        match self.lookup(session_id) {
            Some(criteria) => {
                self.put(session_id, criteria.apply(update));
                Ok(())
            },
            None => Err(EngineError::SessionNotFound),
        }
    }

    /// Merges a round of feedback into the snapshot of a session. A session
    /// that does not exist is not created.
    pub fn refine(
        &mut self,
        session_id: &str,
        liked: &Vec<KeywordResponse>,
        disliked: &Vec<KeywordResponse>,
    ) -> (r: Result<(), EngineError>)
        ensures
            final(self)@ == refined_in(
                old(self)@,
                session_id@,
                batch_ids(liked@),
                batch_ids(disliked@),
            ),
            old(self)@.contains_key(session_id@) ==> r is Ok,
            !old(self)@.contains_key(session_id@) ==> r is Err && r->Err_0
                == EngineError::SessionNotFound,
    {
        match self.lookup(session_id) {
            Some(criteria) => {
                self.put(session_id, refine(criteria, liked, disliked));
                Ok(())
            },
            None => Err(EngineError::SessionNotFound),
        }
    }

    /// Drops the feedback of a session and keeps its other choices.
    pub fn clear_session_feedback(&mut self, session_id: &str) -> (r: Result<(), EngineError>)
        ensures
            old(self)@.contains_key(session_id@) ==> r is Ok && final(self)@ == old(self)@.insert(
                session_id@,
                (CriteriaView { feedback: None, ..old(self)@[session_id@] }),
            ),
            !old(self)@.contains_key(session_id@) ==> r is Err && r->Err_0
                == EngineError::SessionNotFound && final(self)@ == old(self)@,
    {
        match self.lookup(session_id) {
            Some(criteria) => {
                let mut criteria = criteria;
                criteria.feedback = None;
                self.put(session_id, criteria);
                Ok(())
            },
            None => Err(EngineError::SessionNotFound),
        }
    }
}

/// `Uuid::new_v4` of the uuid crate, written out by its `Display`: a random
/// identifier in the hyphenated form, which is 36 characters long. Nothing is
/// claimed of which identifier it is.
#[verifier::external_body]
pub(crate) fn fresh_session_id() -> (id: String)
    ensures
        id@.len() == 36,
{
    uuid::Uuid::new_v4().to_string()
}

/// A snapshot that was stored is the one that is read back, whatever was
/// stored under the identifier before.
pub proof fn lemma_put_then_get(
    store: Map<Seq<char>, CriteriaView>,
    session_id: Seq<char>,
    snapshot: CriteriaView,
)
    ensures
        store.insert(session_id, snapshot).contains_key(session_id),
        store.insert(session_id, snapshot)[session_id] == snapshot,
{
}

/// Storing a snapshot leaves the snapshots of all other sessions as they
/// were.
pub proof fn lemma_put_leaves_others(
    store: Map<Seq<char>, CriteriaView>,
    session_id: Seq<char>,
    snapshot: CriteriaView,
    other: Seq<char>,
)
    requires
        other != session_id,
    ensures
        store.insert(session_id, snapshot).contains_key(other) == store.contains_key(other),
        store.contains_key(other) ==> store.insert(session_id, snapshot)[other] == store[other],
{
}

/// Two answers for one session that fill different fields leave the same
/// store in either order.
pub proof fn lemma_answers_commute(
    store: Map<Seq<char>, CriteriaView>,
    session_id: Seq<char>,
    u1: UpdateView,
    u2: UpdateView,
)
    requires
        u1.field() != u2.field(),
    ensures
        applied(applied(store, session_id, u1), session_id, u2) == applied(
            applied(store, session_id, u2),
            session_id,
            u1,
        ),
{
    if store.contains_key(session_id) {
        lemma_independent_updates_commute(store[session_id], u1, u2);
        assert(applied(applied(store, session_id, u1), session_id, u2) =~= applied(
            applied(store, session_id, u2),
            session_id,
            u1,
        ));
    }
}

/// The same round of feedback for a session, stored twice, leaves the store
/// that storing it once leaves.
pub proof fn lemma_feedback_idempotent(
    store: Map<Seq<char>, CriteriaView>,
    session_id: Seq<char>,
    liked: Seq<Seq<i64>>,
    disliked: Seq<Seq<i64>>,
)
    ensures
        refined_in(refined_in(store, session_id, liked, disliked), session_id, liked, disliked)
            == refined_in(store, session_id, liked, disliked),
{
    if store.contains_key(session_id) {
        lemma_refine_idempotent(store[session_id], liked, disliked);
        assert(refined_in(
            refined_in(store, session_id, liked, disliked),
            session_id,
            liked,
            disliked,
        ) =~= refined_in(store, session_id, liked, disliked));
    }
}

} // verus!
