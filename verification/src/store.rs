//! The storage contract that every backend meets, and the backend that
//! keeps everything in memory.

use crate::clock::now;
use crate::model::{BackendError, Post, Times};
use vstd::prelude::*;

verus! {

/// What a backend holds, as mathematics.
pub struct StoreState {
    /// Every `Times`, in the order of creation.
    pub times: Seq<Times>,
    /// Every post with the identifier of the `Times` it belongs to, in the
    /// order in which the posts were appended.
    pub posts: Seq<(u64, Post)>,
}

/// Whether some `Times` of the sequence has the identifier.
pub open spec fn has_id(times: Seq<Times>, id: u64) -> bool {
    exists|i: int| 0 <= i < times.len() && (#[trigger] times[i]).id == id
}

/// Whether some `Times` of the sequence has the title.
pub open spec fn titled(times: Seq<Times>, title: Seq<char>) -> bool {
    exists|i: int| 0 <= i < times.len() && (#[trigger] times[i]).title@ == title
}

/// Whether no identifier occurs twice in the sequence.
pub open spec fn unique_ids(times: Seq<Times>) -> bool {
    forall|i: int, j: int|
        0 <= i < j < times.len() ==> (#[trigger] times[i]).id != (#[trigger] times[j]).id
}

/// The post appended last to the `Times` with the identifier, or none
/// where nothing was appended to it.
pub open spec fn latest(posts: Seq<(u64, Post)>, id: u64) -> Option<Post>
    decreases posts.len(),
{
    if posts.len() == 0 {
        None
    } else if posts.last().0 == id {
        Some(posts.last().1)
    } else {
        latest(posts.drop_last(), id)
    }
}

/// A post that has just been appended to a `Times` is its latest, and the
/// latest post of every other `Times` is the one it was.
pub proof fn lemma_latest_after_append(posts: Seq<(u64, Post)>, tid: u64, appended: Post, id: u64)
    ensures
        latest(posts.push((tid, appended)), tid) == Some(appended),
        id != tid ==> latest(posts.push((tid, appended)), id) == latest(posts, id),
{
    assert(posts.push((tid, appended)).drop_last() == posts);
}

/// The four operations of a backend. Each either succeeds as stated or
/// fails and leaves the backend as it was. The contract is stated over
/// calls that return: a backend behind an interface that has to be waited
/// for is driven by the application, which hands each answer to the
/// functions of `task`.
pub trait Store {
    /// What the backend holds.
    spec fn state(&self) -> StoreState;

    /// What the backend keeps true of itself between calls.
    spec fn inv(&self) -> bool;

    /// No two `Times` of a backend share an identifier.
    proof fn lemma_unique_ids(&self)
        requires
            self.inv(),
        ensures
            unique_ids(self.state().times),
    ;

    /// Lists every `Times`, in the backend's order. Only the transport or
    /// the decoding can fail.
    fn get_times(&mut self) -> (list: Result<Vec<Times>, BackendError>)
        requires
            old(self).inv(),
        ensures
            final(self).inv(),
            final(self).state() == old(self).state(),
            list matches Ok(times) ==> times@ == old(self).state().times,
            list matches Err(error) ==> error is Unavailable || error is Malformed,
    ;

    /// Creates a `Times` with the given title, which is not empty. The
    /// backend chooses an identifier that no `Times` of it has, and the
    /// moment of creation. A conflict is reported only where the title is
    /// taken.
    fn create_times(&mut self, title: String) -> (created: Result<Times, BackendError>)
        requires
            old(self).inv(),
            title@.len() > 0,
        ensures
            final(self).inv(),
            match created {
                Ok(times) => {
                    &&& times.title == title
                    &&& times.updated_at is None
                    &&& !has_id(old(self).state().times, times.id)
                    &&& final(self).state() == (StoreState {
                        times: old(self).state().times.push(times),
                        ..old(self).state()
                    })
                },
                Err(error) => {
                    &&& final(self).state() == old(self).state()
                    &&& error !is NotFound
                    &&& error is Conflict ==> titled(old(self).state().times, title@)
                },
            },
    ;

    /// The post appended last to the `Times` with the given identifier,
    /// or none where it has no post. The call fails on an unknown
    /// identifier, and reports nothing as not found that is there.
    fn get_latest_post(&mut self, tid: u64) -> (found: Result<Option<Post>, BackendError>)
        requires
            old(self).inv(),
        ensures
            final(self).inv(),
            final(self).state() == old(self).state(),
            match found {
                Ok(post) => {
                    &&& has_id(old(self).state().times, tid)
                    &&& post == latest(old(self).state().posts, tid)
                },
                Err(error) => {
                    &&& error !is Conflict
                    &&& error is NotFound ==> !has_id(old(self).state().times, tid)
                },
            },
    ;

    /// Appends a post with the given text to the `Times` with the given
    /// identifier. The backend chooses the post's identifier and the
    /// moment of creation. The call fails on an unknown identifier, and
    /// reports nothing as not found that is there.
    fn create_post(&mut self, tid: u64, post: String) -> (created: Result<Post, BackendError>)
        requires
            old(self).inv(),
        ensures
            final(self).inv(),
            match created {
                Ok(appended) => {
                    &&& has_id(old(self).state().times, tid)
                    &&& appended.post == post
                    &&& final(self).state() == (StoreState {
                        posts: old(self).state().posts.push((tid, appended)),
                        ..old(self).state()
                    })
                },
                Err(error) => {
                    &&& final(self).state() == old(self).state()
                    &&& error !is Conflict
                    &&& error is NotFound ==> !has_id(old(self).state().times, tid)
                },
            },
    ;
}

/// The backend that keeps everything in memory. Identifiers count up from
/// one. Where it was made to keep titles unique, it refuses a title that
/// is taken.
pub struct MemoryStore {
    times: Vec<Times>,
    posts: Vec<(u64, Post)>,
    next_times_id: u64,
    next_post_id: u64,
    unique_titles: bool,
}

impl MemoryStore {
    /// Whether the store refuses a title that is taken.
    pub closed spec fn keeps_titles_unique(&self) -> bool {
        self.unique_titles
    }

    /// The identifier that the next `Times` gets; `u64::MAX` once the
    /// identifiers are used up.
    pub closed spec fn next_id(&self) -> u64 {
        self.next_times_id
    }

    /// The identifier that the next post gets; `u64::MAX` once the
    /// identifiers are used up.
    pub closed spec fn next_post(&self) -> u64 {
        self.next_post_id
    }

    /// An empty store that accepts any title.
    pub fn new() -> (store: Self)
        ensures
            store.inv(),
            store.state().times == Seq::<Times>::empty(),
            store.state().posts == Seq::<(u64, Post)>::empty(),
            !store.keeps_titles_unique(),
            store.next_id() == 1,
            store.next_post() == 1,
    {
        MemoryStore {
            times: Vec::new(),
            posts: Vec::new(),
            next_times_id: 1,
            next_post_id: 1,
            unique_titles: false,
        }
    }

    /// An empty store that refuses a title that is taken.
    pub fn with_unique_titles() -> (store: Self)
        ensures
            store.inv(),
            store.state().times == Seq::<Times>::empty(),
            store.state().posts == Seq::<(u64, Post)>::empty(),
            store.keeps_titles_unique(),
            store.next_id() == 1,
            store.next_post() == 1,
    {
        MemoryStore {
            times: Vec::new(),
            posts: Vec::new(),
            next_times_id: 1,
            next_post_id: 1,
            unique_titles: true,
        }
    }

    /// Whether some `Times` has the identifier.
    fn knows(&self, tid: u64) -> (known: bool)
        ensures
            known == has_id(self.times@, tid),
    {
        let mut i: usize = 0;
        while i < self.times.len()
            invariant
                i <= self.times.len(),
                forall|k: int| 0 <= k < i ==> self.times@[k].id != tid,
            decreases self.times.len() - i,
        {
            if self.times[i].id == tid {
                return true;
            }
            i = i + 1;
        }
        false
    }

    /// Whether some `Times` has the title.
    fn has_title(&self, title: &String) -> (taken: bool)
        ensures
            taken == titled(self.times@, title@),
    {
        let mut i: usize = 0;
        while i < self.times.len()
            invariant
                i <= self.times.len(),
                forall|k: int| 0 <= k < i ==> self.times@[k].title@ != title@,
            decreases self.times.len() - i,
        {
            if self.times[i].title == *title {
                return true;
            }
            i = i + 1;
        }
        false
    }
}

impl Store for MemoryStore {
    closed spec fn state(&self) -> StoreState {
        StoreState { times: self.times@, posts: self.posts@ }
    }

    closed spec fn inv(&self) -> bool {
        &&& unique_ids(self.times@)
        &&& forall|i: int| 0 <= i < self.times@.len() ==> (#[trigger] self.times@[i]).id
            < self.next_times_id
    }

    proof fn lemma_unique_ids(&self) {
    }

    /// The list never fails.
    fn get_times(&mut self) -> (list: Result<Vec<Times>, BackendError>)
        ensures
            list is Ok,
    {
        let mut copy: Vec<Times> = Vec::new();
        let mut i: usize = 0;
        while i < self.times.len()
            invariant
                i <= self.times.len(),
                copy@ == self.times@.take(i as int),
            decreases self.times.len() - i,
        {
            copy.push(self.times[i].clone());
            i = i + 1;
        }
        Ok(copy)
    }

    /// The store fails only where it keeps titles unique and the title is
    /// taken, with a conflict, and where the identifiers are used up, as
    /// unavailable. Else the new `Times` gets the next identifier.
    fn create_times(&mut self, title: String) -> (created: Result<Times, BackendError>)
        ensures
            created is Ok <==> !(old(self).keeps_titles_unique() && titled(
                old(self).state().times,
                title@,
            )) && old(self).next_id() < u64::MAX,
            created matches Ok(times) ==> times.id == old(self).next_id() && final(self).next_id()
                == times.id + 1,
            created matches Err(error) ==> (error is Conflict <==> old(self).keeps_titles_unique()
                && titled(old(self).state().times, title@)) && (error is Conflict
                || error is Unavailable) && final(self).next_id() == old(self).next_id(),
            final(self).keeps_titles_unique() == old(self).keeps_titles_unique(),
            final(self).next_post() == old(self).next_post(),
    {
        if self.unique_titles && self.has_title(&title) {
            return Err(BackendError::Conflict);
        }
        if self.next_times_id == u64::MAX {
            return Err(BackendError::Unavailable(String::from_str("identifiers are used up")));
        }
        let id = self.next_times_id;
        let times = Times { id, title, created_at: now(), updated_at: None };
        self.times.push(times.clone());
        self.next_times_id = id + 1;
        Ok(times)
    }

    /// The store fails only on an unknown identifier, which is not found.
    fn get_latest_post(&mut self, tid: u64) -> (found: Result<Option<Post>, BackendError>)
        ensures
            found is Ok <==> has_id(old(self).state().times, tid),
            found matches Err(error) ==> error is NotFound,
    {
        if !self.knows(tid) {
            return Err(BackendError::NotFound);
        }
        let mut i: usize = self.posts.len();
        assert(self.posts@.take(i as int) == self.posts@);
        while i > 0
            invariant
                i <= self.posts.len(),
                *self == *old(self),
                self.inv(),
                has_id(self.times@, tid),
                latest(self.posts@, tid) == latest(self.posts@.take(i as int), tid),
            decreases i,
        {
            i = i - 1;
            assert(self.posts@.take(i + 1).drop_last() == self.posts@.take(i as int));
            if self.posts[i].0 == tid {
                return Ok(Some(self.posts[i].1.clone()));
            }
        }
        Ok(None)
    }

    /// The store fails only on an unknown identifier, which is not found,
    /// and where the identifiers are used up, as unavailable. Else the new
    /// post gets the next identifier.
    fn create_post(&mut self, tid: u64, post: String) -> (created: Result<Post, BackendError>)
        ensures
            created is Ok <==> has_id(old(self).state().times, tid) && old(self).next_post()
                < u64::MAX,
            created matches Err(error) ==> (error is NotFound <==> !has_id(
                old(self).state().times,
                tid,
            )) && (error is Unavailable <==> has_id(old(self).state().times, tid)),
            created matches Ok(appended) ==> appended.id == old(self).next_post() && final(self).next_post() == appended.id + 1,
            created is Err ==> final(self).next_post() == old(self).next_post(),
            final(self).keeps_titles_unique() == old(self).keeps_titles_unique(),
            final(self).next_id() == old(self).next_id(),
    {
        if !self.knows(tid) {
            return Err(BackendError::NotFound);
        }
        if self.next_post_id == u64::MAX {
            return Err(BackendError::Unavailable(String::from_str("identifiers are used up")));
        }
        let id = self.next_post_id;
        let appended = Post { id, post, created_at: now() };
        self.posts.push((tid, appended.clone()));
        self.next_post_id = id + 1;
        Ok(appended)
    }
}

} // verus!
