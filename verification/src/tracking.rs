//! The correlation store: which chat thread follows which issue, and which
//! comments the bridge itself has posted.
//!
//! Both tables only grow. A thread follows at most one issue and an issue is
//! followed by at most one thread; an insert that would break this is refused
//! and changes nothing. The store is held in memory, oldest row first, so
//! that a host can write out what was added and read it back at its start.

use vstd::prelude::*;
use vstd::string::StringExecFns;
use crate::ids::Id;

verus! {

/// A thread of the chat that follows an issue of the tracker.
pub struct WatchedThread {
    pub thread_id: Id,
    pub issue_number: i64,
    pub repository: String,
}

/// What a `WatchedThread` holds.
pub ghost struct WatchedThreadView {
    pub thread_id: Id,
    pub issue_number: i64,
    pub repository: Seq<char>,
}

impl View for WatchedThread {
    type V = WatchedThreadView;

    open spec fn view(&self) -> WatchedThreadView {
        WatchedThreadView {
            thread_id: self.thread_id,
            issue_number: self.issue_number,
            repository: self.repository@,
        }
    }
}

impl Clone for WatchedThread {
    fn clone(&self) -> (r: Self)
        ensures
            r@ == self@,
    {
        WatchedThread {
            thread_id: self.thread_id,
            issue_number: self.issue_number,
            repository: self.repository.clone(),
        }
    }
}

/// A comment on the tracker that the bridge posted for a chat thread.
#[derive(Clone, Copy, PartialEq, Eq, Structural, Debug)]
pub struct PostedComment {
    pub thread_id: Id,
    pub comment_id: i64,
}

/// Why the store refused an insert.
#[derive(Clone, Copy, PartialEq, Eq, Structural, Debug)]
pub enum StoreError {
    /// The thread already follows an issue.
    DuplicateThread,
    /// The issue is already followed by a thread.
    DuplicateIssue,
}

/// The two tables, oldest row first.
pub ghost struct StoreView {
    pub watched: Seq<WatchedThreadView>,
    pub posted: Seq<PostedComment>,
}

/// The correlation store.
pub struct CorrelationStore {
    watched: Vec<WatchedThread>,
    posted: Vec<PostedComment>,
}

/// The rows that a list of watched threads holds.
pub open spec fn rows(v: Seq<WatchedThread>) -> Seq<WatchedThreadView> {
    Seq::new(v.len(), |i: int| v[i]@)
}

/// Whether row `w` is about issue `issue_number` of `repository`.
pub open spec fn about_issue(w: WatchedThreadView, repository: Seq<char>, issue_number: i64)
    -> bool {
    w.repository == repository && w.issue_number == issue_number
}

impl StoreView {
    /// The store with both tables empty.
    pub open spec fn empty() -> StoreView {
        StoreView { watched: Seq::empty(), posted: Seq::empty() }
    }

    /// No thread stands in two rows.
    pub open spec fn threads_unique(self) -> bool {
        forall|i: int, j: int|
            0 <= i < j < self.watched.len() ==> (#[trigger] self.watched[i]).thread_id != (
            #[trigger] self.watched[j]).thread_id
    }

    /// No issue stands in two rows.
    pub open spec fn issues_unique(self) -> bool {
        forall|i: int, j: int|
            0 <= i < j < self.watched.len() ==> !about_issue(
                #[trigger] self.watched[i],
                (#[trigger] self.watched[j]).repository,
                self.watched[j].issue_number,
            )
    }

    /// The store's invariant: threads and issues correspond one to one.
    pub open spec fn wf(self) -> bool {
        self.threads_unique() && self.issues_unique()
    }

    /// Whether some row names `thread_id`.
    pub open spec fn watches_thread(self, thread_id: Id) -> bool {
        exists|i: int| 0 <= i < self.watched.len() && (#[trigger] self.watched[i]).thread_id == thread_id
    }

    /// Whether some row is about the issue.
    pub open spec fn watches_issue(self, repository: Seq<char>, issue_number: i64) -> bool {
        exists|i: int|
            0 <= i < self.watched.len() && about_issue(
                #[trigger] self.watched[i],
                repository,
                issue_number,
            )
    }

    /// The row about the issue, if there is one.
    pub open spec fn thread_for_issue(self, repository: Seq<char>, issue_number: i64) -> Option<
        WatchedThreadView,
    > {
        if self.watches_issue(repository, issue_number) {
            Some(
                self.watched[choose|i: int|
                    0 <= i < self.watched.len() && about_issue(
                        #[trigger] self.watched[i],
                        repository,
                        issue_number,
                    )],
            )
        } else {
            None
        }
    }

    /// The row that names the thread, if there is one.
    pub open spec fn issue_for_thread(self, thread_id: Id) -> Option<WatchedThreadView> {
        if self.watches_thread(thread_id) {
            Some(
                self.watched[choose|i: int|
                    0 <= i < self.watched.len() && (#[trigger] self.watched[i]).thread_id
                        == thread_id],
            )
        } else {
            None
        }
    }

    /// Whether the comment is on record as posted by the bridge for the thread.
    pub open spec fn posted_comment(self, thread_id: Id, comment_id: i64) -> bool {
        self.posted.contains(PostedComment { thread_id, comment_id })
    }

    /// The store after an insert of the row: unchanged where the thread or
    /// the issue is already there.
    pub open spec fn add_watched_thread(self, thread_id: Id, repository: Seq<char>, issue_number: i64)
        -> StoreView {
        if self.watches_thread(thread_id) || self.watches_issue(repository, issue_number) {
            self
        } else {
            StoreView {
                watched: self.watched.push(
                    WatchedThreadView { thread_id, issue_number, repository },
                ),
                posted: self.posted,
            }
        }
    }

    /// What an insert of the row answers.
    pub open spec fn add_result(self, thread_id: Id, repository: Seq<char>, issue_number: i64)
        -> Result<(), StoreError> {
        if self.watches_thread(thread_id) {
            Err(StoreError::DuplicateThread)
        } else if self.watches_issue(repository, issue_number) {
            Err(StoreError::DuplicateIssue)
        } else {
            Ok(())
        }
    }

    /// The store after the comment was put on record.
    pub open spec fn track_comment(self, thread_id: Id, comment_id: i64) -> StoreView {
        StoreView {
            watched: self.watched,
            posted: self.posted.push(PostedComment { thread_id, comment_id }),
        }
    }
}

impl View for CorrelationStore {
    type V = StoreView;

    closed spec fn view(&self) -> StoreView {
        StoreView { watched: rows(self.watched@), posted: self.posted@ }
    }
}

impl CorrelationStore {
    /// The store's invariant.
    pub open spec fn wf(&self) -> bool {
        self@.wf()
    }

    /// How many threads are watched.
    pub fn watched_len(&self) -> (n: usize)
        ensures
            n == self@.watched.len(),
    {
        self.watched.len()
    }

    /// The `i`-th watched thread, oldest first, if there are that many.
    pub fn watched_at(&self, i: usize) -> (w: Option<&WatchedThread>)
        ensures
            match w {
                Some(row) => i < self@.watched.len() && row@ == self@.watched[i as int],
                None => i >= self@.watched.len(),
            },
    {
        if i < self.watched.len() {
            Some(&self.watched[i])
        } else {
            None
        }
    }

    /// How many comments are on record.
    pub fn posted_len(&self) -> (n: usize)
        ensures
            n == self@.posted.len(),
    {
        self.posted.len()
    }

    /// The `i`-th comment on record, oldest first, if there are that many.
    pub fn posted_at(&self, i: usize) -> (c: Option<PostedComment>)
        ensures
            match c {
                Some(row) => i < self@.posted.len() && row == self@.posted[i as int],
                None => i >= self@.posted.len(),
            },
    {
        if i < self.posted.len() {
            Some(self.posted[i])
        } else {
            None
        }
    }
}

/// A store with both tables empty.
pub fn setup_tables() -> (store: CorrelationStore)
    ensures
        store.wf(),
        store@ == StoreView::empty(),
{
    let store = CorrelationStore { watched: Vec::new(), posted: Vec::new() };
    assert(store@.watched =~= Seq::empty());
    store
}

/// The thread that follows issue `issue_number` of `repo`, if one does.
pub fn thread_for_issue(repo: &str, issue_number: i64, store: &CorrelationStore) -> (r: Option<
    WatchedThread,
>)
    requires
        store.wf(),
    ensures
        match r {
            Some(w) => store@.thread_for_issue(repo@, issue_number) == Some(w@),
            None => store@.thread_for_issue(repo@, issue_number) is None,
        },
{
    let wanted = String::from_str(repo);
    let mut i: usize = 0;
    while i < store.watched.len()
        invariant
            store.wf(),
            wanted@ == repo@,
            i <= store.watched.len(),
            forall|k: int| 0 <= k < i ==> !about_issue(#[trigger] store@.watched[k], repo@, issue_number),
        decreases store.watched.len() - i,
    {
        if store.watched[i].issue_number == issue_number && store.watched[i].repository == wanted {
            assert(about_issue(store@.watched[i as int], repo@, issue_number));
            return Some(store.watched[i].clone());
        }
        i = i + 1;
    }
    None
}

/// The issue that thread `thread_id` follows, if it follows one.
pub fn issue_for_thread(thread_id: Id, store: &CorrelationStore) -> (r: Option<WatchedThread>)
    requires
        store.wf(),
    ensures
        match r {
            Some(w) => store@.issue_for_thread(thread_id) == Some(w@),
            None => store@.issue_for_thread(thread_id) is None,
        },
{
    let mut i: usize = 0;
    while i < store.watched.len()
        invariant
            store.wf(),
            i <= store.watched.len(),
            forall|k: int| 0 <= k < i ==> (#[trigger] store@.watched[k]).thread_id != thread_id,
        decreases store.watched.len() - i,
    {
        if store.watched[i].thread_id == thread_id {
            assert(store@.watched[i as int].thread_id == thread_id);
            return Some(store.watched[i].clone());
        }
        i = i + 1;
    }
    None
}

/// Lets thread `thread_id` follow issue `issue_number` of `repo`, unless the
/// thread or the issue is already in the store.
pub fn add_watched_thread(
    thread_id: Id,
    repo: String,
    issue_number: i64,
    store: &mut CorrelationStore,
) -> (r: Result<(), StoreError>)
    requires
        old(store).wf(),
    ensures
        final(store).wf(),
        r == old(store)@.add_result(thread_id, repo@, issue_number),
        final(store)@ == old(store)@.add_watched_thread(thread_id, repo@, issue_number),
{
    if issue_for_thread(thread_id, store).is_some() {
        return Err(StoreError::DuplicateThread);
    }
    if thread_for_issue(repo.as_str(), issue_number, store).is_some() {
        return Err(StoreError::DuplicateIssue);
    }
    let ghost before = store@;
    let ghost row = WatchedThreadView { thread_id, issue_number, repository: repo@ };
    store.watched.push(WatchedThread { thread_id, issue_number, repository: repo });
    proof {
        assert(store@.watched =~= before.watched.push(row));
        assert forall|i: int, j: int| 0 <= i < j < store@.watched.len() implies (
        #[trigger] store@.watched[i]).thread_id != (#[trigger] store@.watched[j]).thread_id by {}
        assert forall|i: int, j: int| 0 <= i < j < store@.watched.len() implies !about_issue(
            #[trigger] store@.watched[i],
            (#[trigger] store@.watched[j]).repository,
            store@.watched[j].issue_number,
        ) by {}
    }
    Ok(())
}

/// Puts on record that the bridge posted comment `comment_id` for `thread_id`.
pub fn track_comment(thread_id: Id, comment_id: i64, store: &mut CorrelationStore)
    requires
        old(store).wf(),
    ensures
        final(store).wf(),
        final(store)@ == old(store)@.track_comment(thread_id, comment_id),
{
    let ghost before = store@;
    store.posted.push(PostedComment { thread_id, comment_id });
    assert(store@.watched == before.watched);
}

/// Whether the bridge itself posted comment `comment_id` for `thread_id`.
pub fn did_we_post_comment(thread_id: Id, comment_id: i64, store: &CorrelationStore) -> (r: bool)
    ensures
        r == store@.posted_comment(thread_id, comment_id),
{
    let mut i: usize = 0;
    while i < store.posted.len()
        invariant
            i <= store.posted.len(),
            forall|k: int| 0 <= k < i ==> store@.posted[k] != (PostedComment { thread_id, comment_id }),
        decreases store.posted.len() - i,
    {
        let c = store.posted[i];
        if c.thread_id == thread_id && c.comment_id == comment_id {
            return true;
        }
        i = i + 1;
    }
    false
}

/// In a well-formed store two rows about one issue are one row, and so are
/// two rows that name one thread.
pub proof fn law_at_most_one_row(s: StoreView, i: int, j: int)
    requires
        s.wf(),
        0 <= i < s.watched.len(),
        0 <= j < s.watched.len(),
    ensures
        about_issue(s.watched[i], s.watched[j].repository, s.watched[j].issue_number) ==> i == j,
        s.watched[i].thread_id == s.watched[j].thread_id ==> i == j,
{
}

/// Every insert and every comment put on record leaves the store well formed.
pub proof fn law_store_stays_well_formed(
    s: StoreView,
    thread_id: Id,
    repository: Seq<char>,
    issue_number: i64,
    comment_id: i64,
)
    requires
        s.wf(),
    ensures
        s.add_watched_thread(thread_id, repository, issue_number).wf(),
        s.track_comment(thread_id, comment_id).wf(),
{
    let a = s.add_watched_thread(thread_id, repository, issue_number);
    if a != s {
        assert forall|i: int, j: int| 0 <= i < j < a.watched.len() implies (
        #[trigger] a.watched[i]).thread_id != (#[trigger] a.watched[j]).thread_id by {}
        assert forall|i: int, j: int| 0 <= i < j < a.watched.len() implies !about_issue(
            #[trigger] a.watched[i],
            (#[trigger] a.watched[j]).repository,
            a.watched[j].issue_number,
        ) by {}
    }
}

/// A comment that was put on record for a thread is known as posted for
/// it, and no comment is forgotten over it.
pub proof fn law_recorded_comment_is_known(
    s: StoreView,
    thread_id: Id,
    comment_id: i64,
    other_thread: Id,
    other_comment: i64,
)
    ensures
        s.track_comment(thread_id, comment_id).posted_comment(thread_id, comment_id),
        s.posted_comment(other_thread, other_comment) ==> s.track_comment(
            thread_id,
            comment_id,
        ).posted_comment(other_thread, other_comment),
{
    let t = s.track_comment(thread_id, comment_id);
    assert(t.posted[t.posted.len() - 1] == PostedComment { thread_id, comment_id });
    if s.posted_comment(other_thread, other_comment) {
        let c = PostedComment { thread_id: other_thread, comment_id: other_comment };
        let i = choose|i: int| 0 <= i < s.posted.len() && s.posted[i] == c;
        assert(t.posted[i] == c);
    }
}

/// After thread `thread_id` was given issue `issue_number` of `repository`
/// to follow, the issue leads to the thread and the thread to the issue.
/// This holds wherever the store did not already pair the thread or the
/// issue with another.
pub proof fn law_lookup_after_insert(
    s: StoreView,
    thread_id: Id,
    repository: Seq<char>,
    issue_number: i64,
)
    requires
        s.wf(),
        s.thread_for_issue(repository, issue_number) matches Some(w) ==> w.thread_id == thread_id,
        s.issue_for_thread(thread_id) matches Some(w) ==> about_issue(w, repository, issue_number),
    ensures
        s.add_watched_thread(thread_id, repository, issue_number).thread_for_issue(
            repository,
            issue_number,
        ) == Some(WatchedThreadView { thread_id, issue_number, repository }),
        s.add_watched_thread(thread_id, repository, issue_number).issue_for_thread(thread_id)
            == Some(WatchedThreadView { thread_id, issue_number, repository }),
{
    let a = s.add_watched_thread(thread_id, repository, issue_number);
    let row = WatchedThreadView { thread_id, issue_number, repository };
    law_store_stays_well_formed(s, thread_id, repository, issue_number, 0);
    if s.watches_issue(repository, issue_number) {
        let i = choose|i: int|
            0 <= i < s.watched.len() && about_issue(
                #[trigger] s.watched[i],
                repository,
                issue_number,
            );
        let j = choose|j: int|
            0 <= j < s.watched.len() && (#[trigger] s.watched[j]).thread_id == thread_id;
        law_at_most_one_row(s, i, j);
    } else if !s.watches_thread(thread_id) {
        let n = s.watched.len() as int;
        assert(about_issue(a.watched[n], repository, issue_number));
        let i = choose|i: int|
            0 <= i < a.watched.len() && about_issue(
                #[trigger] a.watched[i],
                repository,
                issue_number,
            );
        law_at_most_one_row(a, i, n);
        let j = choose|j: int|
            0 <= j < a.watched.len() && (#[trigger] a.watched[j]).thread_id == thread_id;
        law_at_most_one_row(a, j, n);
    }
}

} // verus!
