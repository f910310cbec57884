use vstd::prelude::*;
use crate::auth::{authorize_mutation, may_mutate};
use crate::error::CommentError;
use crate::pagination::{page_count, page_of, page_start, total_pages};
use crate::platform::{new_id, now_seconds};

verus! {

/// Largest number of comments on a thread path from a top-level comment
/// down to a reply, the reply included.
pub const MAX_NESTING_LEVEL: u64 = 3;

/// Largest number of characters in a comment's content.
pub const MAX_CONTENT_CHARS: usize = 1000;

/// Moderation state of a comment. `Pending` is the initial state; the others are
/// terminal.
#[derive(Clone, Copy, Debug, PartialEq, Eq, Structural)]
pub enum CommentStatus {
    Pending,
    Approved,
    Rejected,
    Spam,
}

/// What a moderator decides about a comment.
#[derive(Clone, Copy, Debug, PartialEq, Eq, Structural)]
pub enum ModerateAction {
    Approve,
    Reject,
    MarkAsSpam,
}

/// The status a moderation action leads to.
pub open spec fn status_after(action: ModerateAction) -> CommentStatus {
    match action {
        ModerateAction::Approve => CommentStatus::Approved,
        ModerateAction::Reject => CommentStatus::Rejected,
        ModerateAction::MarkAsSpam => CommentStatus::Spam,
    }
}

impl ModerateAction {
    pub fn target_status(&self) -> (r: CommentStatus)
        ensures
            r == status_after(*self),
    {
        match self {
            ModerateAction::Approve => CommentStatus::Approved,
            ModerateAction::Reject => CommentStatus::Rejected,
            ModerateAction::MarkAsSpam => CommentStatus::Spam,
        }
    }
}

/// A stored comment. Ids are 128-bit identifiers, times are seconds since
/// the Unix epoch. `depth` is 1 for a top-level comment and one more than
/// its parent's for a reply; it is fixed when the comment is written.
#[derive(Debug)]
pub struct Comment {
    pub id: u128,
    pub post_id: u128,
    pub author_id: Option<u128>,
    pub parent_id: Option<u128>,
    pub content: String,
    pub status: CommentStatus,
    pub created_at: i64,
    pub updated_at: i64,
    pub deleted_at: Option<i64>,
    pub depth: u64,
}

impl Comment {
    pub fn duplicate(&self) -> (r: Comment)
        ensures
            r == *self,
    {
        Comment {
            id: self.id,
            post_id: self.post_id,
            author_id: self.author_id,
            parent_id: self.parent_id,
            content: self.content.clone(),
            status: self.status,
            created_at: self.created_at,
            updated_at: self.updated_at,
            deleted_at: self.deleted_at,
            depth: self.depth,
        }
    }
}

/// Body of a request that creates a comment.
pub struct CreateCommentRequest {
    pub post_id: u128,
    pub parent_id: Option<u128>,
    pub content: String,
}

/// Body of a request that edits a comment.
pub struct UpdateCommentRequest {
    pub content: String,
}

/// Body of a moderation request.
pub struct ModerateCommentRequest {
    pub action: ModerateAction,
    pub reason: Option<String>,
}

/// Optional narrowing of a post's comment listing.
#[derive(Clone, Copy, Debug)]
pub struct CommentFilters {
    pub status: Option<CommentStatus>,
    pub author_id: Option<u128>,
}

/// One audit record of a moderation action. Records are only ever appended.
#[derive(Debug)]
pub struct ModerationLog {
    pub comment_id: u128,
    pub moderator_id: u128,
    pub action: ModerateAction,
    pub reason: Option<String>,
    pub created_at: i64,
}

/// One page of a comment listing with the totals of the whole listing.
pub struct CommentListResponse {
    pub comments: Vec<Comment>,
    pub total: u64,
    pub page: u32,
    pub per_page: u32,
    pub total_pages: u32,
}

/// Content is between 1 and `MAX_CONTENT_CHARS` characters long.
pub open spec fn content_ok(content: Seq<char>) -> bool {
    1 <= content.len() <= MAX_CONTENT_CHARS
}

/// Checks the content length rule.
pub fn validate_content(content: &String) -> (r: Result<(), CommentError>)
    ensures
        content_ok(content@) ==> r is Ok,
        !content_ok(content@) ==> r matches Err(CommentError::Validation(_)),
{
    let n = content.as_str().unicode_len();
    if 1 <= n && n <= MAX_CONTENT_CHARS {
        Ok(())
    } else {
        Err(CommentError::Validation(String::from_str("Comment must be between 1 and 1000 characters")))
    }
}

// ---- the thread as a sequence of records ----

pub open spec fn has_id(s: Seq<Comment>, id: u128) -> bool {
    exists|i: int| 0 <= i < s.len() && s[i].id == id
}

/// Index of the record with the given id (meaningful when there is one).
pub open spec fn position(s: Seq<Comment>, id: u128) -> int {
    choose|i: int| 0 <= i < s.len() && s[i].id == id
}

/// The record with the given id, if any.
pub open spec fn lookup(s: Seq<Comment>, id: u128) -> Option<Comment> {
    if has_id(s, id) {
        Some(s[position(s, id)])
    } else {
        None
    }
}

pub open spec fn ids_unique(s: Seq<Comment>) -> bool {
    forall|i: int, j: int| 0 <= i < s.len() && 0 <= j < s.len() && i != j ==> s[i].id != s[j].id
}

/// Every parent link reaches a stored record, and stored depths follow the
/// links and stay within the nesting bound.
pub open spec fn links_ok(s: Seq<Comment>) -> bool {
    forall|i: int|
        0 <= i < s.len() ==> {
            &&& 1 <= #[trigger] s[i].depth <= MAX_NESTING_LEVEL
            &&& match s[i].parent_id {
                None => s[i].depth == 1,
                Some(p) => match lookup(s, p) {
                    Some(q) => s[i].depth == q.depth + 1,
                    None => false,
                },
            }
        }
}

pub open spec fn thread_wf(s: Seq<Comment>) -> bool {
    ids_unique(s) && links_ok(s)
}

/// Number of records met walking parent links from `id`, `id` included, in
/// at most `fuel` steps.
pub open spec fn chain_len(s: Seq<Comment>, id: u128, fuel: nat) -> nat
    decreases fuel,
{
    if fuel == 0 {
        0
    } else {
        match lookup(s, id) {
            None => 0,
            Some(c) => match c.parent_id {
                None => 1,
                Some(p) => 1 + chain_len(s, p, (fuel - 1) as nat),
            },
        }
    }
}

/// Ancestor depth of a reply to `parent`: the parent counts as 1, its own
/// parent as 2, and so on, by a walk bounded at one step past the nesting
/// limit.
pub open spec fn ancestor_depth(s: Seq<Comment>, parent: u128) -> nat {
    chain_len(s, parent, (MAX_NESTING_LEVEL + 1) as nat)
}

proof fn lemma_lookup_at(s: Seq<Comment>, i: int)
    requires
        ids_unique(s),
        0 <= i < s.len(),
    ensures
        position(s, s[i].id) == i,
        lookup(s, s[i].id) == Some(s[i]),
{
    assert(has_id(s, s[i].id));
}

proof fn lemma_lookup_push(s: Seq<Comment>, c: Comment, id: u128)
    requires
        ids_unique(s),
        !has_id(s, c.id),
    ensures
        ids_unique(s.push(c)),
        lookup(s.push(c), id) == (if id == c.id { Some(c) } else { lookup(s, id) }),
{
    let t = s.push(c);
    assert forall|i: int, j: int| 0 <= i < t.len() && 0 <= j < t.len() && i != j implies t[i].id
        != t[j].id by {
        if i < s.len() && j < s.len() {
            assert(t[i] == s[i] && t[j] == s[j]);
        } else if i < s.len() {
            assert(t[i] == s[i]);
        } else if j < s.len() {
            assert(t[j] == s[j]);
        }
    }
    if id == c.id {
        lemma_lookup_at(t, s.len() as int);
    } else if has_id(s, id) {
        let k = position(s, id);
        lemma_lookup_at(s, k);
        assert(t[k] == s[k]);
        lemma_lookup_at(t, k);
    } else {
        assert forall|i: int| 0 <= i < t.len() implies t[i].id != id by {
            if i < s.len() {
                assert(t[i] == s[i]);
            }
        }
    }
}

proof fn lemma_lookup_update(s: Seq<Comment>, i: int, c: Comment, id: u128)
    requires
        ids_unique(s),
        0 <= i < s.len(),
        c.id == s[i].id,
    ensures
        ids_unique(s.update(i, c)),
        lookup(s.update(i, c), id) == (if id == c.id { Some(c) } else { lookup(s, id) }),
{
    let t = s.update(i, c);
    assert forall|a: int, b: int| 0 <= a < t.len() && 0 <= b < t.len() && a != b implies t[a].id
        != t[b].id by {
        assert(t[a].id == s[a].id && t[b].id == s[b].id);
    }
    if id == c.id {
        lemma_lookup_at(t, i);
    } else if has_id(s, id) {
        let k = position(s, id);
        lemma_lookup_at(s, k);
        lemma_lookup_at(t, k);
    } else {
        assert forall|a: int| 0 <= a < t.len() implies t[a].id != id by {
            assert(t[a].id == s[a].id);
        }
    }
}

proof fn lemma_lookup_update_all(s: Seq<Comment>, i: int, c: Comment)
    requires
        ids_unique(s),
        0 <= i < s.len(),
        c.id == s[i].id,
    ensures
        forall|k: u128|
            #[trigger] lookup(s.update(i, c), k) == (if k == c.id {
                Some(c)
            } else {
                lookup(s, k)
            }),
{
    assert forall|k: u128|
        #[trigger] lookup(s.update(i, c), k) == (if k == c.id {
            Some(c)
        } else {
            lookup(s, k)
        }) by {
        lemma_lookup_update(s, i, c, k);
    }
}

proof fn lemma_lookup_push_all(s: Seq<Comment>, c: Comment)
    requires
        ids_unique(s),
        !has_id(s, c.id),
    ensures
        forall|k: u128|
            #[trigger] lookup(s.push(c), k) == (if k == c.id {
                Some(c)
            } else {
                lookup(s, k)
            }),
{
    assert forall|k: u128|
        #[trigger] lookup(s.push(c), k) == (if k == c.id {
            Some(c)
        } else {
            lookup(s, k)
        }) by {
        lemma_lookup_push(s, c, k);
    }
}

/// A record whose id, parent and depth are kept may replace a record of a
/// well-formed thread.
proof fn lemma_update_keeps_wf(s: Seq<Comment>, i: int, c: Comment)
    requires
        thread_wf(s),
        0 <= i < s.len(),
        c.id == s[i].id,
        c.parent_id == s[i].parent_id,
        c.depth == s[i].depth,
    ensures
        thread_wf(s.update(i, c)),
{
    let t = s.update(i, c);
    lemma_lookup_update(s, i, c, c.id);
    assert forall|k: int| 0 <= k < t.len() implies {
        &&& 1 <= #[trigger] t[k].depth <= MAX_NESTING_LEVEL
        &&& match t[k].parent_id {
            None => t[k].depth == 1,
            Some(p) => match lookup(t, p) {
                Some(q) => t[k].depth == q.depth + 1,
                None => false,
            },
        }
    } by {
        assert(t[k].depth == s[k].depth && t[k].parent_id == s[k].parent_id);
        if let Some(p) = s[k].parent_id {
            lemma_lookup_update(s, i, c, p);
            if p == c.id {
                lemma_lookup_at(s, i);
            }
        }
    }
}

/// Walking parent links from a stored record meets as many records as its
/// stored depth, up to the walk's bound.
proof fn lemma_chain_len(s: Seq<Comment>, id: u128, fuel: nat)
    requires
        thread_wf(s),
        lookup(s, id) is Some,
    ensures
        chain_len(s, id, fuel) == if fuel < lookup(s, id)->Some_0.depth {
            fuel
        } else {
            lookup(s, id)->Some_0.depth as nat
        },
    decreases fuel,
{
    if fuel > 0 {
        let i = position(s, id);
        assert(has_id(s, id));
        assert(s[i].id == id);
        let c = s[i];
        assert(1 <= s[i].depth <= MAX_NESTING_LEVEL);
        match c.parent_id {
            None => {},
            Some(p) => {
                lemma_chain_len(s, p, (fuel - 1) as nat);
            },
        }
    }
}

/// In a well-formed thread, the bounded walk from a stored comment counts
/// exactly its stored depth: the stored value is the ancestor depth a reply
/// to it would have.
pub proof fn lemma_walk_matches_depth(s: Seq<Comment>, id: u128)
    requires
        thread_wf(s),
        lookup(s, id) is Some,
    ensures
        ancestor_depth(s, id) == lookup(s, id)->Some_0.depth,
{
    lemma_chain_len(s, id, (MAX_NESTING_LEVEL + 1) as nat);
    let i = position(s, id);
    assert(has_id(s, id));
    assert(s[i].depth <= MAX_NESTING_LEVEL);
}

/// Why a reply to `parent` cannot be written, if it cannot: the parent is
/// missing or deleted, not approved, or already at the nesting limit.
pub open spec fn reply_error(s: Seq<Comment>, parent: u128) -> Option<CommentError> {
    match lookup(s, parent) {
        None => Some(CommentError::ParentNotFound),
        Some(q) => if q.deleted_at is Some {
            Some(CommentError::ParentNotFound)
        } else if q.status != CommentStatus::Approved {
            Some(CommentError::ParentNotApproved)
        } else if ancestor_depth(s, parent) >= MAX_NESTING_LEVEL {
            Some(CommentError::MaxNestingLevel)
        } else {
            None
        },
    }
}

/// The thread rules admit a comment with this parent link.
pub open spec fn parent_admissible(s: Seq<Comment>, parent: Option<u128>) -> bool {
    match parent {
        None => true,
        Some(p) => reply_error(s, p) is None,
    }
}

/// Depth a new comment with this parent link is stored with.
pub open spec fn depth_below(s: Seq<Comment>, parent: Option<u128>) -> u64 {
    match parent {
        None => 1,
        Some(p) => (lookup(s, p)->Some_0.depth + 1) as u64,
    }
}

/// The record a successful creation writes.
pub open spec fn new_record(
    s: Seq<Comment>,
    author_id: Option<u128>,
    req: CreateCommentRequest,
    id: u128,
    now: i64,
) -> Comment {
    Comment {
        id,
        post_id: req.post_id,
        author_id,
        parent_id: req.parent_id,
        content: req.content,
        status: CommentStatus::Pending,
        created_at: now,
        updated_at: now,
        deleted_at: None,
        depth: depth_below(s, req.parent_id),
    }
}

/// The actor owns the comment: anonymous comments have no owner.
pub open spec fn owns(identity: Option<u128>, c: Comment) -> bool {
    match c.author_id {
        Some(owner) => may_mutate(identity, owner),
        None => false,
    }
}

/// The comment with new content, edited at `now`.
pub open spec fn with_content(c: Comment, content: String, now: i64) -> Comment {
    Comment { content, updated_at: now, ..c }
}

/// The comment turned into a tombstone at `now`.
pub open spec fn with_deleted(c: Comment, now: i64) -> Comment {
    Comment { deleted_at: Some(now), ..c }
}

/// The comment after a moderation action at `now`.
pub open spec fn with_status(c: Comment, status: CommentStatus, now: i64) -> Comment {
    Comment { status, updated_at: now, ..c }
}

/// Which comments a listing shows. Tombstones are never listed.
#[derive(Clone, Copy, Debug)]
pub enum ListScope {
    /// The comments on a post that pass the filters.
    Post { post_id: u128, filters: CommentFilters },
    /// The direct replies to a comment.
    Replies { parent_id: u128 },
}

pub open spec fn passes(filters: CommentFilters, c: Comment) -> bool {
    &&& match filters.status {
        Some(st) => c.status == st,
        None => true,
    }
    &&& match filters.author_id {
        Some(a) => c.author_id == Some(a),
        None => true,
    }
}

pub open spec fn in_scope(scope: ListScope, c: Comment) -> bool {
    &&& c.deleted_at is None
    &&& match scope {
        ListScope::Post { post_id, filters } => c.post_id == post_id && passes(filters, c),
        ListScope::Replies { parent_id } => c.parent_id == Some(parent_id),
    }
}

/// The records in scope, in stored order.
pub open spec fn selected(s: Seq<Comment>, scope: ListScope) -> Seq<Comment>
    decreases s.len(),
{
    if s.len() == 0 {
        Seq::empty()
    } else {
        let rest = selected(s.drop_last(), scope);
        if in_scope(scope, s.last()) {
            rest.push(s.last())
        } else {
            rest
        }
    }
}

pub proof fn lemma_selected_len(s: Seq<Comment>, scope: ListScope)
    ensures
        selected(s, scope).len() <= s.len(),
    decreases s.len(),
{
    if s.len() > 0 {
        lemma_selected_len(s.drop_last(), scope);
    }
}

impl ListScope {
    pub fn admits(&self, c: &Comment) -> (r: bool)
        ensures
            r == in_scope(*self, *c),
    {
        if c.deleted_at.is_some() {
            return false;
        }
        match self {
            ListScope::Post { post_id, filters } => {
                if c.post_id != *post_id {
                    return false;
                }
                let status_ok = match filters.status {
                    Some(st) => c.status == st,
                    None => true,
                };
                let author_ok = match filters.author_id {
                    Some(a) => c.author_id == Some(a),
                    None => true,
                };
                status_ok && author_ok
            },
            ListScope::Replies { parent_id } => c.parent_id == Some(*parent_id),
        }
    }
}

/// Copies one page out of `all`.
fn take_page(all: &Vec<Comment>, page: u32, per_page: u32) -> (r: Vec<Comment>)
    ensures
        r@ == page_of(all@, page as nat, per_page as nat),
{
    let start: u64 = if page == 0 {
        0
    } else {
        proof {
            assert(((page - 1) as nat) * (per_page as nat) <= 0xffff_ffff_ffff_ffffnat) by (nonlinear_arith)
                requires
                    page >= 1,
                    page <= 0xffff_ffff,
                    per_page <= 0xffff_ffff,
            ;
        }
        (page - 1) as u64 * per_page as u64
    };
    assert(start as nat == page_start(page as nat, per_page as nat));
    let mut out: Vec<Comment> = Vec::new();
    if start >= all.len() as u64 {
        return out;
    }
    let start = start as usize;
    let end: usize = if start as u128 + per_page as u128 >= all.len() as u128 {
        all.len()
    } else {
        start + per_page as usize
    };
    let mut k: usize = start;
    while k < end
        invariant
            start <= k <= end <= all@.len(),
            out@ == all@.subrange(start as int, k as int),
        decreases end - k,
    {
        out.push(all[k].duplicate());
        proof {
            assert(all@.subrange(start as int, k + 1) =~= all@.subrange(start as int, k as int).push(
                all@[k as int],
            ));
        }
        k += 1;
    }
    out
}

/// In-memory comment store: an arena of records keyed by id, with the audit
/// log of moderation actions beside it.
pub struct MockCommentService {
    comments: Vec<Comment>,
    moderation_log: Vec<ModerationLog>,
}

impl MockCommentService {
    /// The stored records, in order of creation.
    pub closed spec fn records(&self) -> Seq<Comment> {
        self.comments@
    }

    /// The audit log, in order of writing.
    pub closed spec fn audit_log(&self) -> Seq<ModerationLog> {
        self.moderation_log@
    }

    pub open spec fn wf(&self) -> bool {
        thread_wf(self.records())
    }

    /// The stored record with the given id.
    pub open spec fn comment(&self, id: u128) -> Option<Comment> {
        lookup(self.records(), id)
    }

    pub fn new() -> (r: Self)
        ensures
            r.wf(),
            r.records() == Seq::<Comment>::empty(),
            r.audit_log() == Seq::<ModerationLog>::empty(),
    {
        MockCommentService { comments: Vec::new(), moderation_log: Vec::new() }
    }

    /// Number of stored records, tombstones included.
    pub fn len(&self) -> (r: usize)
        ensures
            r == self.records().len(),
    {
        self.comments.len()
    }

    /// Number of audit records.
    pub fn log_len(&self) -> (r: usize)
        ensures
            r == self.audit_log().len(),
    {
        self.moderation_log.len()
    }

    /// The audit record at index `i`.
    pub fn log_entry(&self, i: usize) -> (r: &ModerationLog)
        requires
            i < self.audit_log().len(),
        ensures
            *r == self.audit_log()[i as int],
    {
        &self.moderation_log[i]
    }

    fn find(&self, id: u128) -> (r: Option<usize>)
        ensures
            match r {
                Some(i) => i < self.records().len() && self.records()[i as int].id == id,
                None => !has_id(self.records(), id),
            },
    {
        let mut i: usize = 0;
        while i < self.comments.len()
            invariant
                i <= self.comments@.len(),
                forall|k: int| 0 <= k < i ==> self.comments@[k].id != id,
            decreases self.comments@.len() - i,
        {
            if self.comments[i].id == id {
                return Some(i);
            }
            i += 1;
        }
        None
    }

    /// Reads one comment. A tombstone stays resolvable: it is reported as
    /// deleted, not as missing.
    pub fn get_comment(&self, id: u128) -> (r: Result<Comment, CommentError>)
        requires
            self.wf(),
        ensures
            match self.comment(id) {
                None => r == Err::<Comment, CommentError>(CommentError::CommentNotFound),
                Some(c) => if c.deleted_at is Some {
                    r == Err::<Comment, CommentError>(CommentError::CommentDeleted)
                } else {
                    r == Ok::<Comment, CommentError>(c)
                },
            },
    {
        match self.find(id) {
            None => Err(CommentError::CommentNotFound),
            Some(i) => {
                proof {
                    lemma_lookup_at(self.records(), i as int);
                }
                let c = &self.comments[i];
                if c.deleted_at.is_some() {
                    Err(CommentError::CommentDeleted)
                } else {
                    Ok(c.duplicate())
                }
            },
        }
    }

    /// Creates a comment with the given id at time `now`. The content rule is
    /// checked first, then the parent rules; the new comment always starts
    /// `Pending`.
    pub fn create_comment_at(
        &mut self,
        author_id: Option<u128>,
        req: CreateCommentRequest,
        id: u128,
        now: i64,
    ) -> (r: Result<Comment, CommentError>)
        requires
            old(self).wf(),
        ensures
            final(self).wf(),
            forall|k: u128| k != id ==> #[trigger] final(self).comment(k) == old(self).comment(k),
            final(self).audit_log() == old(self).audit_log(),
            r is Err ==> final(self).records() == old(self).records(),
            r matches Ok(c) ==> final(self).records() == old(self).records().push(c),
            r is Ok ==> final(self).comment(id) == Some(r->Ok_0),
            content_ok(req.content@) && !has_id(old(self).records(), id) && req.parent_id is Some
                ==> (r is Ok <==> {
                let p = req.parent_id->Some_0;
                &&& lookup(old(self).records(), p) is Some
                &&& lookup(old(self).records(), p)->Some_0.deleted_at is None
                &&& lookup(old(self).records(), p)->Some_0.status == CommentStatus::Approved
                &&& ancestor_depth(old(self).records(), p) < MAX_NESTING_LEVEL
            }),
            !content_ok(req.content@) ==> r matches Err(CommentError::Validation(_)),
            content_ok(req.content@) ==> match req.parent_id {
                Some(p) => match reply_error(old(self).records(), p) {
                    Some(e) => r == Err::<Comment, CommentError>(e),
                    None => true,
                },
                None => true,
            },
            content_ok(req.content@) && parent_admissible(old(self).records(), req.parent_id)
                && has_id(old(self).records(), id) ==> r matches Err(CommentError::Database(_)),
            content_ok(req.content@) && parent_admissible(old(self).records(), req.parent_id)
                && !has_id(old(self).records(), id) ==> r == Ok::<Comment, CommentError>(
                new_record(old(self).records(), author_id, req, id, now),
            ),
    {
        let ghost s = self.records();
        proof {
            if let Some(p) = req.parent_id {
                lemma_reply_rule(s, p);
            }
        }
        let valid = validate_content(&req.content);
        if let Err(e) = valid {
            return Err(e);
        }
        let mut depth: u64 = 1;
        if let Some(p) = req.parent_id {
            match self.find(p) {
                None => {
                    return Err(CommentError::ParentNotFound);
                },
                Some(i) => {
                    proof {
                        lemma_lookup_at(s, i as int);
                        lemma_walk_matches_depth(s, p);
                    }
                    let parent = &self.comments[i];
                    if parent.deleted_at.is_some() {
                        return Err(CommentError::ParentNotFound);
                    }
                    if parent.status != CommentStatus::Approved {
                        return Err(CommentError::ParentNotApproved);
                    }
                    if parent.depth >= MAX_NESTING_LEVEL {
                        return Err(CommentError::MaxNestingLevel);
                    }
                    depth = parent.depth + 1;
                }
            }
        }
        if self.find(id).is_some() {
            return Err(CommentError::Database(String::from_str("Duplicate comment id")));
        }
        let c = Comment {
            id,
            post_id: req.post_id,
            author_id,
            parent_id: req.parent_id,
            content: req.content,
            status: CommentStatus::Pending,
            created_at: now,
            updated_at: now,
            deleted_at: None,
            depth,
        };
        proof {
            lemma_push_keeps_wf(s, c);
            lemma_lookup_push_all(s, c);
        }
        self.comments.push(c.duplicate());
        Ok(c)
    }

    /// Edits a comment's content at time `now`. The comment must exist and
    /// not be deleted, the actor must own it, and only then is the new content
    /// checked: a non-owner is refused whatever the body holds. The status is
    /// left as it is.
    pub fn update_comment_at(
        &mut self,
        id: u128,
        identity: Option<u128>,
        req: UpdateCommentRequest,
        now: i64,
    ) -> (r: Result<Comment, CommentError>)
        requires
            old(self).wf(),
        ensures
            final(self).wf(),
            forall|k: u128| k != id ==> #[trigger] final(self).comment(k) == old(self).comment(k),
            final(self).audit_log() == old(self).audit_log(),
            r is Err ==> final(self).records() == old(self).records(),
            match old(self).comment(id) {
                None => r == Err::<Comment, CommentError>(CommentError::CommentNotFound),
                Some(c) => if c.deleted_at is Some {
                    r == Err::<Comment, CommentError>(CommentError::CommentDeleted)
                } else if !owns(identity, c) {
                    r == Err::<Comment, CommentError>(CommentError::Forbidden)
                } else if !content_ok(req.content@) {
                    r matches Err(CommentError::Validation(_))
                } else {
                    &&& r == Ok::<Comment, CommentError>(with_content(c, req.content, now))
                    &&& final(self).comment(id) == Some(with_content(c, req.content, now))
                    &&& final(self).records() == old(self).records().update(
                        position(old(self).records(), id),
                        with_content(c, req.content, now),
                    )
                },
            },
    {
        let ghost s = self.records();
        let i = match self.find(id) {
            None => {
                return Err(CommentError::CommentNotFound);
            },
            Some(i) => i,
        };
        proof {
            lemma_lookup_at(s, i as int);
        }
        let c = &self.comments[i];
        if c.deleted_at.is_some() {
            return Err(CommentError::CommentDeleted);
        }
        match c.author_id {
            None => {
                return Err(CommentError::Forbidden);
            },
            Some(owner) => {
                if authorize_mutation(identity, owner).is_err() {
                    return Err(CommentError::Forbidden);
                }
            },
        }
        let valid = validate_content(&req.content);
        if let Err(e) = valid {
            return Err(e);
        }
        let updated = Comment {
            id: c.id,
            post_id: c.post_id,
            author_id: c.author_id,
            parent_id: c.parent_id,
            content: req.content,
            status: c.status,
            created_at: c.created_at,
            updated_at: now,
            deleted_at: c.deleted_at,
            depth: c.depth,
        };
        proof {
            lemma_update_keeps_wf(s, i as int, updated);
            lemma_lookup_update_all(s, i as int, updated);
        }
        self.comments.set(i, updated.duplicate());
        Ok(updated)
    }

    /// Soft-deletes a comment at time `now`: the record stays, marked with
    /// the deletion time, and its replies are left as they are.
    pub fn delete_comment_at(&mut self, id: u128, identity: Option<u128>, now: i64) -> (r: Result<
        (),
        CommentError,
    >)
        requires
            old(self).wf(),
        ensures
            final(self).wf(),
            forall|k: u128| k != id ==> #[trigger] final(self).comment(k) == old(self).comment(k),
            final(self).audit_log() == old(self).audit_log(),
            r is Err ==> final(self).records() == old(self).records(),
            match old(self).comment(id) {
                None => r == Err::<(), CommentError>(CommentError::CommentNotFound),
                Some(c) => if c.deleted_at is Some {
                    r == Err::<(), CommentError>(CommentError::CommentDeleted)
                } else if !owns(identity, c) {
                    r == Err::<(), CommentError>(CommentError::Forbidden)
                } else {
                    &&& r == Ok::<(), CommentError>(())
                    &&& final(self).comment(id) == Some(with_deleted(c, now))
                    &&& final(self).records() == old(self).records().update(
                        position(old(self).records(), id),
                        with_deleted(c, now),
                    )
                },
            },
    {
        let ghost s = self.records();
        let i = match self.find(id) {
            None => {
                return Err(CommentError::CommentNotFound);
            },
            Some(i) => i,
        };
        proof {
            lemma_lookup_at(s, i as int);
        }
        let c = &self.comments[i];
        if c.deleted_at.is_some() {
            return Err(CommentError::CommentDeleted);
        }
        match c.author_id {
            None => {
                return Err(CommentError::Forbidden);
            },
            Some(owner) => {
                if authorize_mutation(identity, owner).is_err() {
                    return Err(CommentError::Forbidden);
                }
            },
        }
        let tombstone = Comment {
            id: c.id,
            post_id: c.post_id,
            author_id: c.author_id,
            parent_id: c.parent_id,
            content: c.content.clone(),
            status: c.status,
            created_at: c.created_at,
            updated_at: c.updated_at,
            deleted_at: Some(now),
            depth: c.depth,
        };
        proof {
            lemma_update_keeps_wf(s, i as int, tombstone);
            lemma_lookup_update_all(s, i as int, tombstone);
        }
        self.comments.set(i, tombstone);
        Ok(())
    }

    /// Moderates a comment at time `now`: a `Pending` comment moves to the
    /// action's status and one audit record is appended. A comment that has
    /// already been moderated is not moderated again.
    pub fn moderate_comment_at(
        &mut self,
        id: u128,
        moderator_id: u128,
        req: ModerateCommentRequest,
        now: i64,
    ) -> (r: Result<Comment, CommentError>)
        requires
            old(self).wf(),
        ensures
            final(self).wf(),
            forall|k: u128| k != id ==> #[trigger] final(self).comment(k) == old(self).comment(k),
            r is Err ==> final(self).records() == old(self).records(),
            r is Err ==> final(self).audit_log() == old(self).audit_log(),
            match old(self).comment(id) {
                None => r == Err::<Comment, CommentError>(CommentError::CommentNotFound),
                Some(c) => if c.deleted_at is Some {
                    r == Err::<Comment, CommentError>(CommentError::CommentDeleted)
                } else if c.status != CommentStatus::Pending {
                    r == Err::<Comment, CommentError>(CommentError::AlreadyModerated)
                } else {
                    &&& r == Ok::<Comment, CommentError>(
                        with_status(c, status_after(req.action), now),
                    )
                    &&& final(self).comment(id) == Some(with_status(c, status_after(req.action), now))
                    &&& final(self).records() == old(self).records().update(
                        position(old(self).records(), id),
                        with_status(c, status_after(req.action), now),
                    )
                    &&& final(self).audit_log() == old(self).audit_log().push(
                        ModerationLog {
                            comment_id: id,
                            moderator_id,
                            action: req.action,
                            reason: req.reason,
                            created_at: now,
                        },
                    )
                },
            },
    {
        let ghost s = self.records();
        let i = match self.find(id) {
            None => {
                return Err(CommentError::CommentNotFound);
            },
            Some(i) => i,
        };
        proof {
            lemma_lookup_at(s, i as int);
        }
        let c = &self.comments[i];
        if c.deleted_at.is_some() {
            return Err(CommentError::CommentDeleted);
        }
        if c.status != CommentStatus::Pending {
            return Err(CommentError::AlreadyModerated);
        }
        let moderated = Comment {
            id: c.id,
            post_id: c.post_id,
            author_id: c.author_id,
            parent_id: c.parent_id,
            content: c.content.clone(),
            status: req.action.target_status(),
            created_at: c.created_at,
            updated_at: now,
            deleted_at: c.deleted_at,
            depth: c.depth,
        };
        proof {
            lemma_update_keeps_wf(s, i as int, moderated);
            lemma_lookup_update_all(s, i as int, moderated);
        }
        self.comments.set(i, moderated.duplicate());
        self.moderation_log.push(
            ModerationLog {
                comment_id: id,
                moderator_id,
                action: req.action,
                reason: req.reason,
                created_at: now,
            },
        );
        Ok(moderated)
    }

    /// The records in scope, in stored order.
    pub fn select(&self, scope: ListScope) -> (r: Vec<Comment>)
        ensures
            r@ == selected(self.records(), scope),
    {
        let mut out: Vec<Comment> = Vec::new();
        let mut i: usize = 0;
        while i < self.comments.len()
            invariant
                i <= self.comments@.len(),
                out@ == selected(self.comments@.subrange(0, i as int), scope),
            decreases self.comments@.len() - i,
        {
            let c = &self.comments[i];
            if scope.admits(c) {
                out.push(c.duplicate());
            }
            proof {
                assert(self.comments@.subrange(0, i + 1).drop_last() =~= self.comments@.subrange(
                    0,
                    i as int,
                ));
            }
            i += 1;
        }
        proof {
            assert(self.comments@.subrange(0, self.comments@.len() as int) =~= self.comments@);
        }
        out
    }

    /// One page of the listing for `scope`. Pages are numbered from 1; a
    /// page past the end is empty, with the totals still given.
    pub fn list(&self, scope: ListScope, page: u32, per_page: u32) -> (r: CommentListResponse)
        ensures
            r.comments@ == page_of(selected(self.records(), scope), page as nat, per_page as nat),
            r.total == selected(self.records(), scope).len(),
            r.page == page,
            r.per_page == per_page,
            r.total_pages as nat == page_count(
                selected(self.records(), scope).len(),
                per_page as nat,
            ),
    {
        let all = self.select(scope);
        proof {
            lemma_selected_len(self.records(), scope);
        }
        let total = all.len() as u64;
        let comments = take_page(&all, page, per_page);
        CommentListResponse {
            comments,
            total,
            page,
            per_page,
            total_pages: total_pages(total, per_page),
        }
    }

    /// The comments on a post, filtered, one page of them.
    pub fn list_comments(
        &self,
        post_id: u128,
        page: u32,
        per_page: u32,
        filters: Option<CommentFilters>,
    ) -> (r: CommentListResponse)
        ensures
            ({
                let scope = ListScope::Post {
                    post_id,
                    filters: match filters {
                        Some(f) => f,
                        None => CommentFilters { status: None, author_id: None },
                    },
                };
                &&& r.comments@ == page_of(
                    selected(self.records(), scope),
                    page as nat,
                    per_page as nat,
                )
                &&& r.total == selected(self.records(), scope).len()
                &&& r.page == page
                &&& r.per_page == per_page
                &&& r.total_pages as nat == page_count(
                    selected(self.records(), scope).len(),
                    per_page as nat,
                )
            }),
    {
        let filters = match filters {
            Some(f) => f,
            None => CommentFilters { status: None, author_id: None },
        };
        self.list(ListScope::Post { post_id, filters }, page, per_page)
    }

    /// The direct replies to a comment, one page of them.
    pub fn list_replies(&self, parent_id: u128, page: u32, per_page: u32) -> (r:
        CommentListResponse)
        ensures
            r.comments@ == page_of(
                selected(self.records(), ListScope::Replies { parent_id }),
                page as nat,
                per_page as nat,
            ),
            r.total == selected(self.records(), ListScope::Replies { parent_id }).len(),
            r.page == page,
            r.per_page == per_page,
            r.total_pages as nat == page_count(
                selected(self.records(), ListScope::Replies { parent_id }).len(),
                per_page as nat,
            ),
    {
        self.list(ListScope::Replies { parent_id }, page, per_page)
    }

    /// Number of listed replies to a comment.
    pub fn replies_count(&self, id: u128) -> (r: u64)
        ensures
            r == selected(self.records(), ListScope::Replies { parent_id: id }).len(),
    {
        proof {
            lemma_selected_len(self.records(), ListScope::Replies { parent_id: id });
        }
        self.select(ListScope::Replies { parent_id: id }).len() as u64
    }

    /// Edits a comment's content at the current time.
    pub fn update_comment(&mut self, id: u128, identity: Option<u128>, req: UpdateCommentRequest) -> (r:
        Result<Comment, CommentError>)
        requires
            old(self).wf(),
        ensures
            final(self).wf(),
            forall|k: u128| k != id ==> #[trigger] final(self).comment(k) == old(self).comment(k),
            final(self).audit_log() == old(self).audit_log(),
            r is Err ==> final(self).records() == old(self).records(),
            match old(self).comment(id) {
                None => r == Err::<Comment, CommentError>(CommentError::CommentNotFound),
                Some(c) => if c.deleted_at is Some {
                    r == Err::<Comment, CommentError>(CommentError::CommentDeleted)
                } else if !owns(identity, c) {
                    r == Err::<Comment, CommentError>(CommentError::Forbidden)
                } else if !content_ok(req.content@) {
                    r matches Err(CommentError::Validation(_))
                } else {
                    r matches Ok(u) && u == with_content(c, req.content, u.updated_at)
                        && final(self).comment(id) == Some(u) && final(self).records() == old(self).records().update(
                        position(old(self).records(), id),
                        u,
                    )
                },
            },
    {
        let now = now_seconds();
        self.update_comment_at(id, identity, req, now)
    }

    /// Soft-deletes a comment at the current time.
    pub fn delete_comment(&mut self, id: u128, identity: Option<u128>) -> (r: Result<(), CommentError>)
        requires
            old(self).wf(),
        ensures
            final(self).wf(),
            forall|k: u128| k != id ==> #[trigger] final(self).comment(k) == old(self).comment(k),
            final(self).audit_log() == old(self).audit_log(),
            r is Err ==> final(self).records() == old(self).records(),
            match old(self).comment(id) {
                None => r == Err::<(), CommentError>(CommentError::CommentNotFound),
                Some(c) => if c.deleted_at is Some {
                    r == Err::<(), CommentError>(CommentError::CommentDeleted)
                } else if !owns(identity, c) {
                    r == Err::<(), CommentError>(CommentError::Forbidden)
                } else {
                    &&& r == Ok::<(), CommentError>(())
                    &&& exists|t: i64|
                        final(self).records() == old(self).records().update(
                            position(old(self).records(), id),
                            #[trigger] with_deleted(c, t),
                        ) && final(self).comment(id) == Some(with_deleted(c, t))
                },
            },
    {
        let now = now_seconds();
        self.delete_comment_at(id, identity, now)
    }

    /// Moderates a comment at the current time.
    pub fn moderate_comment(&mut self, id: u128, moderator_id: u128, req: ModerateCommentRequest) -> (r:
        Result<Comment, CommentError>)
        requires
            old(self).wf(),
        ensures
            final(self).wf(),
            forall|k: u128| k != id ==> #[trigger] final(self).comment(k) == old(self).comment(k),
            r is Err ==> final(self).records() == old(self).records(),
            r is Err ==> final(self).audit_log() == old(self).audit_log(),
            match old(self).comment(id) {
                None => r == Err::<Comment, CommentError>(CommentError::CommentNotFound),
                Some(c) => if c.deleted_at is Some {
                    r == Err::<Comment, CommentError>(CommentError::CommentDeleted)
                } else if c.status != CommentStatus::Pending {
                    r == Err::<Comment, CommentError>(CommentError::AlreadyModerated)
                } else {
                    r matches Ok(m) && m == with_status(c, status_after(req.action), m.updated_at)
                        && final(self).comment(id) == Some(m) && final(self).records() == old(self).records().update(
                        position(old(self).records(), id),
                        m,
                    ) && final(self).audit_log() == old(self).audit_log().push(
                        ModerationLog {
                            comment_id: id,
                            moderator_id,
                            action: req.action,
                            reason: req.reason,
                            created_at: m.updated_at,
                        },
                    )
                },
            },
    {
        let now = now_seconds();
        self.moderate_comment_at(id, moderator_id, req, now)
    }

    /// Creates a comment with a fresh id at the current time.
    pub fn create_comment(&mut self, author_id: Option<u128>, req: CreateCommentRequest) -> (r:
        Result<Comment, CommentError>)
        requires
            old(self).wf(),
        ensures
            final(self).wf(),
            final(self).audit_log() == old(self).audit_log(),
            r is Err ==> final(self).records() == old(self).records(),
            !content_ok(req.content@) ==> r matches Err(CommentError::Validation(_)),
            content_ok(req.content@) ==> match req.parent_id {
                Some(p) => match reply_error(old(self).records(), p) {
                    Some(e) => r == Err::<Comment, CommentError>(e),
                    None => true,
                },
                None => true,
            },
            content_ok(req.content@) && parent_admissible(old(self).records(), req.parent_id) ==> (r is Ok
                || r matches Err(CommentError::Database(_))),
            content_ok(req.content@) && req.parent_id is None && old(self).records().len() == 0 ==> r is Ok,
            r matches Ok(c) ==> {
                &&& final(self).records() == old(self).records().push(c)
                &&& final(self).comment(c.id) == Some(c)
                &&& forall|k: u128| k != c.id ==> #[trigger] final(self).comment(k) == old(self).comment(k)
                &&& c == new_record(old(self).records(), author_id, req, c.id, c.created_at)
            },
    {
        let id = new_id();
        let now = now_seconds();
        self.create_comment_at(author_id, req, id, now)
    }
}

/// Appending a record with a fresh id whose parent link is admissible keeps
/// a thread well-formed.
proof fn lemma_push_keeps_wf(s: Seq<Comment>, c: Comment)
    requires
        thread_wf(s),
        !has_id(s, c.id),
        parent_admissible(s, c.parent_id),
        c.depth == depth_below(s, c.parent_id),
    ensures
        thread_wf(s.push(c)),
{
    let t = s.push(c);
    lemma_lookup_push(s, c, c.id);
    if let Some(p) = c.parent_id {
        lemma_walk_matches_depth(s, p);
    }
    assert forall|k: int| 0 <= k < t.len() implies {
        &&& 1 <= #[trigger] t[k].depth <= MAX_NESTING_LEVEL
        &&& match t[k].parent_id {
            None => t[k].depth == 1,
            Some(p) => match lookup(t, p) {
                Some(q) => t[k].depth == q.depth + 1,
                None => false,
            },
        }
    } by {
        if let Some(p) = t[k].parent_id {
            lemma_lookup_push(s, c, p);
            if k < s.len() {
                assert(t[k] == s[k]);
            }
        }
    }
}

/// Parent links only ever lead to a shallower stored comment, so no comment
/// is its own ancestor and every walk up a thread ends at a top-level
/// comment.
pub proof fn lemma_parent_is_shallower(s: Seq<Comment>, id: u128)
    requires
        thread_wf(s),
        lookup(s, id) matches Some(c) && c.parent_id is Some,
    ensures
        ({
            let c = lookup(s, id)->Some_0;
            let p = c.parent_id->Some_0;
            &&& lookup(s, p) is Some
            &&& lookup(s, p)->Some_0.depth < c.depth
            &&& p != id
        }),
{
    let i = position(s, id);
    assert(has_id(s, id));
    assert(s[i].id == id);
    assert(1 <= s[i].depth <= MAX_NESTING_LEVEL);
}

/// A reply is admitted exactly when its parent exists, is not deleted, is
/// approved, and has fewer than `MAX_NESTING_LEVEL` comments on its walk to
/// the top (itself included); otherwise the error names the rule that failed.
pub proof fn lemma_reply_rule(s: Seq<Comment>, parent: u128)
    requires
        thread_wf(s),
    ensures
        reply_error(s, parent) is None <==> {
            &&& lookup(s, parent) is Some
            &&& lookup(s, parent)->Some_0.deleted_at is None
            &&& lookup(s, parent)->Some_0.status == CommentStatus::Approved
            &&& ancestor_depth(s, parent) < MAX_NESTING_LEVEL
        },
        lookup(s, parent) is None ==> reply_error(s, parent) == Some(CommentError::ParentNotFound),
        lookup(s, parent) matches Some(q) && q.deleted_at is Some ==> reply_error(s, parent) == Some(
            CommentError::ParentNotFound,
        ),
        lookup(s, parent) matches Some(q) && q.deleted_at is None && q.status
            != CommentStatus::Approved ==> reply_error(s, parent) == Some(
            CommentError::ParentNotApproved,
        ),
        lookup(s, parent) matches Some(q) && q.deleted_at is None && q.status
            == CommentStatus::Approved && ancestor_depth(s, parent) >= MAX_NESTING_LEVEL
            ==> reply_error(s, parent) == Some(CommentError::MaxNestingLevel),
        lookup(s, parent) is Some ==> ancestor_depth(s, parent) == lookup(s, parent)->Some_0.depth,
{
    if lookup(s, parent) is Some {
        lemma_walk_matches_depth(s, parent);
    }
}

/// Approving a pending comment and then reading it gives an approved,
/// readable comment, and the audit log grows by exactly one record naming the
/// moderator, stamped no earlier than the call.
pub proof fn lemma_approve_then_read(
    s: Seq<Comment>,
    log: Seq<ModerationLog>,
    id: u128,
    moderator_id: u128,
    reason: Option<String>,
    called_at: i64,
    now: i64,
)
    requires
        thread_wf(s),
        lookup(s, id) matches Some(c) && c.deleted_at is None && c.status == CommentStatus::Pending,
        called_at <= now,
    ensures
        ({
            let c = lookup(s, id)->Some_0;
            let after = s.update(position(s, id), with_status(c, status_after(ModerateAction::Approve), now));
            let entry = ModerationLog {
                comment_id: id,
                moderator_id,
                action: ModerateAction::Approve,
                reason,
                created_at: now,
            };
            &&& thread_wf(after)
            &&& lookup(after, id) matches Some(d) && d.status == CommentStatus::Approved
                && d.deleted_at is None
            &&& log.push(entry).len() == log.len() + 1
            &&& log.push(entry).subrange(0, log.len() as int) == log
            &&& log.push(entry).last().moderator_id == moderator_id
            &&& log.push(entry).last().created_at >= called_at
        }),
{
    let c = lookup(s, id)->Some_0;
    let i = position(s, id);
    assert(has_id(s, id));
    lemma_lookup_at(s, i);
    let d = with_status(c, status_after(ModerateAction::Approve), now);
    lemma_update_keeps_wf(s, i, d);
    lemma_lookup_update(s, i, d, id);
    let entry = ModerationLog {
        comment_id: id,
        moderator_id,
        action: ModerateAction::Approve,
        reason,
        created_at: now,
    };
    assert(log.push(entry).subrange(0, log.len() as int) =~= log);
}

/// A comment can be edited or deleted only by its author: an anonymous
/// actor, another user, or any actor on an anonymous comment is refused.
pub proof fn lemma_only_author_mutates(identity: Option<u128>, c: Comment)
    ensures
        owns(identity, c) <==> (identity is Some && c.author_id == identity),
{
}

} // verus!
