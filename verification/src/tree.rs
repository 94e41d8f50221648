//! Comment tree builder: turns the flat, parent-pointer-linked comment set
//! of one article into a forest of nested nodes, each comment's content
//! redacted first when the viewer may not see deleted content.
//!
//! Within every sibling group the input order is kept: the storage layer
//! delivers comments ordered by creation time, and the builder never
//! reorders. A comment whose parent is absent from the input set is not a
//! root and never gets attached: it is left out of the output, as the
//! storage contract promises a closed set. Attachment depth is bounded by
//! [`MAX_COMMENT_TREE_DEPTH`]; input that nests deeper (possible only if the
//! stored parent graph breaks its acyclicity invariant, or through
//! duplicated identifiers) is refused as a critical error rather than
//! followed into unbounded recursion.

use vstd::prelude::*;
use vstd::string::StringExecFns;

use crate::errors::AppError;
use crate::models::{ArticleId, Comment, CommentId, CommentState, RateState, Timestamp, UserId};

verus! {

/// Deeper nesting than this is refused.
pub const MAX_COMMENT_TREE_DEPTH: u32 = 64;

/// One node of the built forest: the comment as the viewer may see it, its
/// depth below the article root, the viewer's own rating of it, and its
/// replies.
#[derive(Debug)]
pub struct GetCommentsTreeItem {
    pub id: CommentId,
    pub content: String,
    pub author_id: UserId,
    pub article_id: ArticleId,
    pub parent_id: Option<CommentId>,
    pub children: Vec<GetCommentsTreeItem>,
    pub rating: i64,
    pub state: CommentState,
    pub level: u32,
    pub self_rate: RateState,
    pub created_at: Timestamp,
    pub updated_at: Option<Timestamp>,
}

/// The mathematical shape of a built node.
pub ghost struct TreeItemView {
    pub id: CommentId,
    pub content: Seq<char>,
    pub author_id: UserId,
    pub article_id: ArticleId,
    pub parent_id: Option<CommentId>,
    pub children: Seq<TreeItemView>,
    pub rating: i64,
    pub state: CommentState,
    pub level: u32,
    pub self_rate: RateState,
    pub created_at: Timestamp,
    pub updated_at: Option<Timestamp>,
}

/// The view of a built node, children included.
pub open spec fn item_view(n: GetCommentsTreeItem) -> TreeItemView
    decreases n,
{
    TreeItemView {
        id: n.id,
        content: n.content@,
        author_id: n.author_id,
        article_id: n.article_id,
        parent_id: n.parent_id,
        children: children_views(n.children@),
        rating: n.rating,
        state: n.state,
        level: n.level,
        self_rate: n.self_rate,
        created_at: n.created_at,
        updated_at: n.updated_at,
    }
}

/// The views of a sequence of built nodes.
pub open spec fn children_views(s: Seq<GetCommentsTreeItem>) -> Seq<TreeItemView>
    decreases s,
{
    Seq::new(
        s.len(),
        |i: int|
            if 0 <= i < s.len() {
                item_view(s[i])
            } else {
                arbitrary()
            },
    )
}

/// What the substituted content of a redacted comment says.
pub open spec fn redaction_placeholder() -> Seq<char> {
    "this comment has been deleted"@
}

/// The content a viewer sees: a published comment verbatim; a deleted one
/// verbatim only for a viewer with moderator visibility, otherwise the fixed
/// placeholder.
pub open spec fn spec_displayed_content(c: Comment, can_view_deleted: bool) -> Seq<char> {
    if c.state == CommentState::Published || can_view_deleted {
        c.content@
    } else {
        redaction_placeholder()
    }
}

pub fn redaction_placeholder_text() -> (r: &'static str)
    ensures
        r@ == redaction_placeholder(),
{
    "this comment has been deleted"
}

/// Applies redaction once, before tree assembly.
pub fn displayed_content(comment: &Comment, can_view_deleted: bool) -> (r: String)
    ensures
        r@ == spec_displayed_content(*comment, can_view_deleted),
{
    match comment.state {
        CommentState::Published => comment.content.clone(),
        CommentState::Deleted => if can_view_deleted {
            comment.content.clone()
        } else {
            String::from_str(redaction_placeholder_text())
        },
    }
}

/// The node built for one input row, given its children.
pub open spec fn spec_node(
    c: Comment,
    level: u32,
    rate: RateState,
    can_view_deleted: bool,
    children: Seq<TreeItemView>,
) -> TreeItemView {
    TreeItemView {
        id: c.id,
        content: spec_displayed_content(c, can_view_deleted),
        author_id: c.author_id,
        article_id: c.article_id,
        parent_id: c.parent_id,
        children,
        rating: c.rating,
        state: c.state,
        level,
        self_rate: rate,
        created_at: c.created_at,
        updated_at: c.updated_at,
    }
}

/// Whether some input row names `pid` as its parent.
pub open spec fn has_child(cs: Seq<(Comment, u32)>, pid: Option<CommentId>) -> bool {
    exists|j: int| 0 <= j < cs.len() && cs[j].0.parent_id == pid
}

/// Whether every attachment chain below `pid` ends within `fuel` steps.
pub open spec fn depth_ok(cs: Seq<(Comment, u32)>, pid: Option<CommentId>, fuel: nat) -> bool
    decreases fuel,
{
    if !has_child(cs, pid) {
        true
    } else if fuel == 0 {
        false
    } else {
        forall|j: int|
            0 <= j < cs.len() && (#[trigger] cs[j].0.parent_id) == pid ==> depth_ok(
                cs,
                Some(cs[j].0.id),
                (fuel - 1) as nat,
            )
    }
}

/// The forest grown under parent `pid` from the input rows at `i` and after:
/// each row naming `pid` becomes a node, in input order, its children grown
/// under its own id with one step of fuel less.
pub open spec fn spec_forest_from(
    cs: Seq<(Comment, u32)>,
    rs: Seq<RateState>,
    can_view_deleted: bool,
    pid: Option<CommentId>,
    i: int,
    fuel: nat,
) -> Seq<TreeItemView>
    decreases fuel, cs.len() - i,
{
    if i < 0 || i >= cs.len() {
        Seq::empty()
    } else {
        let rest = spec_forest_from(cs, rs, can_view_deleted, pid, i + 1, fuel);
        if cs[i].0.parent_id == pid {
            let kids = if fuel == 0 {
                Seq::<TreeItemView>::empty()
            } else {
                spec_forest_from(cs, rs, can_view_deleted, Some(cs[i].0.id), 0, (fuel - 1) as nat)
            };
            seq![spec_node(cs[i].0, cs[i].1, rs[i], can_view_deleted, kids)] + rest
        } else {
            rest
        }
    }
}

/// The whole forest grown under `pid`.
pub open spec fn spec_forest(
    cs: Seq<(Comment, u32)>,
    rs: Seq<RateState>,
    can_view_deleted: bool,
    pid: Option<CommentId>,
    fuel: nat,
) -> Seq<TreeItemView> {
    spec_forest_from(cs, rs, can_view_deleted, pid, 0, fuel)
}

proof fn lemma_forest_no_child(
    cs: Seq<(Comment, u32)>,
    rs: Seq<RateState>,
    can_view_deleted: bool,
    pid: Option<CommentId>,
    i: int,
    fuel: nat,
)
    requires
        !has_child(cs, pid),
        0 <= i,
    ensures
        spec_forest_from(cs, rs, can_view_deleted, pid, i, fuel) == Seq::<TreeItemView>::empty(),
    decreases cs.len() - i,
{
    if i < cs.len() {
        assert(cs[i].0.parent_id != pid);
        lemma_forest_no_child(cs, rs, can_view_deleted, pid, i + 1, fuel);
    }
}

fn same_parent(a: &Option<CommentId>, b: &Option<CommentId>) -> (r: bool)
    ensures
        r == (a == b),
{
    match (a, b) {
        (Some(x), Some(y)) => *x == *y,
        (None, None) => true,
        _ => false,
    }
}

fn has_child_at(cs: &Vec<(Comment, u32)>, pid: &Option<CommentId>) -> (r: bool)
    ensures
        r == has_child(cs@, *pid),
{
    let mut i: usize = 0;
    while i < cs.len()
        invariant
            0 <= i <= cs@.len(),
            forall|j: int| 0 <= j < i ==> (#[trigger] cs@[j].0.parent_id) != *pid,
        decreases cs@.len() - i,
    {
        if same_parent(&cs[i].0.parent_id, pid) {
            return true;
        }
        i = i + 1;
    }
    false
}

fn make_node(
    c: &Comment,
    level: u32,
    rate: RateState,
    can_view_deleted: bool,
    children: Vec<GetCommentsTreeItem>,
) -> (n: GetCommentsTreeItem)
    ensures
        item_view(n) == spec_node(*c, level, rate, can_view_deleted, children_views(children@)),
{
    GetCommentsTreeItem {
        id: c.id,
        content: displayed_content(c, can_view_deleted),
        author_id: c.author_id,
        article_id: c.article_id,
        parent_id: c.parent_id,
        children,
        rating: c.rating,
        state: c.state,
        level,
        self_rate: rate,
        created_at: c.created_at,
        updated_at: c.updated_at,
    }
}

/// Grows the forest under `pid`. Fails exactly when some attachment chain
/// under `pid` outruns `fuel`.
fn build_forest(
    cs: &Vec<(Comment, u32)>,
    rs: &Vec<RateState>,
    can_view_deleted: bool,
    pid: Option<CommentId>,
    fuel: u32,
) -> (r: Result<Vec<GetCommentsTreeItem>, ()>)
    requires
        cs@.len() == rs@.len(),
    ensures
        r is Ok <==> depth_ok(cs@, pid, fuel as nat),
        r matches Ok(f) ==> children_views(f@) == spec_forest(
            cs@,
            rs@,
            can_view_deleted,
            pid,
            fuel as nat,
        ),
    decreases fuel,
{
    if !has_child_at(cs, &pid) {
        proof {
            lemma_forest_no_child(cs@, rs@, can_view_deleted, pid, 0, fuel as nat);
            assert(children_views(Seq::<GetCommentsTreeItem>::empty()) =~= Seq::<
                TreeItemView,
            >::empty());
        }
        return Ok(Vec::new());
    }
    if fuel == 0 {
        return Err(());
    }
    let mut out: Vec<GetCommentsTreeItem> = Vec::new();
    let mut i: usize = 0;
    while i < cs.len()
        invariant
            cs@.len() == rs@.len(),
            0 <= i <= cs@.len(),
            1 <= fuel,
            has_child(cs@, pid),
            forall|j: int|
                0 <= j < i && (#[trigger] cs@[j].0.parent_id) == pid ==> depth_ok(
                    cs@,
                    Some(cs@[j].0.id),
                    (fuel - 1) as nat,
                ),
            children_views(out@) + spec_forest_from(
                cs@,
                rs@,
                can_view_deleted,
                pid,
                i as int,
                fuel as nat,
            ) == spec_forest(cs@, rs@, can_view_deleted, pid, fuel as nat),
        decreases cs@.len() - i,
    {
        if same_parent(&cs[i].0.parent_id, &pid) {
            match build_forest(cs, rs, can_view_deleted, Some(cs[i].0.id), fuel - 1) {
                Ok(kids) => {
                    let ghost old_out = out@;
                    let ghost kid_views = children_views(kids@);
                    let node = make_node(&cs[i].0, cs[i].1, rs[i], can_view_deleted, kids);
                    out.push(node);
                    proof {
                        assert(children_views(out@) =~= children_views(old_out) + seq![
                            item_view(node),
                        ]);
                        assert(spec_forest_from(
                            cs@,
                            rs@,
                            can_view_deleted,
                            pid,
                            i as int,
                            fuel as nat,
                        ) == seq![
                            spec_node(cs@[i as int].0, cs@[i as int].1, rs@[i as int], can_view_deleted, kid_views),
                        ] + spec_forest_from(
                            cs@,
                            rs@,
                            can_view_deleted,
                            pid,
                            i as int + 1,
                            fuel as nat,
                        ));
                        assert(children_views(old_out) + (seq![item_view(node)] + spec_forest_from(
                            cs@,
                            rs@,
                            can_view_deleted,
                            pid,
                            i as int + 1,
                            fuel as nat,
                        )) =~= (children_views(old_out) + seq![item_view(node)])
                            + spec_forest_from(
                            cs@,
                            rs@,
                            can_view_deleted,
                            pid,
                            i as int + 1,
                            fuel as nat,
                        ));
                    }
                },
                Err(e) => {
                    proof {
                        assert(!depth_ok(cs@, pid, fuel as nat)) by {
                            assert(0 <= i < cs@.len() && cs@[i as int].0.parent_id == pid
                                && !depth_ok(cs@, Some(cs@[i as int].0.id), (fuel - 1) as nat));
                        }
                    }
                    return Err(e);
                },
            }
        }
        i = i + 1;
    }
    proof {
        assert(depth_ok(cs@, pid, fuel as nat));
        assert(children_views(out@) + Seq::<TreeItemView>::empty() =~= children_views(out@));
    }
    Ok(out)
}

/// Builds the viewer's comment forest for one article.
///
/// `comments` carries each comment with its depth below the article root;
/// `rates` is positionally aligned with it, one viewer rating per comment. A
/// length mismatch between the two, like a nesting chain deeper than
/// [`MAX_COMMENT_TREE_DEPTH`], marks a broken storage invariant and is
/// refused as a critical error; it is never a partial result.
pub fn build_comments_tree(
    comments: Vec<(Comment, u32)>,
    rates: Vec<RateState>,
    can_view_deleted: bool,
) -> (r: Result<Vec<GetCommentsTreeItem>, AppError>)
    ensures
        r is Ok <==> (comments@.len() == rates@.len() && depth_ok(
            comments@,
            None::<CommentId>,
            MAX_COMMENT_TREE_DEPTH as nat,
        )),
        r matches Ok(f) ==> children_views(f@) == spec_forest(
            comments@,
            rates@,
            can_view_deleted,
            None::<CommentId>,
            MAX_COMMENT_TREE_DEPTH as nat,
        ),
        r matches Err(e) ==> e is Critical,
{
    if comments.len() != rates.len() {
        return Err(AppError::Critical(String::from_str("comment and rating counts differ")));
    }
    match build_forest(&comments, &rates, can_view_deleted, None, MAX_COMMENT_TREE_DEPTH) {
        Ok(f) => Ok(f),
        Err(()) => Err(
            AppError::Critical(String::from_str("comment nesting outruns the depth bound")),
        ),
    }
}

/// The ids of the built nodes of a forest, in forest order.
pub open spec fn forest_ids(f: Seq<TreeItemView>) -> Seq<CommentId> {
    f.map_values(|n: TreeItemView| n.id)
}

/// The ids of the input rows at `i` and after that name `pid` as parent, in
/// input order.
pub open spec fn bucket_ids_from(cs: Seq<(Comment, u32)>, pid: Option<CommentId>, i: int) -> Seq<
    CommentId,
>
    decreases cs.len() - i,
{
    if i < 0 || i >= cs.len() {
        Seq::empty()
    } else if cs[i].0.parent_id == pid {
        seq![cs[i].0.id] + bucket_ids_from(cs, pid, i + 1)
    } else {
        bucket_ids_from(cs, pid, i + 1)
    }
}

proof fn lemma_siblings_from(
    cs: Seq<(Comment, u32)>,
    rs: Seq<RateState>,
    can_view_deleted: bool,
    pid: Option<CommentId>,
    i: int,
    fuel: nat,
)
    requires
        0 <= i,
    ensures
        forest_ids(spec_forest_from(cs, rs, can_view_deleted, pid, i, fuel)) == bucket_ids_from(
            cs,
            pid,
            i,
        ),
    decreases cs.len() - i,
{
    if i >= cs.len() {
        assert(forest_ids(Seq::<TreeItemView>::empty()) =~= Seq::<CommentId>::empty());
    } else {
        lemma_siblings_from(cs, rs, can_view_deleted, pid, i + 1, fuel);
        let rest = spec_forest_from(cs, rs, can_view_deleted, pid, i + 1, fuel);
        if cs[i].0.parent_id == pid {
            let kids = if fuel == 0 {
                Seq::<TreeItemView>::empty()
            } else {
                spec_forest_from(cs, rs, can_view_deleted, Some(cs[i].0.id), 0, (fuel - 1) as nat)
            };
            let node = spec_node(cs[i].0, cs[i].1, rs[i], can_view_deleted, kids);
            assert(forest_ids(seq![node] + rest) =~= seq![cs[i].0.id] + forest_ids(rest));
        }
    }
}

/// Law: the builder keeps sibling order. Under any parent, the built nodes
/// are exactly the input rows naming that parent, in the order the input
/// delivered them — the builder drops none of them and never reorders,
/// whatever the fuel.
pub proof fn lemma_siblings_keep_input_order(
    cs: Seq<(Comment, u32)>,
    rs: Seq<RateState>,
    can_view_deleted: bool,
    pid: Option<CommentId>,
    fuel: nat,
)
    ensures
        forest_ids(spec_forest(cs, rs, can_view_deleted, pid, fuel)) == bucket_ids_from(
            cs,
            pid,
            0,
        ),
{
    lemma_siblings_from(cs, rs, can_view_deleted, pid, 0, fuel);
}

} // verus!
