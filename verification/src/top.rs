use vstd::prelude::*;
use partial_sort::PartialSort;

use crate::action::ActionType;
use crate::post::Post;

verus! {

broadcast use vstd::seq_lib::group_to_multiset_ensures, vstd::multiset::group_multiset_axioms;

/// The best posts of a period for each of the four measures, best first.
pub struct TopPost {
    pub top_count: usize,
    pub replies: Vec<Post>,
    pub reactions: Vec<Post>,
    pub forwards: Vec<Post>,
    pub views: Vec<Post>,
}

/// `s` is ordered by decreasing rank for `action`.
pub open spec fn ranked_desc(s: Seq<Post>, action: ActionType) -> bool {
    forall|i: int, j: int| 0 <= i < j < s.len() ==> s[i].rank_of(action) >= s[j].rank_of(action)
}

/// No post of `rest` ranks above a post of `chosen` for `action`.
pub open spec fn dominates(chosen: Seq<Post>, rest: Seq<Post>, action: ActionType) -> bool {
    forall|i: int, j: int| 0 <= i < chosen.len() && 0 <= j < rest.len()
        ==> chosen[i].rank_of(action) >= rest[j].rank_of(action)
}

/// `top` is a choice of the best `top.len()` posts of `all` for `action`:
/// it is taken from `all` (with multiplicity), ordered best first, and
/// every post of `all` left out ranks at most as high as each chosen one.
pub open spec fn is_top_selection(top: Seq<Post>, all: Seq<Post>, action: ActionType) -> bool {
    &&& top.to_multiset().subset_of(all.to_multiset())
    &&& ranked_desc(top, action)
    &&& forall|p: Post, i: int| #![trigger all.to_multiset().sub(top.to_multiset()).count(p), top[i]]
            all.to_multiset().sub(top.to_multiset()).count(p) > 0 && 0 <= i < top.len()
            ==> top[i].rank_of(action) >= p.rank_of(action)
}

/// The first `k` posts of `s`.
pub open spec fn front(s: Seq<Post>, k: usize) -> Seq<Post> {
    s.subrange(0, k as int)
}

/// The posts of `s` from position `k` on.
pub open spec fn back(s: Seq<Post>, k: usize) -> Seq<Post> {
    s.subrange(k as int, s.len() as int)
}

/// Rearranges `posts` with `partial_sort::PartialSort::partial_sort`, comparing
/// by `Post::compare_by_count_desc`. The crate documents that the call puts the
/// smallest `last` elements under the comparator, in ascending order, at the
/// front; here that is the `last` best posts, best first. The posts are only
/// moved about, and the call panics when `last` exceeds the length. Which of
/// several posts of equal rank reach the front is not stated.
#[verifier::external_body]
fn partial_sort_by_count(posts: &mut Vec<Post>, last: usize, action: ActionType)
    requires
        last <= old(posts)@.len(),
    ensures
        final(posts)@.len() == old(posts)@.len(),
        final(posts)@.to_multiset() == old(posts)@.to_multiset(),
        ranked_desc(front(final(posts)@, last), action),
        dominates(front(final(posts)@, last), back(final(posts)@, last), action),
{
    posts.partial_sort(last, |a, b| Post::compare_by_count_desc(a, b, action));
}

/// A sequence split at `k` gives a top selection by its prefix when the
/// prefix is ordered and dominates the suffix.
proof fn lemma_prefix_is_top(s: Seq<Post>, k: usize, action: ActionType)
    requires
        k <= s.len(),
        ranked_desc(front(s, k), action),
        dominates(front(s, k), back(s, k), action),
    ensures
        is_top_selection(front(s, k), s, action),
{
    let top = front(s, k);
    let rest = back(s, k);
    assert(s =~= top + rest);
    vstd::seq_lib::lemma_multiset_commutative(top, rest);
    assert(s.to_multiset() =~= top.to_multiset().add(rest.to_multiset()));
    assert(s.to_multiset().sub(top.to_multiset()) =~= rest.to_multiset());
    assert forall|p: Post, i: int|
        s.to_multiset().sub(top.to_multiset()).count(p) > 0 && 0 <= i < top.len()
        implies top[i].rank_of(action) >= p.rank_of(action) by {
        assert(rest.to_multiset().count(p) > 0);
        assert(rest.contains(p));
        let j = choose|j: int| 0 <= j < rest.len() && rest[j] == p;
        assert(top[i].rank_of(action) >= rest[j].rank_of(action));
    }
}

impl TopPost {
    /// Moves the `top_count` best posts for `action` to the front of `posts`,
    /// best first, and returns a copy of them.
    pub fn get_top_by(top_count: usize, posts: &mut Vec<Post>, action: ActionType) -> (r: Vec<Post>)
        requires
            old(posts)@.len() >= top_count,
        ensures
            r@.len() == top_count,
            final(posts)@.len() == old(posts)@.len(),
            final(posts)@.to_multiset() == old(posts)@.to_multiset(),
            r@ == final(posts)@.subrange(0, top_count as int),
            is_top_selection(r@, old(posts)@, action),
    {
        partial_sort_by_count(posts, top_count, action);
        proof {
            lemma_prefix_is_top(posts@, top_count, action);
        }
        let mut r: Vec<Post> = Vec::new();
        let mut i: usize = 0;
        while i < top_count
            invariant
                i <= top_count <= posts@.len(),
                r@ == posts@.subrange(0, i as int),
            decreases top_count - i,
        {
            r.push(posts[i]);
            i = i + 1;
        }
        r
    }
}

impl TopPost {
    /// The list kept for one measure.
    pub open spec fn list_of(self, action: ActionType) -> Seq<Post> {
        match action {
            ActionType::Replies => self.replies@,
            ActionType::Reactions => self.reactions@,
            ActionType::Forwards => self.forwards@,
            ActionType::Views => self.views@,
        }
    }

    /// Every list holds exactly `top_count` posts.
    pub open spec fn wf(self) -> bool {
        &&& self.replies@.len() == self.top_count
        &&& self.reactions@.len() == self.top_count
        &&& self.forwards@.len() == self.top_count
        &&& self.views@.len() == self.top_count
    }

    /// Picks the `top_count` best posts for each measure in turn, rearranging
    /// `posts` as it goes.
    pub fn get_top(top_count: usize, posts: &mut Vec<Post>) -> (r: TopPost)
        requires
            old(posts)@.len() >= top_count,
        ensures
            r.top_count == top_count,
            r.wf(),
            final(posts)@.len() == old(posts)@.len(),
            final(posts)@.to_multiset() == old(posts)@.to_multiset(),
            final(posts)@.subrange(0, top_count as int) == r.views@,
            is_top_selection(r.replies@, old(posts)@, ActionType::Replies),
            is_top_selection(r.reactions@, old(posts)@, ActionType::Reactions),
            is_top_selection(r.forwards@, old(posts)@, ActionType::Forwards),
            is_top_selection(r.views@, old(posts)@, ActionType::Views),
    {
        let replies = Self::get_top_by(top_count, posts, ActionType::Replies);
        let reactions = Self::get_top_by(top_count, posts, ActionType::Reactions);
        let forwards = Self::get_top_by(top_count, posts, ActionType::Forwards);
        let views = Self::get_top_by(top_count, posts, ActionType::Views);
        TopPost { top_count, replies, reactions, forwards, views }
    }

    /// Whether every list holds exactly `top_count` posts.
    pub fn is_well_formed(&self) -> (r: bool)
        ensures
            r == self.wf(),
    {
        self.replies.len() == self.top_count && self.reactions.len() == self.top_count
            && self.forwards.len() == self.top_count && self.views.len() == self.top_count
    }

    pub fn index(&self, index: ActionType) -> (r: &Vec<Post>)
        ensures
            r@ == self.list_of(index),
            index == ActionType::Replies ==> r@ == self.replies@,
            index == ActionType::Reactions ==> r@ == self.reactions@,
            index == ActionType::Forwards ==> r@ == self.forwards@,
            index == ActionType::Views ==> r@ == self.views@,
    {
        match index {
            ActionType::Replies => &self.replies,
            ActionType::Reactions => &self.reactions,
            ActionType::Forwards => &self.forwards,
            ActionType::Views => &self.views,
        }
    }
}

} // verus!
