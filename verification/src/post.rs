use vstd::prelude::*;
use std::cmp::Ordering;

use crate::action::ActionType;
use crate::period::Moment;

verus! {

/// One post of the channel with its counters; a counter that Telegram did
/// not report is `None`.
#[derive(Clone, Copy, Debug, PartialEq, Eq, Structural)]
pub struct Post {
    /// Publication time, seconds since the Unix epoch.
    pub date: i64,
    pub id: i32,
    pub views: Option<i32>,
    pub forwards: Option<i32>,
    pub replies: Option<i32>,
    pub reactions: Option<i32>,
}

/// Where an optional counter stands in the order of `Option<i32>`:
/// a missing counter is below every reported one.
pub open spec fn rank(count: Option<i32>) -> int {
    match count {
        Some(v) => v as int,
        None => i32::MIN - 1,
    }
}

impl Post {
    /// The counter of the post for one measure.
    pub open spec fn count_of(self, action: ActionType) -> Option<i32> {
        match action {
            ActionType::Replies => self.replies,
            ActionType::Reactions => self.reactions,
            ActionType::Forwards => self.forwards,
            ActionType::Views => self.views,
        }
    }

    /// Rank of the post for one measure.
    pub open spec fn rank_of(self, action: ActionType) -> int {
        rank(self.count_of(action))
    }

    /// The moment at which the post was published (whole seconds).
    pub open spec fn moment(self) -> Moment {
        Moment { secs: self.date, nanos: 0 }
    }

    /// Whether the post was published within `[from, to]`.
    pub open spec fn in_period(self, from: Moment, to: Moment) -> bool {
        !self.moment().is_after(to) && !self.moment().is_before(from)
    }

    pub fn count(&self, index: ActionType) -> (r: Option<i32>)
        ensures
            r == self.count_of(index),
    {
        match index {
            ActionType::Replies => self.replies,
            ActionType::Reactions => self.reactions,
            ActionType::Forwards => self.forwards,
            ActionType::Views => self.views,
        }
    }

    /// Orders two posts by decreasing counter for `action`: `Less` when `a`
    /// has the larger counter, a missing counter being the smallest.
    pub fn compare_by_count_desc(a: &Post, b: &Post, action: ActionType) -> (r: Ordering)
        ensures
            (r == Ordering::Less) <==> a.rank_of(action) > b.rank_of(action),
            (r == Ordering::Equal) <==> a.rank_of(action) == b.rank_of(action),
            (r == Ordering::Greater) <==> a.rank_of(action) < b.rank_of(action),
    {
        match (b.count(action), a.count(action)) {
            (None, None) => Ordering::Equal,
            (None, Some(_)) => Ordering::Less,
            (Some(_), None) => Ordering::Greater,
            (Some(x), Some(y)) => {
                if x < y {
                    Ordering::Less
                } else if x == y {
                    Ordering::Equal
                } else {
                    Ordering::Greater
                }
            },
        }
    }

    /// One step of reading the channel's history from the newest message back:
    /// a post later than `to` is skipped, a post earlier than `from` ends the
    /// reading (the result is `false`), any other post is appended.
    pub fn take_if_in_period(posts: &mut Vec<Post>, post: Post, from: Moment, to: Moment) -> (go_on: bool)
        ensures
            go_on <==> (!post.moment().is_before(from) || post.moment().is_after(to)),
            post.in_period(from, to) ==> final(posts)@ == old(posts)@.push(post),
            !post.in_period(from, to) ==> final(posts)@ == old(posts)@,
            (forall|i: int| 0 <= i < old(posts)@.len() ==> #[trigger] old(posts)@[i].in_period(from, to))
                ==> (forall|i: int| 0 <= i < final(posts)@.len() ==> #[trigger] final(posts)@[i].in_period(from, to)),
    {
        let date = Moment { secs: post.date, nanos: 0 };
        if date.after(&to) {
            return true;
        }
        if date.before(&from) {
            return false;
        }
        posts.push(post);
        true
    }
}

} // verus!
