use vstd::prelude::*;

use crate::action::{ActionType, ACTION_COUNT};
use crate::icon::{icon_url, icon_url_text};
use crate::post::Post;
use crate::top::TopPost;

verus! {

/// What a card shows: one post and its counter for a measure.
pub struct Card {
    pub id: i32,
    pub count: Option<i32>,
    pub header: String,
    pub icon: String,
    pub filter: String,
}

/// A section of the digest page: a titled list of cards.
pub struct Block {
    pub header: String,
    pub icon: String,
    pub filter: String,
    pub cards: Option<Vec<Card>>,
}

/// The contents of a card.
pub struct CardView {
    pub id: i32,
    pub count: Option<i32>,
    pub header: Seq<char>,
    pub icon: Seq<char>,
    pub filter: Seq<char>,
}

/// The contents of a block.
pub struct BlockView {
    pub header: Seq<char>,
    pub icon: Seq<char>,
    pub filter: Seq<char>,
    pub cards: Option<Seq<CardView>>,
}

impl View for Card {
    type V = CardView;

    open spec fn view(&self) -> CardView {
        CardView {
            id: self.id,
            count: self.count,
            header: self.header@,
            icon: self.icon@,
            filter: self.filter@,
        }
    }
}

/// The contents of a sequence of cards.
pub open spec fn cards_view(cards: Seq<Card>) -> Seq<CardView> {
    cards.map_values(|c: Card| c@)
}

impl View for Block {
    type V = BlockView;

    open spec fn view(&self) -> BlockView {
        BlockView {
            header: self.header@,
            icon: self.icon@,
            filter: self.filter@,
            cards: match self.cards {
                Some(v) => Some(cards_view(v@)),
                None => None,
            },
        }
    }
}

/// The contents of a sequence of blocks.
pub open spec fn blocks_view(blocks: Seq<Block>) -> Seq<BlockView> {
    blocks.map_values(|b: Block| b@)
}

/// The warning sign used where no icon was chosen.
pub open spec fn warning_icon() -> Seq<char> {
    "\u{26a0}\u{fe0f}"@
}

/// A card that has not been filled in.
pub open spec fn default_card() -> CardView {
    CardView {
        id: -1i32,
        count: None,
        header: "UNDEFINED"@,
        icon: icon_url_text(warning_icon()),
        filter: ""@,
    }
}

/// The card of a post for a measure, otherwise left as by default.
pub open spec fn card_of(post: Post, action: ActionType) -> CardView {
    CardView { id: post.id, count: post.count_of(action), ..default_card() }
}

/// The cards of the posts that have a counter for `action`, in their order.
pub open spec fn counted_cards(posts: Seq<Post>, action: ActionType) -> Seq<CardView>
    decreases posts.len(),
{
    if posts.len() == 0 {
        seq![]
    } else {
        counted_cards(posts.drop_last(), action) + if posts.last().count_of(action) is Some {
            seq![card_of(posts.last(), action)]
        } else {
            seq![]
        }
    }
}

/// The emoji that marks a measure.
pub open spec fn action_icon(action: ActionType) -> Seq<char> {
    match action {
        ActionType::Replies => "\u{1f4ac}"@,
        ActionType::Reactions => "\u{1f44f}"@,
        ActionType::Forwards => "\u{1f501}"@,
        ActionType::Views => "\u{1f441}\u{fe0f}"@,
    }
}

/// The style class of a measure's cards: forwards and views are tinted blue.
pub open spec fn action_filter(action: ActionType) -> Seq<char> {
    match action {
        ActionType::Replies => ""@,
        ActionType::Reactions => ""@,
        ActionType::Forwards => "filter-blue"@,
        ActionType::Views => "filter-blue"@,
    }
}

/// The title of a measure's block in the digest.
pub open spec fn digest_title(action: ActionType) -> Seq<char> {
    match action {
        ActionType::Replies => "По комментариям"@,
        ActionType::Reactions => "По реакциям"@,
        ActionType::Forwards => "По репостам"@,
        ActionType::Views => "По просмотрам"@,
    }
}

/// The title of a measure's card among the best posts.
pub open spec fn best_title(action: ActionType) -> Seq<char> {
    match action {
        ActionType::Replies => "Лучший по комментариям"@,
        ActionType::Reactions => "Лучший по реакциям"@,
        ActionType::Forwards => "Лучший по репостам"@,
        ActionType::Views => "Лучший по просмотрам"@,
    }
}

fn icon_of(action: ActionType) -> (r: &'static str)
    ensures
        r@ == action_icon(action),
{
    match action {
        ActionType::Replies => "\u{1f4ac}",
        ActionType::Reactions => "\u{1f44f}",
        ActionType::Forwards => "\u{1f501}",
        ActionType::Views => "\u{1f441}\u{fe0f}",
    }
}

fn filter_of(action: ActionType) -> (r: &'static str)
    ensures
        r@ == action_filter(action),
{
    match action {
        ActionType::Replies => "",
        ActionType::Reactions => "",
        ActionType::Forwards => "filter-blue",
        ActionType::Views => "filter-blue",
    }
}

fn digest_title_of(action: ActionType) -> (r: &'static str)
    ensures
        r@ == digest_title(action),
{
    match action {
        ActionType::Replies => "По комментариям",
        ActionType::Reactions => "По реакциям",
        ActionType::Forwards => "По репостам",
        ActionType::Views => "По просмотрам",
    }
}

fn best_title_of(action: ActionType) -> (r: &'static str)
    ensures
        r@ == best_title(action),
{
    match action {
        ActionType::Replies => "Лучший по комментариям",
        ActionType::Reactions => "Лучший по реакциям",
        ActionType::Forwards => "Лучший по репостам",
        ActionType::Views => "Лучший по просмотрам",
    }
}

impl Card {
    pub fn default() -> (r: Card)
        ensures
            r@ == default_card(),
    {
        Card {
            id: -1,
            count: None,
            header: String::from_str("UNDEFINED"),
            icon: icon_url("\u{26a0}\u{fe0f}"),
            filter: String::from_str(""),
        }
    }

    pub fn create_card(post: &Post, action: ActionType) -> (r: Card)
        ensures
            r@ == card_of(*post, action),
    {
        let d = Card::default();
        Card { id: post.id, count: post.count(action), header: d.header, icon: d.icon, filter: d.filter }
    }

    /// The cards of the posts that have a counter for `action`, or `None`
    /// when no post has one.
    pub fn create_cards(posts: &Vec<Post>, action: ActionType) -> (r: Option<Vec<Card>>)
        ensures
            match r {
                Some(cards) => counted_cards(posts@, action).len() > 0
                    && cards_view(cards@) == counted_cards(posts@, action),
                None => counted_cards(posts@, action).len() == 0,
            },
    {
        let mut cards: Vec<Card> = Vec::new();
        let mut i: usize = 0;
        while i < posts.len()
            invariant
                i <= posts@.len(),
                cards_view(cards@) == counted_cards(posts@.take(i as int), action),
            decreases posts@.len() - i,
        {
            let card = Card::create_card(&posts[i], action);
            let ghost before = cards@;
            assert(posts@.take(i + 1).drop_last() =~= posts@.take(i as int));
            if card.count.is_some() {
                cards.push(card);
                assert(cards_view(cards@) =~= cards_view(before) + seq![card_of(posts@[i as int], action)]);
            }
            i = i + 1;
        }
        assert(posts@.take(posts@.len() as int) =~= posts@);
        if cards.len() > 0 {
            Some(cards)
        } else {
            None
        }
    }
}

/// A block that has not been filled in.
pub open spec fn default_block() -> BlockView {
    BlockView {
        header: "UNDEFINED"@,
        icon: icon_url_text(warning_icon()),
        filter: ""@,
        cards: None,
    }
}

/// The digest block of a measure, whose cards are those of its counted posts.
pub open spec fn digest_block(top: TopPost, action: ActionType) -> BlockView {
    let counted = counted_cards(top.list_of(action), action);
    BlockView {
        header: digest_title(action),
        icon: icon_url_text(action_icon(action)),
        filter: action_filter(action),
        cards: if counted.len() > 0 { Some(counted) } else { None },
    }
}

/// The digest blocks of the first `n` measures that have a counted post.
pub open spec fn digest_blocks(top: TopPost, n: nat) -> Seq<BlockView>
    decreases n,
{
    if n == 0 {
        seq![]
    } else {
        let action = ActionType::at_position((n - 1) as nat);
        digest_blocks(top, (n - 1) as nat) + if counted_cards(top.list_of(action), action).len() > 0 {
            seq![digest_block(top, action)]
        } else {
            seq![]
        }
    }
}

impl Block {
    pub fn default() -> (r: Block)
        ensures
            r@ == default_block(),
    {
        Block {
            header: String::from_str("UNDEFINED"),
            icon: icon_url("\u{26a0}\u{fe0f}"),
            filter: String::from_str(""),
            cards: None,
        }
    }

    /// The block of one measure in the digest.
    pub fn for_digest(post_top: &TopPost, action: ActionType) -> (r: Block)
        ensures
            r@ == digest_block(*post_top, action),
    {
        let cards = Card::create_cards(post_top.index(action), action);
        Block {
            header: String::from_str(digest_title_of(action)),
            icon: icon_url(icon_of(action)),
            filter: String::from_str(filter_of(action)),
            cards,
        }
    }

    /// The blocks of the digest page, one per measure in the order replies,
    /// reactions, forwards, views, leaving out each measure none of whose
    /// best posts has a counter.
    pub fn digest(post_top: &TopPost) -> (r: Vec<Block>)
        ensures
            blocks_view(r@) == digest_blocks(*post_top, ACTION_COUNT as nat),
    {
        let mut blocks: Vec<Block> = Vec::new();
        let mut index: usize = 0;
        while index < ACTION_COUNT
            invariant
                index <= ACTION_COUNT,
                blocks_view(blocks@) == digest_blocks(*post_top, index as nat),
            decreases ACTION_COUNT - index,
        {
            let action = ActionType::from(index);
            let block = Block::for_digest(post_top, action);
            let ghost before = blocks@;
            if block.cards.is_some() {
                blocks.push(block);
                assert(blocks_view(blocks@) =~= blocks_view(before) + seq![digest_block(*post_top, action)]);
            }
            index = index + 1;
        }
        blocks
    }
}

/// Which of the best posts (counted from 1) to put on each measure's card.
#[derive(Clone, Copy, Debug, PartialEq, Eq, Structural)]
pub struct CardPicks {
    pub replies: usize,
    pub reactions: usize,
    pub forwards: usize,
    pub views: usize,
}

impl CardPicks {
    /// The place chosen for one measure.
    pub open spec fn pick_of(self, action: ActionType) -> usize {
        match action {
            ActionType::Replies => self.replies,
            ActionType::Reactions => self.reactions,
            ActionType::Forwards => self.forwards,
            ActionType::Views => self.views,
        }
    }

    /// Every place lies between 1 and the length of its measure's list
    /// (which, for a top made by `TopPost::get_top`, is `top_count`).
    pub open spec fn fits(self, top: TopPost) -> bool {
        forall|a: ActionType| 1 <= #[trigger] self.pick_of(a) <= top.list_of(a).len()
    }

    /// Whether every place lies within its measure's list.
    pub fn fits_in(&self, post_top: &TopPost) -> (r: bool)
        ensures
            r == self.fits(*post_top),
    {
        let ok = 1 <= self.replies && self.replies <= post_top.replies.len()
            && 1 <= self.reactions && self.reactions <= post_top.reactions.len()
            && 1 <= self.forwards && self.forwards <= post_top.forwards.len()
            && 1 <= self.views && self.views <= post_top.views.len();
        proof {
            if ok {
                assert forall|a: ActionType| 1 <= #[trigger] self.pick_of(a) <= post_top.list_of(a).len() by {
                    match a {
                        ActionType::Replies => {},
                        ActionType::Reactions => {},
                        ActionType::Forwards => {},
                        ActionType::Views => {},
                    }
                }
            } else {
                if self.fits(*post_top) {
                    assert(1 <= self.pick_of(ActionType::Replies) <= post_top.list_of(ActionType::Replies).len());
                    assert(1 <= self.pick_of(ActionType::Reactions) <= post_top.list_of(ActionType::Reactions).len());
                    assert(1 <= self.pick_of(ActionType::Forwards) <= post_top.list_of(ActionType::Forwards).len());
                    assert(1 <= self.pick_of(ActionType::Views) <= post_top.list_of(ActionType::Views).len());
                }
            }
        }
        ok
    }

    pub fn pick(&self, action: ActionType) -> (r: usize)
        ensures
            r == self.pick_of(action),
    {
        match action {
            ActionType::Replies => self.replies,
            ActionType::Reactions => self.reactions,
            ActionType::Forwards => self.forwards,
            ActionType::Views => self.views,
        }
    }
}

/// The card for the post picked for a measure.
pub open spec fn best_card(top: TopPost, picks: CardPicks, action: ActionType) -> CardView {
    let post = top.list_of(action)[picks.pick_of(action) - 1];
    CardView {
        id: post.id,
        count: post.count_of(action),
        header: best_title(action),
        icon: icon_url_text(action_icon(action)),
        filter: action_filter(action),
    }
}

/// The cards of the posts picked for the first `n` measures that have a counter.
pub open spec fn best_cards(top: TopPost, picks: CardPicks, n: nat) -> Seq<CardView>
    decreases n,
{
    if n == 0 {
        seq![]
    } else {
        let action = ActionType::at_position((n - 1) as nat);
        best_cards(top, picks, (n - 1) as nat) + if best_card(top, picks, action).count is Some {
            seq![best_card(top, picks, action)]
        } else {
            seq![]
        }
    }
}

impl Card {
    /// The card for the post picked for one measure.
    pub fn best_for(post_top: &TopPost, picks: &CardPicks, action: ActionType) -> (r: Card)
        requires
            picks.fits(*post_top),
        ensures
            r@ == best_card(*post_top, *picks, action),
    {
        let posts = post_top.index(action);
        let post = &posts[picks.pick(action) - 1];
        Card {
            id: post.id,
            count: post.count(action),
            header: String::from_str(best_title_of(action)),
            icon: icon_url(icon_of(action)),
            filter: String::from_str(filter_of(action)),
        }
    }

    /// The cards of the posts picked for rendering, one per measure in the
    /// order replies, reactions, forwards, views, leaving out a card whose
    /// post has no counter.
    pub fn best_of(post_top: &TopPost, picks: &CardPicks) -> (r: Vec<Card>)
        requires
            picks.fits(*post_top),
        ensures
            cards_view(r@) == best_cards(*post_top, *picks, ACTION_COUNT as nat),
    {
        let mut cards: Vec<Card> = Vec::new();
        let mut index: usize = 0;
        while index < ACTION_COUNT
            invariant
                index <= ACTION_COUNT,
                picks.fits(*post_top),
                cards_view(cards@) == best_cards(*post_top, *picks, index as nat),
            decreases ACTION_COUNT - index,
        {
            let action = ActionType::from(index);
            let card = Card::best_for(post_top, picks, action);
            let ghost before = cards@;
            if card.count.is_some() {
                cards.push(card);
                assert(cards_view(cards@) =~= cards_view(before) + seq![best_card(*post_top, *picks, action)]);
            }
            index = index + 1;
        }
        cards
    }
}

/// Every card made from a list of posts shows a counter, and there is one
/// card per post with a counter.
pub proof fn lemma_counted_cards_have_counts(posts: Seq<Post>, action: ActionType)
    ensures
        forall|i: int| 0 <= i < counted_cards(posts, action).len()
            ==> #[trigger] counted_cards(posts, action)[i].count is Some,
        counted_cards(posts, action).len() <= posts.len(),
        counted_cards(posts, action).len() == 0
            <==> forall|j: int| 0 <= j < posts.len() ==> #[trigger] posts[j].count_of(action) is None,
    decreases posts.len(),
{
    if posts.len() > 0 {
        let init = posts.drop_last();
        lemma_counted_cards_have_counts(init, action);
        if counted_cards(posts, action).len() == 0 {
            assert forall|j: int| 0 <= j < posts.len() implies #[trigger] posts[j].count_of(action) is None by {
                if j < posts.len() - 1 {
                    assert(posts[j] == init[j]);
                }
            }
        }
        if forall|j: int| 0 <= j < posts.len() ==> #[trigger] posts[j].count_of(action) is None {
            assert forall|j: int| 0 <= j < init.len() implies #[trigger] init[j].count_of(action) is None by {
                assert(init[j] == posts[j]);
            }
            assert(posts[posts.len() - 1].count_of(action) is None);
        }
    }
}

/// Every block of the digest holds at least one card, and every card in it
/// shows a counter.
pub proof fn lemma_digest_blocks_have_cards(top: TopPost, n: nat)
    ensures
        forall|i: int| 0 <= i < digest_blocks(top, n).len() ==> {
            &&& #[trigger] digest_blocks(top, n)[i].cards is Some
            &&& digest_blocks(top, n)[i].cards->0.len() > 0
            &&& forall|k: int| 0 <= k < digest_blocks(top, n)[i].cards->0.len()
                ==> (#[trigger] digest_blocks(top, n)[i].cards->0[k]).count is Some
        },
        digest_blocks(top, n).len() <= n,
    decreases n,
{
    if n > 0 {
        lemma_digest_blocks_have_cards(top, (n - 1) as nat);
        let action = ActionType::at_position((n - 1) as nat);
        lemma_counted_cards_have_counts(top.list_of(action), action);
        let prev = digest_blocks(top, (n - 1) as nat);
        assert forall|i: int| 0 <= i < digest_blocks(top, n).len() implies {
            &&& #[trigger] digest_blocks(top, n)[i].cards is Some
            &&& digest_blocks(top, n)[i].cards->0.len() > 0
            &&& forall|k: int| 0 <= k < digest_blocks(top, n)[i].cards->0.len()
                ==> (#[trigger] digest_blocks(top, n)[i].cards->0[k]).count is Some
        } by {
            if i < prev.len() {
                assert(digest_blocks(top, n)[i] == prev[i]);
            } else {
                assert(digest_blocks(top, n)[i] == digest_block(top, action));
            }
        }
    }
}

/// Every card among the best ones shows a counter, and there is at most one
/// card per measure.
pub proof fn lemma_best_cards_have_counts(top: TopPost, picks: CardPicks, n: nat)
    ensures
        forall|i: int| 0 <= i < best_cards(top, picks, n).len()
            ==> (#[trigger] best_cards(top, picks, n)[i]).count is Some,
        best_cards(top, picks, n).len() <= n,
    decreases n,
{
    if n > 0 {
        lemma_best_cards_have_counts(top, picks, (n - 1) as nat);
        let prev = best_cards(top, picks, (n - 1) as nat);
        assert forall|i: int| 0 <= i < best_cards(top, picks, n).len()
            implies (#[trigger] best_cards(top, picks, n)[i]).count is Some by {
            if i < prev.len() {
                assert(best_cards(top, picks, n)[i] == prev[i]);
            }
        }
    }
}

} // verus!
