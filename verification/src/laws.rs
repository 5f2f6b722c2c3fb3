use vstd::prelude::*;

use crate::action::ActionType;
use crate::card::{best_cards, counted_cards, digest_blocks, BlockView, CardPicks, CardView};
use crate::icon::icon_url_text;
use crate::post::Post;
use crate::report::{entry_lines, report_lines, ReportLine};
use crate::top::TopPost;

verus! {

/// Each measure reads its own counter of a post.
pub proof fn lemma_counts_by_measure(p: Post)
    ensures
        p.count_of(ActionType::Replies) == p.replies,
        p.count_of(ActionType::Reactions) == p.reactions,
        p.count_of(ActionType::Forwards) == p.forwards,
        p.count_of(ActionType::Views) == p.views,
{
}

/// Each measure is served by the list ranked by that measure.
pub proof fn lemma_lists_by_measure(top: TopPost)
    ensures
        top.list_of(ActionType::Replies) == top.replies@,
        top.list_of(ActionType::Reactions) == top.reactions@,
        top.list_of(ActionType::Forwards) == top.forwards@,
        top.list_of(ActionType::Views) == top.views@,
{
}

/// The first `k` posts of `list` have a counter, and the post at `k`, if
/// any, has none.
pub open spec fn leads(list: Seq<Post>, count: spec_fn(Post) -> Option<i32>, k: nat) -> bool {
    &&& k <= list.len()
    &&& forall|j: int| 0 <= j < k ==> (#[trigger] count(list[j])) is Some
    &&& k < list.len() ==> count(list[k as int]) is None
}

/// A printed section: the header, an entry with its place, id, counter and
/// date for each of the first `k` posts, "No data" when a post without a
/// counter follows them, and a blank line.
pub open spec fn printed_section(
    action: ActionType,
    top_count: usize,
    list: Seq<Post>,
    count: spec_fn(Post) -> Option<i32>,
    k: nat,
) -> Seq<ReportLine> {
    seq![ReportLine::Header { action, top_count }] + Seq::new(
        k,
        |j: int|
            ReportLine::Entry {
                position: (j + 1) as usize,
                id: list[j].id,
                count: count(list[j]).unwrap(),
                date: list[j].date,
            },
    ) + (if k < list.len() {
        seq![ReportLine::NoData]
    } else {
        seq![]
    }) + seq![ReportLine::Blank]
}

proof fn lemma_entries(
    list: Seq<Post>,
    action: ActionType,
    count: spec_fn(Post) -> Option<i32>,
    start: nat,
    k: nat,
)
    requires
        leads(list, count, k),
        forall|p: Post| #[trigger] p.count_of(action) == count(p),
    ensures
        entry_lines(list, action, start) == Seq::new(
            k,
            |j: int|
                ReportLine::Entry {
                    position: (start + j + 1) as usize,
                    id: list[j].id,
                    count: count(list[j]).unwrap(),
                    date: list[j].date,
                },
        ) + (if k < list.len() {
            seq![ReportLine::NoData]
        } else {
            seq![]
        }),
    decreases list.len(),
{
    let rhs = Seq::new(
        k,
        |j: int|
            ReportLine::Entry {
                position: (start + j + 1) as usize,
                id: list[j].id,
                count: count(list[j]).unwrap(),
                date: list[j].date,
            },
    ) + (if k < list.len() {
        seq![ReportLine::NoData]
    } else {
        seq![]
    });
    if list.len() == 0 {
        assert(rhs =~= Seq::<ReportLine>::empty());
    } else if k == 0 {
        assert(list[0].count_of(action) == count(list[0]));
        assert(rhs =~= seq![ReportLine::NoData]);
    } else {
        let rest = list.drop_first();
        assert(count(list[0]) is Some);
        assert(list[0].count_of(action) == count(list[0]));
        assert(leads(rest, count, (k - 1) as nat)) by {
            assert forall|j: int| 0 <= j < k - 1 implies (#[trigger] count(rest[j])) is Some by {
                assert(rest[j] == list[j + 1]);
                assert(count(list[j + 1]) is Some);
            }
            if k - 1 < rest.len() {
                assert(rest[k - 1] == list[k as int]);
            }
        }
        lemma_entries(rest, action, count, start + 1, (k - 1) as nat);
        let tail = Seq::new(
            (k - 1) as nat,
            |j: int|
                ReportLine::Entry {
                    position: ((start + 1) + j + 1) as usize,
                    id: rest[j].id,
                    count: count(rest[j]).unwrap(),
                    date: rest[j].date,
                },
        );
        let first = ReportLine::Entry {
            position: (start + 1) as usize,
            id: list[0].id,
            count: count(list[0]).unwrap(),
            date: list[0].date,
        };
        assert(Seq::new(
            k,
            |j: int|
                ReportLine::Entry {
                    position: (start + j + 1) as usize,
                    id: list[j].id,
                    count: count(list[j]).unwrap(),
                    date: list[j].date,
                },
        ) =~= seq![first] + tail);
        assert(entry_lines(list, action, start) =~= rhs);
    }
}

/// The console summary, in terms of the four lists and the counters they are
/// ranked by: for replies, reactions, forwards and views in turn, a header,
/// one entry per post (a zero counter included) up to the first post without
/// a counter, "No data" for that post, and a blank line.
pub proof fn lemma_report_sections(top: TopPost, k1: nat, k2: nat, k3: nat, k4: nat)
    requires
        leads(top.replies@, |p: Post| p.replies, k1),
        leads(top.reactions@, |p: Post| p.reactions, k2),
        leads(top.forwards@, |p: Post| p.forwards, k3),
        leads(top.views@, |p: Post| p.views, k4),
    ensures
        report_lines(top, 4) == printed_section(ActionType::Replies, top.top_count, top.replies@, |p: Post| p.replies, k1)
            + printed_section(ActionType::Reactions, top.top_count, top.reactions@, |p: Post| p.reactions, k2)
            + printed_section(ActionType::Forwards, top.top_count, top.forwards@, |p: Post| p.forwards, k3)
            + printed_section(ActionType::Views, top.top_count, top.views@, |p: Post| p.views, k4),
{
    lemma_section(top, ActionType::Replies, |p: Post| p.replies, k1);
    lemma_section(top, ActionType::Reactions, |p: Post| p.reactions, k2);
    lemma_section(top, ActionType::Forwards, |p: Post| p.forwards, k3);
    lemma_section(top, ActionType::Views, |p: Post| p.views, k4);
    reveal_with_fuel(report_lines, 5);
    assert(report_lines(top, 4) =~= printed_section(ActionType::Replies, top.top_count, top.replies@, |p: Post| p.replies, k1)
        + printed_section(ActionType::Reactions, top.top_count, top.reactions@, |p: Post| p.reactions, k2)
        + printed_section(ActionType::Forwards, top.top_count, top.forwards@, |p: Post| p.forwards, k3)
        + printed_section(ActionType::Views, top.top_count, top.views@, |p: Post| p.views, k4));
}

proof fn lemma_section(top: TopPost, action: ActionType, count: spec_fn(Post) -> Option<i32>, k: nat)
    requires
        leads(top.list_of(action), count, k),
        forall|p: Post| #[trigger] p.count_of(action) == count(p),
    ensures
        crate::report::section_lines(top, action)
            == printed_section(action, top.top_count, top.list_of(action), count, k),
{
    let list = top.list_of(action);
    lemma_entries(list, action, count, 0, k);
    let entries = Seq::new(
        k,
        |j: int|
            ReportLine::Entry {
                position: (0 + j + 1) as usize,
                id: list[j].id,
                count: count(list[j]).unwrap(),
                date: list[j].date,
            },
    );
    assert(entries =~= Seq::new(
        k,
        |j: int|
            ReportLine::Entry {
                position: (j + 1) as usize,
                id: list[j].id,
                count: count(list[j]).unwrap(),
                date: list[j].date,
            },
    ));
    assert(crate::report::section_lines(top, action)
        =~= printed_section(action, top.top_count, list, count, k));
}

/// The card a post gets when it has a counter: its id and counter, with
/// the default title, warning icon and no style.
pub open spec fn counted_card_views(list: Seq<Post>, count: spec_fn(Post) -> Option<i32>) -> Seq<CardView> {
    list.filter_map(
        |p: Post|
            if count(p) is Some {
                Some(
                    CardView {
                        id: p.id,
                        count: count(p),
                        header: "UNDEFINED"@,
                        icon: icon_url_text("\u{26a0}\u{fe0f}"@),
                        filter: ""@,
                    },
                )
            } else {
                None
            },
    )
}

/// The digest block of a list: present exactly when a post of the list has
/// a counter, with the given title, icon and style, holding the cards of the
/// posts that have one, in list order.
pub open spec fn digest_block_for(
    list: Seq<Post>,
    count: spec_fn(Post) -> Option<i32>,
    title: Seq<char>,
    icon: Seq<char>,
    filter: Seq<char>,
) -> Seq<BlockView> {
    let cards = counted_card_views(list, count);
    if cards.len() > 0 {
        seq![BlockView { header: title, icon: icon_url_text(icon), filter, cards: Some(cards) }]
    } else {
        seq![]
    }
}

proof fn lemma_counted_cards_filter(list: Seq<Post>, action: ActionType, count: spec_fn(Post) -> Option<i32>)
    requires
        forall|p: Post| #[trigger] p.count_of(action) == count(p),
    ensures
        counted_cards(list, action) == counted_card_views(list, count),
    decreases list.len(),
{
    if list.len() > 0 {
        lemma_counted_cards_filter(list.drop_last(), action, count);
        assert(list.last().count_of(action) == count(list.last()));
        assert(counted_cards(list, action) =~= counted_card_views(list, count));
    }
}

/// The digest page, in terms of the four lists and the counters they are
/// ranked by: for comments, reactions, forwards and views in turn, a block
/// with that measure's title, icon and style whenever some post of its list
/// has a counter, holding the cards of exactly those posts.
pub proof fn lemma_digest_blocks_by_measure(top: TopPost)
    ensures
        digest_blocks(top, 4)
            == digest_block_for(top.replies@, |p: Post| p.replies, "По комментариям"@, "\u{1f4ac}"@, ""@)
            + digest_block_for(top.reactions@, |p: Post| p.reactions, "По реакциям"@, "\u{1f44f}"@, ""@)
            + digest_block_for(top.forwards@, |p: Post| p.forwards, "По репостам"@, "\u{1f501}"@, "filter-blue"@)
            + digest_block_for(top.views@, |p: Post| p.views, "По просмотрам"@, "\u{1f441}\u{fe0f}"@, "filter-blue"@),
{
    lemma_counted_cards_filter(top.replies@, ActionType::Replies, |p: Post| p.replies);
    lemma_counted_cards_filter(top.reactions@, ActionType::Reactions, |p: Post| p.reactions);
    lemma_counted_cards_filter(top.forwards@, ActionType::Forwards, |p: Post| p.forwards);
    lemma_counted_cards_filter(top.views@, ActionType::Views, |p: Post| p.views);
    reveal_with_fuel(digest_blocks, 5);
    assert(digest_blocks(top, 4)
        =~= digest_block_for(top.replies@, |p: Post| p.replies, "По комментариям"@, "\u{1f4ac}"@, ""@)
        + digest_block_for(top.reactions@, |p: Post| p.reactions, "По реакциям"@, "\u{1f44f}"@, ""@)
        + digest_block_for(top.forwards@, |p: Post| p.forwards, "По репостам"@, "\u{1f501}"@, "filter-blue"@)
        + digest_block_for(top.views@, |p: Post| p.views, "По просмотрам"@, "\u{1f441}\u{fe0f}"@, "filter-blue"@));
}

/// The card for the post at `place` (from 1) of a list: present exactly
/// when that post has a counter, showing its id and counter with the given
/// title, icon and style.
pub open spec fn picked_card_for(
    list: Seq<Post>,
    place: usize,
    count: spec_fn(Post) -> Option<i32>,
    title: Seq<char>,
    icon: Seq<char>,
    filter: Seq<char>,
) -> Seq<CardView> {
    let p = list[place - 1];
    if count(p) is Some {
        seq![CardView { id: p.id, count: count(p), header: title, icon: icon_url_text(icon), filter }]
    } else {
        seq![]
    }
}

/// The cards of the picked posts, in terms of the four lists and the places
/// picked in each: for comments, reactions, forwards and views in turn, the
/// post at the place picked for that measure in that measure's list, shown
/// when it has a counter.
pub proof fn lemma_best_cards_by_measure(top: TopPost, picks: CardPicks)
    ensures
        best_cards(top, picks, 4)
            == picked_card_for(top.replies@, picks.replies, |p: Post| p.replies, "Лучший по комментариям"@, "\u{1f4ac}"@, ""@)
            + picked_card_for(top.reactions@, picks.reactions, |p: Post| p.reactions, "Лучший по реакциям"@, "\u{1f44f}"@, ""@)
            + picked_card_for(top.forwards@, picks.forwards, |p: Post| p.forwards, "Лучший по репостам"@, "\u{1f501}"@, "filter-blue"@)
            + picked_card_for(top.views@, picks.views, |p: Post| p.views, "Лучший по просмотрам"@, "\u{1f441}\u{fe0f}"@, "filter-blue"@),
{
    reveal_with_fuel(best_cards, 5);
    assert(best_cards(top, picks, 4)
        =~= picked_card_for(top.replies@, picks.replies, |p: Post| p.replies, "Лучший по комментариям"@, "\u{1f4ac}"@, ""@)
        + picked_card_for(top.reactions@, picks.reactions, |p: Post| p.reactions, "Лучший по реакциям"@, "\u{1f44f}"@, ""@)
        + picked_card_for(top.forwards@, picks.forwards, |p: Post| p.forwards, "Лучший по репостам"@, "\u{1f501}"@, "filter-blue"@)
        + picked_card_for(top.views@, picks.views, |p: Post| p.views, "Лучший по просмотрам"@, "\u{1f441}\u{fe0f}"@, "filter-blue"@));
}

} // verus!
