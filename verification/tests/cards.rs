use tgdigest::action::ActionType;
use tgdigest::card::{Block, Card, CardPicks};
use tgdigest::icon::icon_url;
use tgdigest::post::Post;
use tgdigest::top::TopPost;

const NOTO: &str = "https://raw.githubusercontent.com/googlefonts/noto-emoji/main/svg/emoji_u";

fn post(id: i32, replies: Option<i32>, views: Option<i32>) -> Post {
    Post { date: 0, id, views, forwards: Some(id), replies, reactions: None }
}

fn top() -> TopPost {
    TopPost {
        top_count: 2,
        replies: vec![post(3, Some(7), None), post(4, Some(5), Some(20))],
        reactions: vec![post(1, None, None), post(2, None, None)],
        forwards: vec![post(5, None, None), post(4, None, None)],
        views: vec![post(2, None, Some(50)), post(5, None, None)],
    }
}

#[test]
fn icon_addresses() {
    assert_eq!(icon_url("\u{1f4ac}"), format!("{NOTO}1f4ac.svg"));
    assert_eq!(icon_url("\u{26a0}\u{fe0f}"), format!("{NOTO}26a0.svg"));
    assert_eq!(icon_url("\u{1f441}\u{fe0f}"), format!("{NOTO}1f441.svg"));
    assert_eq!(icon_url(""), format!("{NOTO}274c.svg"));
    assert_eq!(icon_url("A"), format!("{NOTO}0041.svg"));
    assert_eq!(icon_url("\u{0}"), format!("{NOTO}0000.svg"));
    assert_eq!(icon_url("\u{10ffff}"), format!("{NOTO}10ffff.svg"));
}

#[test]
fn icon_address_matches_hex_formatting() {
    for c in ['\u{1}', '\u{f}', '\u{10}', '\u{abc}', '\u{ffff}', '\u{10000}', '\u{1f501}'] {
        let s = c.to_string();
        assert_eq!(icon_url(&s), format!("{NOTO}{:04x}.svg", c as u32));
    }
}

#[test]
fn default_card_and_block() {
    let c = Card::default();
    assert_eq!(c.id, -1);
    assert_eq!(c.count, None);
    assert_eq!(c.header, "UNDEFINED");
    assert_eq!(c.icon, format!("{NOTO}26a0.svg"));
    assert_eq!(c.filter, "");
    let b = Block::default();
    assert_eq!(b.header, "UNDEFINED");
    assert_eq!(b.icon, format!("{NOTO}26a0.svg"));
    assert_eq!(b.filter, "");
    assert!(b.cards.is_none());
}

#[test]
fn card_of_a_post() {
    let c = Card::create_card(&post(8, Some(4), None), ActionType::Replies);
    assert_eq!(c.id, 8);
    assert_eq!(c.count, Some(4));
    assert_eq!(c.header, "UNDEFINED");
    assert_eq!(c.filter, "");
    let c = Card::create_card(&post(8, Some(4), None), ActionType::Views);
    assert_eq!(c.count, None);
}

#[test]
fn cards_only_for_counted_posts() {
    let posts = vec![post(1, Some(2), None), post(2, None, None), post(3, Some(0), None)];
    let cards = Card::create_cards(&posts, ActionType::Replies).unwrap();
    assert_eq!(cards.iter().map(|c| c.id).collect::<Vec<_>>(), vec![1, 3]);
    assert_eq!(cards[1].count, Some(0));
    assert!(Card::create_cards(&posts, ActionType::Reactions).is_none());
    assert!(Card::create_cards(&Vec::new(), ActionType::Replies).is_none());
}

#[test]
fn digest_blocks_skip_measures_without_counters() {
    let blocks = Block::digest(&top());
    assert_eq!(blocks.len(), 3);
    assert_eq!(blocks[0].header, "По комментариям");
    assert_eq!(blocks[0].icon, format!("{NOTO}1f4ac.svg"));
    assert_eq!(blocks[0].filter, "");
    assert_eq!(blocks[0].cards.as_ref().unwrap().len(), 2);
    assert_eq!(blocks[1].header, "По репостам");
    assert_eq!(blocks[1].icon, format!("{NOTO}1f501.svg"));
    assert_eq!(blocks[1].filter, "filter-blue");
    assert_eq!(blocks[1].cards.as_ref().unwrap().iter().map(|c| c.id).collect::<Vec<_>>(), vec![5, 4]);
    assert_eq!(blocks[2].header, "По просмотрам");
    assert_eq!(blocks[2].icon, format!("{NOTO}1f441.svg"));
    assert_eq!(blocks[2].cards.as_ref().unwrap().len(), 1);
    assert_eq!(blocks[2].cards.as_ref().unwrap()[0].id, 2);
}

#[test]
fn best_cards_for_the_picked_places() {
    let picks = CardPicks { replies: 2, reactions: 1, forwards: 1, views: 1 };
    let cards = Card::best_of(&top(), &picks);
    assert_eq!(cards.len(), 3);
    assert_eq!(cards[0].header, "Лучший по комментариям");
    assert_eq!(cards[0].id, 4);
    assert_eq!(cards[0].count, Some(5));
    assert_eq!(cards[0].icon, format!("{NOTO}1f4ac.svg"));
    assert_eq!(cards[1].header, "Лучший по репостам");
    assert_eq!(cards[1].id, 5);
    assert_eq!(cards[1].filter, "filter-blue");
    assert_eq!(cards[2].header, "Лучший по просмотрам");
    assert_eq!(cards[2].id, 2);
    assert_eq!(cards[2].count, Some(50));
    let picks = CardPicks { replies: 1, reactions: 2, forwards: 2, views: 2 };
    let cards = Card::best_of(&top(), &picks);
    assert_eq!(cards.iter().map(|c| c.id).collect::<Vec<_>>(), vec![3, 4]);
}

#[test]
fn picks_within_lists_of_different_lengths() {
    let mut t = top();
    t.views.truncate(1);
    let picks = CardPicks { replies: 2, reactions: 1, forwards: 2, views: 1 };
    assert!(picks.fits_in(&t));
    let cards = Card::best_of(&t, &picks);
    assert_eq!(cards.iter().map(|c| c.id).collect::<Vec<_>>(), vec![4, 4, 2]);
    assert!(!CardPicks { replies: 2, reactions: 1, forwards: 2, views: 2 }.fits_in(&t));
    assert!(!CardPicks { replies: 0, reactions: 1, forwards: 1, views: 1 }.fits_in(&t));
}
