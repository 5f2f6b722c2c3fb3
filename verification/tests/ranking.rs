use tgdigest::action::ActionType;
use tgdigest::period::{digest_period, Moment};
use tgdigest::post::Post;
use tgdigest::report::ReportLine;
use tgdigest::top::TopPost;
use std::cmp::Ordering;

fn post(id: i32, replies: Option<i32>, views: Option<i32>) -> Post {
    Post { date: 1_700_000_000 + id as i64, id, views, forwards: Some(id), replies, reactions: None }
}

fn sample() -> Vec<Post> {
    vec![
        post(1, Some(3), Some(10)),
        post(2, None, Some(50)),
        post(3, Some(7), None),
        post(4, Some(5), Some(20)),
        post(5, Some(1), Some(40)),
    ]
}

fn sorted_ids(posts: &[Post]) -> Vec<i32> {
    let mut ids: Vec<i32> = posts.iter().map(|p| p.id).collect();
    ids.sort();
    ids
}

#[test]
fn action_index_and_from_are_inverse() {
    for i in 0..4usize {
        assert_eq!(ActionType::from(i).index(), i);
    }
    assert_eq!(ActionType::from(0), ActionType::Replies);
    assert_eq!(ActionType::from(1), ActionType::Reactions);
    assert_eq!(ActionType::from(2), ActionType::Forwards);
    assert_eq!(ActionType::from(3), ActionType::Views);
    assert_eq!(ActionType::Views.index(), 3);
}

#[test]
fn count_reads_the_measure() {
    let p = Post { date: 0, id: 9, views: Some(1), forwards: Some(2), replies: Some(3), reactions: None };
    assert_eq!(p.count(ActionType::Views), Some(1));
    assert_eq!(p.count(ActionType::Forwards), Some(2));
    assert_eq!(p.count(ActionType::Replies), Some(3));
    assert_eq!(p.count(ActionType::Reactions), None);
}

#[test]
fn comparison_puts_larger_counters_first() {
    let a = post(1, Some(3), None);
    let b = post(2, Some(7), None);
    let c = post(3, None, None);
    assert_eq!(Post::compare_by_count_desc(&a, &b, ActionType::Replies), Ordering::Greater);
    assert_eq!(Post::compare_by_count_desc(&b, &a, ActionType::Replies), Ordering::Less);
    assert_eq!(Post::compare_by_count_desc(&a, &a, ActionType::Replies), Ordering::Equal);
    assert_eq!(Post::compare_by_count_desc(&a, &c, ActionType::Replies), Ordering::Less);
    assert_eq!(Post::compare_by_count_desc(&c, &c, ActionType::Replies), Ordering::Equal);
}

#[test]
fn top_by_replies_picks_the_best_three() {
    let mut posts = sample();
    let top = TopPost::get_top_by(3, &mut posts, ActionType::Replies);
    let ids: Vec<i32> = top.iter().map(|p| p.id).collect();
    assert_eq!(ids, vec![3, 4, 1]);
    assert_eq!(sorted_ids(&posts), vec![1, 2, 3, 4, 5]);
    assert_eq!(&posts[0..3], &top[..]);
}

#[test]
fn top_by_views_puts_missing_counters_last() {
    let mut posts = sample();
    let top = TopPost::get_top_by(5, &mut posts, ActionType::Views);
    let ids: Vec<i32> = top.iter().map(|p| p.id).collect();
    assert_eq!(ids, vec![2, 5, 4, 1, 3]);
}

#[test]
fn top_of_zero_is_empty() {
    let mut posts = sample();
    let top = TopPost::get_top_by(0, &mut posts, ActionType::Views);
    assert!(top.is_empty());
    assert_eq!(sorted_ids(&posts), vec![1, 2, 3, 4, 5]);
}

#[test]
fn top_for_every_measure() {
    let mut posts = sample();
    let top = TopPost::get_top(2, &mut posts);
    assert_eq!(top.top_count, 2);
    assert_eq!(top.replies.iter().map(|p| p.id).collect::<Vec<_>>(), vec![3, 4]);
    assert_eq!(top.views.iter().map(|p| p.id).collect::<Vec<_>>(), vec![2, 5]);
    assert_eq!(top.forwards.iter().map(|p| p.id).collect::<Vec<_>>(), vec![5, 4]);
    assert_eq!(top.reactions.len(), 2);
    assert!(top.reactions.iter().all(|p| p.reactions.is_none()));
    assert_eq!(top.index(ActionType::Views).len(), 2);
    assert_eq!(top.index(ActionType::Replies)[0].id, 3);
    assert_eq!(sorted_ids(&posts), vec![1, 2, 3, 4, 5]);
}

#[test]
fn report_lists_each_measure() {
    let mut posts = sample();
    let top = TopPost::get_top(2, &mut posts);
    let lines = top.report();
    let d3 = 1_700_000_003i64;
    let d4 = 1_700_000_004i64;
    assert_eq!(lines[0], ReportLine::Header { action: ActionType::Replies, top_count: 2 });
    assert_eq!(lines[1], ReportLine::Entry { position: 1, id: 3, count: 7, date: d3 });
    assert_eq!(lines[2], ReportLine::Entry { position: 2, id: 4, count: 5, date: d4 });
    assert_eq!(lines[3], ReportLine::Blank);
    assert_eq!(lines[4], ReportLine::Header { action: ActionType::Reactions, top_count: 2 });
    assert_eq!(lines[5], ReportLine::NoData);
    assert_eq!(lines[6], ReportLine::Blank);
    assert_eq!(lines[7], ReportLine::Header { action: ActionType::Forwards, top_count: 2 });
    assert_eq!(lines.len(), 4 + 3 + 4 + 4);
    assert_eq!(*lines.last().unwrap(), ReportLine::Blank);
    assert_eq!(ActionType::Replies.noun(), "comments");
    assert_eq!(ActionType::Views.noun(), "views");
}

#[test]
fn posts_outside_the_period() {
    let from = Moment { secs: 100, nanos: 0 };
    let to = Moment { secs: 200, nanos: 0 };
    let mut kept: Vec<Post> = Vec::new();
    let mut p = post(1, None, None);
    p.date = 250;
    assert!(Post::take_if_in_period(&mut kept, p, from, to));
    assert!(kept.is_empty());
    p.date = 200;
    assert!(Post::take_if_in_period(&mut kept, p, from, to));
    p.date = 100;
    assert!(Post::take_if_in_period(&mut kept, p, from, to));
    assert_eq!(kept.len(), 2);
    p.date = 99;
    assert!(!Post::take_if_in_period(&mut kept, p, from, to));
    assert_eq!(kept.len(), 2);
}

#[test]
fn fractions_of_a_second_count() {
    let from = Moment { secs: 100, nanos: 500 };
    let to = Moment { secs: 200, nanos: 500 };
    let mut kept: Vec<Post> = Vec::new();
    let mut p = post(1, None, None);
    p.date = 200;
    assert!(Post::take_if_in_period(&mut kept, p, from, to));
    assert_eq!(kept.len(), 1);
    p.date = 100;
    assert!(!Post::take_if_in_period(&mut kept, p, from, to));
    assert_eq!(kept.len(), 1);
}

#[test]
fn default_period_is_the_last_week() {
    let (from, to) = digest_period(1_000_000, None, None);
    assert_eq!(from, Moment { secs: 1_000_000 - 604_800, nanos: 0 });
    assert_eq!(to, Moment { secs: 1_000_000, nanos: 0 });
    let given = Moment { secs: 5, nanos: 7 };
    let (from, to) = digest_period(1_000_000, Some(given), None);
    assert_eq!(from, given);
    assert_eq!(to.secs, 1_000_000);
    let (from, to) = digest_period(1_000_000, None, Some(given));
    assert_eq!(from.secs, 1_000_000 - 604_800);
    assert_eq!(to, given);
    assert!(Moment { secs: 1, nanos: 2 }.before(&Moment { secs: 1, nanos: 3 }));
    assert!(Moment { secs: 2, nanos: 0 }.after(&Moment { secs: 1, nanos: 9 }));
}

#[test]
fn top_leaves_the_views_choice_in_front() {
    let mut posts = sample();
    let top = TopPost::get_top(3, &mut posts);
    assert_eq!(&posts[0..3], &top.views[..]);
}

#[test]
fn report_text_of_each_line() {
    let p = Post { date: 0, id: 7, views: Some(5), forwards: None, replies: Some(5), reactions: None };
    let t = TopPost { top_count: 1, replies: vec![p], reactions: vec![p], forwards: vec![], views: vec![p] };
    let mut out = String::new();
    for line in t.report() {
        out.push_str(&line.try_text().unwrap());
        out.push('\n');
    }
    assert_eq!(
        out,
        "Top 1 by comments:\n\t1. 7: 5\t(1970-01-01 00:00:00 UTC)\n\nTop 1 by reactions:\nNo data\n\nTop 1 by forwards:\n\nTop 1 by views:\n\t1. 7: 5\t(1970-01-01 00:00:00 UTC)\n\n"
    );
}

#[test]
fn report_entry_layout() {
    let line = ReportLine::Entry { position: 12, id: -3, count: i32::MIN, date: 0 };
    assert_eq!(
        line.text_with_date(Some(String::from("D"))),
        Some(String::from("\t12. -3: -2147483648\t(D)"))
    );
    assert_eq!(line.text_with_date(None), None);
    let header = ReportLine::Header { action: ActionType::Forwards, top_count: 10 };
    assert_eq!(header.text_with_date(None), Some(String::from("Top 10 by forwards:")));
    assert_eq!(ReportLine::NoData.text(), "No data");
    assert_eq!(ReportLine::Blank.try_text(), Some(String::new()));
    let late = ReportLine::Entry { position: 1, id: 1, count: 1, date: 1_700_000_000 };
    assert_eq!(late.text(), "\t1. 1: 1\t(2023-11-14 22:13:20 UTC)");
    assert_eq!(late.try_text(), Some(late.text()));
    let unshowable = ReportLine::Entry { position: 1, id: 1, count: 1, date: i64::MAX };
    assert_eq!(unshowable.try_text(), None);
}
