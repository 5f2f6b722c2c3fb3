use vstd::prelude::*;

use crate::action::{ActionType, ACTION_COUNT};
use crate::post::Post;
use crate::text::{decimal_digits, push_decimal, push_signed, signed_text, text_of};
use crate::top::TopPost;

verus! {

/// One line of the console summary of a digest.
#[derive(Clone, Copy, Debug, PartialEq, Eq, Structural)]
pub enum ReportLine {
    /// "Top N by ...:" for a measure.
    Header { action: ActionType, top_count: usize },
    /// A ranked post: its place (from 1), id, counter and publication time.
    Entry { position: usize, id: i32, count: i32, date: i64 },
    /// The list goes on with a post that has no counter.
    NoData,
    /// The empty line that closes a section.
    Blank,
}

impl ActionType {
    /// The word that names the measure in section headers.
    pub open spec fn noun_text(self) -> Seq<char> {
        match self {
            ActionType::Replies => "comments"@,
            ActionType::Reactions => "reactions"@,
            ActionType::Forwards => "forwards"@,
            ActionType::Views => "views"@,
        }
    }

    pub fn noun(self) -> (r: &'static str)
        ensures
            r@ == self.noun_text(),
    {
        match self {
            ActionType::Replies => "comments",
            ActionType::Reactions => "reactions",
            ActionType::Forwards => "forwards",
            ActionType::Views => "views",
        }
    }
}

/// The lines for `posts`, whose first stands at place `start + 1`: one entry
/// per post up to the first post without a counter, which gives `NoData`
/// and ends the list.
pub open spec fn entry_lines(posts: Seq<Post>, action: ActionType, start: nat) -> Seq<ReportLine>
    decreases posts.len(),
{
    if posts.len() == 0 {
        seq![]
    } else {
        match posts[0].count_of(action) {
            Some(c) => seq![
                ReportLine::Entry {
                    position: (start + 1) as usize,
                    id: posts[0].id,
                    count: c,
                    date: posts[0].date,
                },
            ] + entry_lines(posts.drop_first(), action, start + 1),
            None => seq![ReportLine::NoData],
        }
    }
}

/// The section of one measure: its header, its entries, a blank line.
pub open spec fn section_lines(top: TopPost, action: ActionType) -> Seq<ReportLine> {
    seq![ReportLine::Header { action, top_count: top.top_count }]
        + entry_lines(top.list_of(action), action, 0)
        + seq![ReportLine::Blank]
}

/// The sections of the first `n` measures, in the order of positions.
pub open spec fn report_lines(top: TopPost, n: nat) -> Seq<ReportLine>
    decreases n,
{
    if n == 0 {
        seq![]
    } else {
        report_lines(top, (n - 1) as nat) + section_lines(top, ActionType::at_position((n - 1) as nat))
    }
}

impl TopPost {
    /// The summary that is printed after the posts were fetched: for each
    /// measure a header, the ranked posts, and a blank line.
    pub fn report(&self) -> (r: Vec<ReportLine>)
        ensures
            r@ == report_lines(*self, ACTION_COUNT as nat),
    {
        let mut lines: Vec<ReportLine> = Vec::new();
        let mut index: usize = 0;
        while index < ACTION_COUNT
            invariant
                index <= ACTION_COUNT,
                lines@ == report_lines(*self, index as nat),
            decreases ACTION_COUNT - index,
        {
            let action = ActionType::from(index);
            lines.push(ReportLine::Header { action, top_count: self.top_count });
            let posts = self.index(action);
            let ghost before = lines@;
            let mut pos: usize = 0;
            assert(posts@.skip(0) =~= posts@);
            while pos < posts.len()
                invariant_except_break
                    pos <= posts@.len(),
                    before + entry_lines(posts@, action, 0)
                        == lines@ + entry_lines(posts@.skip(pos as int), action, pos as nat),
                ensures
                    lines@ == before + entry_lines(posts@, action, 0),
                decreases posts@.len() - pos,
            {
                let post = &posts[pos];
                let ghost rest = posts@.skip(pos as int);
                assert(rest[0] == *post);
                assert(rest.drop_first() =~= posts@.skip(pos + 1));
                match post.count(action) {
                    Some(count) => {
                        lines.push(ReportLine::Entry { position: pos + 1, id: post.id, count, date: post.date });
                    },
                    None => {
                        lines.push(ReportLine::NoData);
                        break;
                    },
                }
                pos = pos + 1;
            }
            proof {
                if pos == posts@.len() {
                    assert(posts@.skip(pos as int) =~= Seq::<Post>::empty());
                }
            }
            lines.push(ReportLine::Blank);
            index = index + 1;
        }
        lines
    }
}

/// How `chrono` shows the UTC time `secs` seconds after the Unix epoch
/// (`DateTime::<Utc>::from_timestamp(secs, 0)` written with `Display`), or
/// `None` where `chrono` cannot represent that time.
pub uninterp spec fn utc_time_text(secs: i64) -> Option<Seq<char>>;

/// `chrono::DateTime::<chrono::Utc>::from_timestamp(secs, 0)`, written out
/// through its `Display` impl. The text is a function of `secs` alone and is
/// given a name, `utc_time_text`; its calendar layout is not stated here.
#[verifier::external_body]
fn utc_time(secs: i64) -> (r: Option<String>)
    ensures
        text_of(r) == utc_time_text(secs),
{
    chrono::DateTime::<chrono::Utc>::from_timestamp(secs, 0).map(|d| d.to_string())
}

/// The printed text of a ranked post, given the text of its date.
pub open spec fn entry_text(position: nat, id: int, count: int, date: Seq<char>) -> Seq<char> {
    "\t"@ + decimal_digits(position) + ". "@ + signed_text(id) + ": "@ + signed_text(count) + "\t("@
        + date + ")"@
}

/// The printed text of a line, given the text of the date of an entry
/// (`None` where the date cannot be shown, which leaves the entry unprintable).
pub open spec fn line_text(line: ReportLine, date: Option<Seq<char>>) -> Option<Seq<char>> {
    match line {
        ReportLine::Header { action, top_count } => Some(
            "Top "@ + decimal_digits(top_count as nat) + " by "@ + action.noun_text() + ":"@,
        ),
        ReportLine::Entry { position, id, count, date: _ } => match date {
            Some(d) => Some(entry_text(position as nat, id as int, count as int, d)),
            None => None,
        },
        ReportLine::NoData => Some("No data"@),
        ReportLine::Blank => Some(""@),
    }
}

/// The date an entry line shows, as `chrono` writes it; other lines show none.
pub open spec fn line_date(line: ReportLine) -> Option<Seq<char>> {
    match line {
        ReportLine::Entry { position: _, id: _, count: _, date } => utc_time_text(date),
        _ => None,
    }
}

/// A line can be printed: it is no entry, or `chrono` can show its date.
pub open spec fn line_is_printable(line: ReportLine) -> bool {
    match line {
        ReportLine::Entry { position: _, id: _, count: _, date } => utc_time_text(date) is Some,
        _ => true,
    }
}

impl ReportLine {
    /// The text of the line given the text of an entry's date.
    pub fn text_with_date(&self, date: Option<String>) -> (r: Option<String>)
        ensures
            text_of(r) == line_text(*self, text_of(date)),
    {
        match *self {
            ReportLine::Header { action, top_count } => {
                let mut t = String::from_str("Top ");
                push_decimal(&mut t, top_count as u64);
                t.append(" by ");
                t.append(action.noun());
                t.append(":");
                Some(t)
            },
            ReportLine::Entry { position, id, count, date: _ } => match date {
                Some(d) => {
                    let mut t = String::from_str("\t");
                    push_decimal(&mut t, position as u64);
                    t.append(". ");
                    push_signed(&mut t, id);
                    t.append(": ");
                    push_signed(&mut t, count);
                    t.append("\t(");
                    t.append(d.as_str());
                    t.append(")");
                    Some(t)
                },
                None => None,
            },
            ReportLine::NoData => Some(String::from_str("No data")),
            ReportLine::Blank => Some(String::from_str("")),
        }
    }

    /// The text printed for the line, whose date (for an entry) `chrono`
    /// can show.
    pub fn text(&self) -> (r: String)
        requires
            line_is_printable(*self),
        ensures
            line_text(*self, line_date(*self)) == Some(r@),
    {
        let date = match *self {
            ReportLine::Entry { position: _, id: _, count: _, date } => utc_time(date),
            _ => None,
        };
        match self.text_with_date(date) {
            Some(t) => t,
            None => String::new(),
        }
    }

    /// The text printed for the line, or `None` for an entry whose date
    /// `chrono` cannot show (where printing the summary stops).
    pub fn try_text(&self) -> (r: Option<String>)
        ensures
            text_of(r) == line_text(*self, line_date(*self)),
            r is Some <==> line_is_printable(*self),
    {
        match *self {
            ReportLine::Entry { position: _, id: _, count: _, date } => {
                if utc_time(date).is_none() {
                    return None;
                }
            },
            _ => {},
        }
        Some(self.text())
    }
}


} // verus!
