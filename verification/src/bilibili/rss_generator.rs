//! The feed of the watched-now list.

use crate::bilibili::{Bili, BiliData};
use crate::blacklist::{filter_ends, filter_one_more, Blacklist, BlacklistView};
use crate::error::MyError;
use crate::feed::{
    channel_icon, channel_markup, feed_item, feed_validates, rendered, validated_markup,
    validation_failure, Feed, FeedImage, FeedItem, FeedItemView, FeedView,
};
use rss::validation::ValidationError;
use crate::text::{decimal, decimal_string};
use vstd::prelude::*;
use vstd::string::*;

verus! {

pub const TITLE: &'static str = "Filtered BiliBili online list";

pub const LINK: &'static str = "https://www.bilibili.com/video/online.html";

pub const DESC: &'static str = "A filtered BiliBili online list based on my blacklist";

pub const ICON_URL: &'static str = "https://www.bilibili.com/favicon.ico";

/// A count in its short form: as it is below a thousand, in whole thousands
/// with `k` below ten thousand, in whole ten-thousands with `w` from there
/// on. What is cut off is dropped, not rounded.
pub open spec fn count_text(c: nat) -> Seq<char> {
    if c < 1000 {
        decimal(c)
    } else if c < 10000 {
        decimal(c / 1000).push('k')
    } else {
        decimal(c / 10000).push('w')
    }
}

/// Convert number like view count to a easier reading format,
/// for example 1000 -> 1k, 20000 -> 2w
pub fn convert_count(c: u32) -> (r: String)
    ensures
        r@ == count_text(c as nat),
{
    if c < 1000 {
        decimal_string(c)
    } else if c < 10000 {
        let mut s = decimal_string(c / 1000);
        proof {
            reveal_strlit("k");
        }
        s.append("k");
        assert(s@ =~= decimal((c / 1000) as nat).push('k'));
        s
    } else {
        let mut s = decimal_string(c / 10000);
        proof {
            reveal_strlit("w");
        }
        s.append("w");
        assert(s@ =~= decimal((c / 10000) as nat).push('w'));
        s
    }
}

/// The body of a record's entry: author, category, summary, the two counts in
/// their short form and the thumbnail, as a piece of markup.
pub open spec fn item_desc(d: BiliData) -> Seq<char> {
    "<b>author:</b> "@ + d.owner.name@ + "\n    <p></p>\n    <b>category:</b> "@ + d.tname@
        + "\n    <p></p>\n    <b>desc:</b> "@ + d.desc@ + "\n    <p></p>\n    <b>view:</b> "@
        + count_text(d.stat.view as nat) + "\n    <p></p>\n    <b>danmaku:</b> "@ + count_text(
        d.stat.danmaku as nat,
    ) + "\n    <p></p>\n    <img style=\"width:100%\" src=\""@ + d.pic@ + "\" width=\"500\">"@
}

/// Writes the body of a record's entry.
pub fn create_item_desc(d: &BiliData) -> (r: String)
    ensures
        r@ == item_desc(*d),
{
    let mut s = String::from_str("<b>author:</b> ");
    s.append(d.owner.name.as_str());
    s.append("\n    <p></p>\n    <b>category:</b> ");
    s.append(d.tname.as_str());
    s.append("\n    <p></p>\n    <b>desc:</b> ");
    s.append(d.desc.as_str());
    s.append("\n    <p></p>\n    <b>view:</b> ");
    s.append(convert_count(d.stat.view).as_str());
    s.append("\n    <p></p>\n    <b>danmaku:</b> ");
    s.append(convert_count(d.stat.danmaku).as_str());
    s.append("\n    <p></p>\n    <img style=\"width:100%\" src=\"");
    s.append(d.pic.as_str());
    s.append("\" width=\"500\">");
    s
}

/// The entry of a record: its title, its body and its short link.
pub open spec fn bili_item(d: BiliData) -> FeedItemView {
    feed_item(d.title@, item_desc(d), d.short_link@)
}

/// The feed of the given records: the channel's fixed fields and one entry
/// for each record, in order.
pub open spec fn bili_feed(items: Seq<BiliData>) -> FeedView {
    FeedView {
        title: TITLE@,
        link: LINK@,
        description: DESC@,
        icon: channel_icon(ICON_URL@, TITLE@, LINK@),
        items: items.map_values(|d: BiliData| bili_item(d)),
    }
}

/// Puts the records into a feed.
fn feed_of(items: &Vec<BiliData>) -> (r: Feed)
    ensures
        r@ == bili_feed(items@),
{
    let mut entries: Vec<FeedItem> = Vec::new();
    let mut i: usize = 0;
    while i < items.len()
        invariant
            i <= items.len(),
            entries@.len() == i,
            forall|j: int| 0 <= j < i ==> (#[trigger] entries@[j])@ == bili_item(items@[j]),
        decreases items.len() - i,
    {
        let d = &items[i];
        entries.push(FeedItem::new(d.title.clone(), create_item_desc(d), d.short_link.clone()));
        i = i + 1;
    }
    let feed = Feed {
        title: String::from_str(TITLE),
        link: String::from_str(LINK),
        description: String::from_str(DESC),
        icon: FeedImage::of_channel(ICON_URL, TITLE, LINK),
        items: entries,
    };
    assert(feed@.items =~= bili_feed(items@).items);
    feed
}

/// Renders the records as a feed, or hands on the validator's failure.
pub fn create_rss(items: Vec<BiliData>) -> (r: Result<String, ValidationError>)
    ensures
        r is Ok <==> feed_validates(bili_feed(items@)),
        r matches Ok(doc) ==> doc@ == channel_markup(bili_feed(items@)),
{
    let feed = feed_of(&items);
    validated_markup(&feed)
}

/// Renders the records as a feed. A feed that fails validation is a failure
/// of this request; nothing is written then.
pub fn assemble(items: Vec<BiliData>) -> (r: Result<String, MyError>)
    ensures
        rendered(bili_feed(items@), r),
{
    match create_rss(items) {
        Ok(doc) => Ok(doc),
        Err(e) => Err(validation_failure(e)),
    }
}

/// The records that a list keeps.
pub open spec fn kept_by(list: BlacklistView) -> spec_fn(BiliData) -> bool {
    |d: BiliData| list.keeps(d.author(), d.categories())
}

/// Drops the records that the list excludes. The others stay in their order.
pub fn filter_items(blacklist: &Blacklist, data: Vec<BiliData>) -> (r: Vec<BiliData>)
    ensures
        r@ == data@.filter(kept_by(blacklist@)),
{
    let mut kept: Vec<BiliData> = Vec::new();
    let ghost all = data@;
    proof {
        filter_ends(all, kept_by(blacklist@));
    }
    for d in it: data
        invariant
            it.seq() == all,
            kept@ == all.take(it.index() as int).filter(kept_by(blacklist@)),
    {
        proof {
            filter_one_more(all, kept_by(blacklist@), it.index() as int);
        }
        if blacklist.filter(&d) {
            kept.push(d);
        }
    }
    kept
}

/// Makes the feed from the upstream's answer: the records that the list
/// excludes are dropped, the others are rendered in the upstream's order.
pub fn generate_new_rss(blacklist: &Blacklist, resp: Bili) -> (r: Result<String, MyError>)
    ensures
        rendered(bili_feed(resp.data@.filter(kept_by(blacklist@))), r),
{
    let items = filter_items(blacklist, resp.data);
    assemble(items)
}

/// Of two records of which the list excludes the first for its author and
/// keeps the second, only the second reaches the feed: the feed that is
/// rendered has the second record's entry and no other.
pub proof fn excluded_author_leaves_the_feed(list: BlacklistView, first: BiliData, second: BiliData)
    requires
        list.enable,
        list.authors.contains(first.owner.name@),
        list.keeps(second.author(), second.categories()),
    ensures
        seq![first, second].filter(kept_by(list)) == seq![second],
        bili_feed(seq![first, second].filter(kept_by(list))).items == seq![bili_item(second)],
{
    let both = seq![first, second];
    let keep = kept_by(list);
    assert(!keep(first));
    assert(keep(second));
    filter_ends(both, keep);
    filter_one_more(both, keep, 0);
    filter_one_more(both, keep, 1);
    assert(both.take(2) =~= both);
    assert(both.filter(keep) =~= seq![second]);
    assert(bili_feed(both.filter(keep)).items =~= seq![bili_item(second)]);
}

} // verus!
