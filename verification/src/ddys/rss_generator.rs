//! The feed of the listing page.

use crate::blacklist::{filter_ends, filter_one_more, Blacklist, BlacklistView};
use crate::ddys::scrape::{
    page_parts, post_record, queries_compile, records_are, scrape, scraped,
};
use crate::ddys::Ddys;
use crate::error::MyError;
use crate::feed::{
    channel_icon, feed_item, rendered, write_feed, Feed, FeedImage, FeedItem, FeedItemView,
    FeedView,
};
use crate::text::{join, joined, texts};
use vstd::prelude::*;
use vstd::string::*;

verus! {

pub const TITLE: &'static str = "ddys.site";

pub const LINK: &'static str = "https://ddys.site";

pub const DESC: &'static str = "A rss for ddys";

pub const ICON_URL: &'static str = "https://ddys.art/favicon-32x32.png";

/// The body of a post's entry: its categories with one blank between each
/// two, its summary and its image, as a piece of markup.
pub open spec fn item_desc(d: Ddys) -> Seq<char> {
    "\n    <b>category:</b> "@ + joined(texts(d.category@), seq![' '])
        + "\n    <p></p>\n    <b>desc:</b> "@ + d.desc@
        + "\n    <p></p>\n    <img style=\"width:100%\" src=\""@ + d.image_url@
        + "\" width=\"500\">"@
}

/// Writes the body of a post's entry.
pub fn create_item_desc(d: &Ddys) -> (r: String)
    ensures
        r@ == item_desc(*d),
{
    proof {
        reveal_strlit(" ");
        assert(" "@ =~= seq![' ']);
    }
    let mut s = String::from_str("\n    <b>category:</b> ");
    s.append(join(&d.category, " ").as_str());
    s.append("\n    <p></p>\n    <b>desc:</b> ");
    s.append(d.desc.as_str());
    s.append("\n    <p></p>\n    <img style=\"width:100%\" src=\"");
    s.append(d.image_url.as_str());
    s.append("\" width=\"500\">");
    s
}

/// The entry of a post: its title, its body and its address. The entry's
/// identifier is the title followed by the address, so that it changes when
/// the page changes the title of an episode and keeps the address.
pub open spec fn ddys_item(d: Ddys) -> FeedItemView {
    feed_item(d.title@, item_desc(d), d.url@)
}

/// The feed of the given posts: the channel's fixed fields and one entry for
/// each post, in order.
pub open spec fn ddys_feed(items: Seq<Ddys>) -> FeedView {
    FeedView {
        title: TITLE@,
        link: LINK@,
        description: DESC@,
        icon: channel_icon(ICON_URL@, TITLE@, LINK@),
        items: items.map_values(|d: Ddys| ddys_item(d)),
    }
}

/// Puts the posts into a feed.
fn feed_of(items: &Vec<Ddys>) -> (r: Feed)
    ensures
        r@ == ddys_feed(items@),
{
    let mut entries: Vec<FeedItem> = Vec::new();
    let mut i: usize = 0;
    while i < items.len()
        invariant
            i <= items.len(),
            entries@.len() == i,
            forall|j: int| 0 <= j < i ==> (#[trigger] entries@[j])@ == ddys_item(items@[j]),
        decreases items.len() - i,
    {
        let d = &items[i];
        entries.push(FeedItem::new(d.title.clone(), create_item_desc(d), d.url.clone()));
        i = i + 1;
    }
    let feed = Feed {
        title: String::from_str(TITLE),
        link: String::from_str(LINK),
        description: String::from_str(DESC),
        icon: FeedImage::of_channel(ICON_URL, TITLE, LINK),
        items: entries,
    };
    assert(feed@.items =~= ddys_feed(items@).items);
    feed
}

/// Renders the posts as a feed. A feed that fails validation is a failure of
/// this request; nothing is written then.
pub fn assemble(items: Vec<Ddys>) -> (r: Result<String, MyError>)
    ensures
        rendered(ddys_feed(items@), r),
{
    let feed = feed_of(&items);
    write_feed(&feed)
}

/// The posts that a list keeps.
pub open spec fn kept_by(list: BlacklistView) -> spec_fn(Ddys) -> bool {
    |d: Ddys| list.keeps(d.author(), d.categories())
}

/// Drops the posts that the list excludes. The others stay in their order.
pub fn filter_items(blacklist: &Blacklist, data: Vec<Ddys>) -> (r: Vec<Ddys>)
    ensures
        r@ == data@.filter(kept_by(blacklist@)),
{
    let mut kept: Vec<Ddys> = Vec::new();
    let ghost all = data@;
    proof {
        filter_ends(all, kept_by(blacklist@));
    }
    for d in it: data
        invariant
            it.seq() == all,
            kept@ == all.take(it.index() as int).filter(kept_by(blacklist@)),
    {
        proof {
            filter_one_more(all, kept_by(blacklist@), it.index() as int);
        }
        if blacklist.filter_ddys(&d) {
            kept.push(d);
        }
    }
    kept
}

/// Makes the feed from the posts of the page: the posts that the list
/// excludes are dropped, the others are rendered in the page's order.
pub fn render_posts(blacklist: &Blacklist, posts: Vec<Ddys>) -> (r: Result<String, MyError>)
    ensures
        rendered(ddys_feed(posts@.filter(kept_by(blacklist@))), r),
{
    let items = filter_items(blacklist, posts);
    assemble(items)
}

/// `r` is what rendering the posts that `list` keeps of `posts` comes to.
pub open spec fn rendered_posts(posts: Seq<Ddys>, list: BlacklistView, r: Result<String, MyError>) -> bool {
    rendered(ddys_feed(posts.filter(kept_by(list))), r)
}

/// What making the feed of a page comes to. Where the queries do not compile
/// or a part of the page is at fault, it is the failure of the upstream that
/// reading the page comes to. Otherwise it is what rendering comes to for the
/// posts that the parts of the page describe and that the list keeps.
pub open spec fn page_feed(page: Seq<char>, list: BlacklistView, r: Result<String, MyError>) -> bool {
    if queries_compile() && (forall|i: int|
        0 <= i < page_parts(page).len() ==> post_record(#[trigger] page_parts(page)[i]) is Ok) {
        exists|posts: Seq<Ddys>|
            records_are(page_parts(page), posts) && #[trigger] rendered_posts(posts, list, r)
    } else {
        r matches Err(e) && scraped(page, Err::<Vec<Ddys>, MyError>(e))
    }
}

/// Makes the feed from the page as it was fetched: reads the posts out of it
/// and renders those that the list keeps. A page that does not look like the
/// listing page is a failure of the upstream; a feed that fails validation is
/// a failure of the rendering.
pub fn generate_new_rss(blacklist: &Blacklist, page: &str) -> (r: Result<String, MyError>)
    ensures
        page_feed(page@, blacklist@, r),
{
    match scrape(page) {
        Ok(posts) => {
            let r = render_posts(blacklist, posts);
            assert(rendered_posts(posts@, blacklist@, r));
            r
        },
        Err(e) => Err(e),
    }
}

} // verus!
