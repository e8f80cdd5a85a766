//! The feed document: what goes into it, and the call that writes it.

use crate::error::MyError;
use rss::validation::{Validate, ValidationError};
use rss::{ChannelBuilder, GuidBuilder, ImageBuilder, Item, ItemBuilder};
use vstd::prelude::*;
use vstd::string::*;

verus! {

/// `rss::validation::ValidationError`: why a channel failed validation.
/// Nothing is known of what it holds.
#[verifier::external_type_specification]
#[verifier::external_body]
pub struct ExValidationError(ValidationError);

/// One entry of a feed.
#[derive(Clone, Debug)]
pub struct FeedItem {
    pub title: String,
    pub description: String,
    pub link: String,
    /// What readers tell entries apart by.
    pub guid: String,
    /// Whether the identifier is an address that can be opened.
    pub guid_is_permalink: bool,
}

/// The icon of a feed.
#[derive(Clone, Debug)]
pub struct FeedImage {
    /// Where the picture is.
    pub url: String,
    /// What stands for the picture where it cannot be shown.
    pub title: String,
    /// Where the picture leads.
    pub link: String,
}

/// A feed: the channel's own fields and its entries, in order.
#[derive(Clone, Debug)]
pub struct Feed {
    pub title: String,
    pub link: String,
    pub description: String,
    pub icon: FeedImage,
    pub items: Vec<FeedItem>,
}

/// A feed entry as plain text fields.
#[verifier::ext_equal]
pub struct FeedItemView {
    pub title: Seq<char>,
    pub description: Seq<char>,
    pub link: Seq<char>,
    pub guid: Seq<char>,
    pub guid_is_permalink: bool,
}

/// The icon of a feed as plain text fields.
#[verifier::ext_equal]
pub struct FeedImageView {
    pub url: Seq<char>,
    pub title: Seq<char>,
    pub link: Seq<char>,
}

impl View for FeedImage {
    type V = FeedImageView;

    open spec fn view(&self) -> FeedImageView {
        FeedImageView { url: self.url@, title: self.title@, link: self.link@ }
    }
}

/// A feed as plain text fields.
#[verifier::ext_equal]
pub struct FeedView {
    pub title: Seq<char>,
    pub link: Seq<char>,
    pub description: Seq<char>,
    pub icon: FeedImageView,
    pub items: Seq<FeedItemView>,
}

impl View for FeedItem {
    type V = FeedItemView;

    open spec fn view(&self) -> FeedItemView {
        FeedItemView {
            title: self.title@,
            description: self.description@,
            link: self.link@,
            guid: self.guid@,
            guid_is_permalink: self.guid_is_permalink,
        }
    }
}

impl View for Feed {
    type V = FeedView;

    open spec fn view(&self) -> FeedView {
        FeedView {
            title: self.title@,
            link: self.link@,
            description: self.description@,
            icon: self.icon@,
            items: self.items@.map_values(|i: FeedItem| i@),
        }
    }
}

/// The identifier of an entry: its title followed by its link.
pub open spec fn item_guid(title: Seq<char>, link: Seq<char>) -> Seq<char> {
    title + link
}

/// The entry with the given title, body and link, and the identifier that
/// follows from them. The identifier is no address: it cannot be opened.
pub open spec fn feed_item(title: Seq<char>, description: Seq<char>, link: Seq<char>) -> FeedItemView {
    FeedItemView { title, description, link, guid: item_guid(title, link), guid_is_permalink: false }
}

/// The icon of a channel: the picture at `url`, under the channel's own title
/// and link.
pub open spec fn channel_icon(url: Seq<char>, title: Seq<char>, link: Seq<char>) -> FeedImageView {
    FeedImageView { url, title, link }
}

/// Whether the feed writer's validation takes `link` for an address. It asks
/// this of the channel's link, of the icon's link and address and of every
/// entry's link alike.
pub uninterp spec fn link_validates(link: Seq<char>) -> bool;

/// The markup that the feed writer produces for a feed.
pub uninterp spec fn channel_markup(feed: FeedView) -> Seq<char>;

/// A feed passes validation when each address in it does.
pub open spec fn feed_validates(feed: FeedView) -> bool {
    &&& link_validates(feed.link)
    &&& link_validates(feed.icon.link)
    &&& link_validates(feed.icon.url)
    &&& forall|i: int| 0 <= i < feed.items.len() ==> link_validates(#[trigger] feed.items[i].link)
}

impl FeedItem {
    /// Makes an entry; its identifier is the title followed by the link, and
    /// is marked as no address.
    pub fn new(title: String, description: String, link: String) -> (r: FeedItem)
        ensures
            r@ == feed_item(title@, description@, link@),
    {
        let mut guid = title.clone();
        guid.append(link.as_str());
        FeedItem { title, description, link, guid, guid_is_permalink: false }
    }
}

impl FeedImage {
    /// The icon of a channel: the picture at `url`, under the channel's own
    /// title and link.
    pub fn of_channel(url: &str, title: &str, link: &str) -> (r: FeedImage)
        ensures
            r@ == channel_icon(url@, title@, link@),
    {
        FeedImage {
            url: String::from_str(url),
            title: String::from_str(title),
            link: String::from_str(link),
        }
    }
}

/// Copies `feed` into a channel of `rss`, field for field, runs
/// `rss::validation::Validate::validate` on it and, where that passes, writes
/// it with the channel's `to_string`.
///
/// Claimed of `validate`: for a channel of this shape it fails exactly when
/// one of the addresses is refused, which are the channel's link, the icon's
/// link and address and each entry's link. Claimed of `to_string`: the text
/// depends on the feed's fields alone.
#[verifier::external_body]
pub(crate) fn render(feed: &Feed) -> (r: Result<String, ValidationError>)
    ensures
        r is Ok <==> {
            &&& link_validates(feed.link@)
            &&& link_validates(feed.icon.link@)
            &&& link_validates(feed.icon.url@)
            &&& forall|i: int| 0 <= i < feed.items.len() ==> link_validates(#[trigger] feed.items[i].link@)
        },
        r matches Ok(doc) ==> doc@ == channel_markup(feed@),
{
    let items: Vec<Item> = feed.items.iter().cloned().map(|i|
        ItemBuilder::default().title(i.title).description(i.description).link(i.link)
            .guid(GuidBuilder::default().value(i.guid).permalink(i.guid_is_permalink).build()).build()
    ).collect();
    let icon = &feed.icon;
    let channel = ChannelBuilder::default().title(&feed.title).link(&feed.link)
        .description(&feed.description)
        .image(Some(ImageBuilder::default().title(&icon.title).link(&icon.link).url(&icon.url).build()))
        .items(items).build();
    channel.validate()?;
    Ok(channel.to_string())
}

/// What rendering `feed` comes to: the markup where the feed passes
/// validation, a validation failure where it does not.
pub open spec fn rendered(feed: FeedView, r: Result<String, MyError>) -> bool {
    match r {
        Ok(doc) => feed_validates(feed) && doc@ == channel_markup(feed),
        Err(e) => !feed_validates(feed) && e is Validation,
    }
}

/// Validates and writes a feed. A feed that fails validation is not written.
pub fn validated_markup(feed: &Feed) -> (r: Result<String, ValidationError>)
    ensures
        r is Ok <==> feed_validates(feed@),
        r matches Ok(doc) ==> doc@ == channel_markup(feed@),
{
    let r = render(feed);
    proof {
        assert(feed@.items.len() == feed.items@.len());
        assert forall|i: int| 0 <= i < feed.items@.len() implies (#[trigger] feed@.items[i]).link
            == feed.items@[i].link@ by {}
        if feed_validates(feed@) {
            assert forall|i: int| 0 <= i < feed.items@.len() implies link_validates(
                (#[trigger] feed.items@[i]).link@,
            ) by {
                assert(link_validates(feed@.items[i].link));
            }
        }
    }
    r
}

/// A feed that fails validation is a failure of the request; it carries the
/// validator's words, which are what the validator's failure displays as.
pub fn validation_failure(e: ValidationError) -> (r: MyError)
    ensures
        r matches MyError::Validation(words) && to_string_from_display_ensures::<ValidationError>(
            &e,
            words,
        ),
{
    MyError::Validation(e.to_string())
}

/// Validates and writes a feed, with a failure of the request in place of the
/// validator's own.
pub fn write_feed(feed: &Feed) -> (r: Result<String, MyError>)
    ensures
        rendered(feed@, r),
{
    match validated_markup(feed) {
        Ok(doc) => Ok(doc),
        Err(e) => Err(validation_failure(e)),
    }
}

/// Two entries with one link and different titles are told apart, and so are
/// two entries with one title and different links.
pub proof fn guid_tells_entries_apart(title1: Seq<char>, link1: Seq<char>, title2: Seq<char>, link2: Seq<char>)
    ensures
        link1 == link2 && title1 != title2 ==> item_guid(title1, link1) != item_guid(title2, link2),
        title1 == title2 && link1 != link2 ==> item_guid(title1, link1) != item_guid(title2, link2),
{
    let g1 = item_guid(title1, link1);
    let g2 = item_guid(title2, link2);
    if g1 == g2 {
        assert(g1.len() == title1.len() + link1.len());
        assert(g2.len() == title2.len() + link2.len());
        if link1 == link2 {
            assert(title1.len() == title2.len());
            assert(title1 =~= g1.subrange(0, title1.len() as int));
            assert(title2 =~= g2.subrange(0, title2.len() as int));
        }
        if title1 == title2 {
            assert(link1.len() == link2.len());
            assert(link1 =~= g1.subrange(title1.len() as int, g1.len() as int));
            assert(link2 =~= g2.subrange(title2.len() as int, g2.len() as int));
        }
    }
}

} // verus!
