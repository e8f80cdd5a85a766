//! The first source: a JSON list of the videos that are watched right now.

use vstd::prelude::*;

pub mod rss_generator;

verus! {

/// The upstream's answer: the records, in its order.
#[derive(Clone, Debug)]
pub struct Bili {
    pub data: Vec<BiliData>,
}

/// One record of the upstream's answer.
#[derive(Clone, Debug)]
pub struct BiliData {
    /// category
    pub tname: String,
    pub pic: String,
    pub title: String,
    pub owner: Owner,
    pub desc: String,
    pub stat: Stat,
    pub short_link: String,
}

#[derive(Clone, Debug)]
pub struct Owner {
    pub name: String,
}

#[derive(Clone, Copy, Debug)]
pub struct Stat {
    pub view: u32,
    pub danmaku: u32,
}

impl BiliData {
    /// Who published the record: always known for this source.
    pub open spec fn author(&self) -> Option<Seq<char>> {
        Some(self.owner.name@)
    }

    /// The categories of the record: this source gives exactly one.
    pub open spec fn categories(&self) -> Seq<Seq<char>> {
        seq![self.tname@]
    }
}

} // verus!
