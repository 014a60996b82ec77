//! The market that was fetched last. Windows follow each other, so that one market at a time is
//! all that is worth keeping.

use vstd::prelude::*;
use crate::text::{copy_opt_text, copy_texts, opt_text, same_text, texts};

verus! {

/// What is known of a market.
#[derive(Debug)]
pub struct MarketInfo {
    /// The tokens, the one for up first; none where the market lists none.
    pub token_ids: Option<Vec<String>>,
    /// The condition that its trades are found by.
    pub condition_id: Option<String>,
}

/// The mathematical value of a [`MarketInfo`].
pub struct MarketInfoView {
    pub token_ids: Option<Seq<Seq<char>>>,
    pub condition_id: Option<Seq<char>>,
}

impl View for MarketInfo {
    type V = MarketInfoView;

    open spec fn view(&self) -> MarketInfoView {
        MarketInfoView {
            token_ids: match self.token_ids {
                Some(ids) => Some(texts(ids@)),
                None => None,
            },
            condition_id: opt_text(self.condition_id),
        }
    }
}

impl MarketInfo {
    /// The tokens; an empty list where the market lists none.
    pub fn tokens(&self) -> (r: Vec<String>)
        ensures
            texts(r@) == (match self@.token_ids {
                Some(ids) => ids,
                None => Seq::empty(),
            }),
    {
        match &self.token_ids {
            Some(ids) => copy_texts(ids),
            None => {
                let none: Vec<String> = Vec::new();
                assert(texts(none@) =~= Seq::<Seq<char>>::empty());
                none
            },
        }
    }
}

/// The cache, by slug.
pub struct MarketCache {
    entry: Option<(String, MarketInfo)>,
}

/// A cache that holds one market.
pub open spec fn only(slug: Seq<char>, info: MarketInfoView) -> Map<Seq<char>, MarketInfoView> {
    Map::empty().insert(slug, info)
}

impl View for MarketCache {
    type V = Map<Seq<char>, MarketInfoView>;

    closed spec fn view(&self) -> Map<Seq<char>, MarketInfoView> {
        match self.entry {
            Some((slug, info)) => only(slug@, info@),
            None => Map::empty(),
        }
    }
}

impl MarketCache {
    /// An empty cache.
    pub fn new() -> (r: Self)
        ensures
            r@ == Map::<Seq<char>, MarketInfoView>::empty(),
    {
        MarketCache { entry: None }
    }

    /// What is known of a market; none where it has to be fetched.
    pub fn get(&self, slug: &str) -> (r: Option<&MarketInfo>)
        ensures
            r is Some <==> self@.contains_key(slug@),
            r is Some ==> r->0@ == self@[slug@],
    {
        match &self.entry {
            Some((known, info)) => {
                if same_text(known.as_str(), slug) {
                    Some(info)
                } else {
                    None
                }
            },
            None => None,
        }
    }

    /// The condition of a market, where the market and its condition are known.
    pub fn condition(&self, slug: &str) -> (r: Option<String>)
        ensures
            opt_text(r) == (if self@.contains_key(slug@) {
                self@[slug@].condition_id
            } else {
                None
            }),
    {
        match self.get(slug) {
            Some(info) => copy_opt_text(&info.condition_id),
            None => None,
        }
    }

    /// Keeps a market that was fetched, in place of all others.
    pub fn store(&mut self, slug: String, info: MarketInfo)
        ensures
            final(self)@ == only(slug@, info@),
    {
        self.entry = Some((slug, info));
    }
}

/// A market that was just stored is found as it was stored, and no other market is.
pub proof fn law_last_market_only(slug: Seq<char>, info: MarketInfoView, other: Seq<char>)
    ensures
        only(slug, info).contains_key(other) <==> other == slug,
        only(slug, info)[slug] == info,
{
}

} // verus!
