//! `wp_content_type_v1`: the client's own word on what a surface is drawing.
//!
//! Nothing acts on the hint yet: the encoder's tuning is fixed at session start, so there is
//! no knob it could turn. What it is good for now is learning whether any real application
//! ever says so, which means logging it — and a surface commits at the frame rate, so only a
//! change is news, including the change back to `none`, which is how an application says its
//! video stopped. A surface that never declared anything and one that declared `none` mean
//! the same thing, and neither is worth a line.

use vstd::prelude::*;
use std::collections::HashMap;

verus! {

broadcast use vstd::std_specs::hash::group_hash_axioms;

/// What a surface says it is drawing.
#[derive(Debug, Clone, Copy, PartialEq, Eq, Structural)]
pub enum ContentType {
    /// The protocol's `none`: nothing in particular.
    Unspecified,
    Photo,
    Video,
    Game,
}

/// The content type last logged for each surface, by the surface's protocol id.
pub struct ContentTypeLog {
    last: HashMap<u64, ContentType>,
}

impl View for ContentTypeLog {
    type V = Map<u64, ContentType>;

    closed spec fn view(&self) -> Map<u64, ContentType> {
        self.last@
    }
}

/// Whether a surface's current content type is news: it differs from the one last logged, or,
/// for a surface never logged, it is not `none`.
pub open spec fn is_news(last: Map<u64, ContentType>, surface: u64, current: ContentType) -> bool {
    if last.contains_key(surface) {
        last[surface] != current
    } else {
        current != ContentType::Unspecified
    }
}

impl ContentTypeLog {
    /// Nothing logged yet.
    pub fn new() -> (log: Self)
        ensures
            log@ == Map::<u64, ContentType>::empty(),
    {
        ContentTypeLog { last: HashMap::new() }
    }

    /// Forget every surface, as a session ends.
    pub fn clear(&mut self)
        ensures
            final(self)@ == Map::<u64, ContentType>::empty(),
    {
        self.last.clear();
    }

    /// A surface committed with content type `current`: whether that is news to log, and if
    /// so it becomes the surface's last logged type.
    pub fn observe(&mut self, surface: u64, current: ContentType) -> (news: bool)
        ensures
            news == is_news(old(self)@, surface, current),
            final(self)@ == (if news { old(self)@.insert(surface, current) } else { old(self)@ }),
    {
        let news = match self.last.get(&surface) {
            Some(prev) => *prev != current,
            None => current != ContentType::Unspecified,
        };
        if news {
            self.last.insert(surface, current);
        }
        news
    }
}

/// A surface that keeps committing the same content type is logged at most once: right after
/// an observation, the same observation is never news.
pub proof fn law_a_repeated_type_is_not_news(last: Map<u64, ContentType>, surface: u64, current: ContentType)
    ensures
        !is_news(
            if is_news(last, surface, current) { last.insert(surface, current) } else { last },
            surface,
            current,
        ),
{
}

} // verus!
