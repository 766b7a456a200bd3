use vstd::prelude::*;

verus! {

/// Longest pause, in milliseconds, between two clicks of a double click.
pub const DOUBLE_CLICK_WINDOW_MS: u64 = 500;

/// What a click means once the previous one is taken into account.
#[derive(Debug, Clone, Copy, PartialEq, Eq, Structural)]
pub enum Gesture {
    Single,
    Double,
}

/// The most recent single click of a surface: which item, and when
/// (milliseconds on the caller's clock).
#[derive(Debug)]
pub struct ClickRecord {
    pub item_id: String,
    pub at_ms: u64,
}

/// Milliseconds from `then` to `now`; zero when the clock reads earlier.
pub open spec fn elapsed(then: u64, now: u64) -> u64 {
    if now >= then { (now - then) as u64 } else { 0 }
}

/// Whether a click on `item` at `now` completes a double click with `last`.
pub open spec fn completes_double(last: Option<ClickRecord>, item: Seq<char>, now: u64) -> bool {
    match last {
        Some(rec) => rec.item_id@ == item && elapsed(rec.at_ms, now) <= DOUBLE_CLICK_WINDOW_MS,
        None => false,
    }
}

/// Turns the clicks of one surface (a grid, a tree, a list, a board) into
/// single and double clicks. Each surface owns its own disambiguator, keyed by
/// stable item ids.
#[derive(Debug)]
pub struct ClickDisambiguator {
    pub last: Option<ClickRecord>,
}

impl ClickDisambiguator {
    pub fn new() -> (r: ClickDisambiguator)
        ensures
            r.last is None,
    {
        ClickDisambiguator { last: None }
    }

    /// Registers a click on `item_id` at `now_ms`. A click on the item of the
    /// recorded click, at most `DOUBLE_CLICK_WINDOW_MS` later, is a double
    /// click and clears the record; any other click is single and becomes the
    /// record.
    pub fn register(&mut self, item_id: String, now_ms: u64) -> (g: Gesture)
        ensures
            completes_double(old(self).last, item_id@, now_ms) ==> g == Gesture::Double
                && final(self).last is None,
            !completes_double(old(self).last, item_id@, now_ms) ==> g == Gesture::Single
                && final(self).last == Some(ClickRecord { item_id: item_id, at_ms: now_ms }),
    {
        let double = match &self.last {
            Some(rec) => {
                let gap = if now_ms >= rec.at_ms { now_ms - rec.at_ms } else { 0 };
                rec.item_id == item_id && gap <= DOUBLE_CLICK_WINDOW_MS
            },
            None => false,
        };
        if double {
            self.last = None;
            Gesture::Double
        } else {
            self.last = Some(ClickRecord { item_id, at_ms: now_ms });
            Gesture::Single
        }
    }
}

} // verus!
