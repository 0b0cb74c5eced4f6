//! The search for the highest JPEG quality whose encoding fits a byte
//! budget: quality `max` is tried first, then the range `1..max` is bisected.
//!
//! The search is a state machine: it names the next quality to try, takes
//! the encoded size of that try, and ends with the chosen quality. Its laws
//! hold for any sizes the encoder may produce.
use vstd::prelude::*;

verus! {

/// The abstract state of a search.
pub struct SearchModel {
    pub max_quality: int,
    pub target: int,
    pub low: int,
    pub high: int,
    pub best: Option<int>,
    pub probing_max: bool,
}

/// `q` clamped into `1..=100`.
pub open spec fn clamp_quality(q: int) -> int {
    if q < 1 {
        1
    } else if q > 100 {
        100
    } else {
        q
    }
}

pub open spec fn initial_search(max_quality: int, target: int) -> SearchModel {
    SearchModel { max_quality, target, low: 1, high: max_quality - 1, best: None, probing_max: true }
}

/// The quality to encode next, or `None` when the search is over.
pub open spec fn next_probe(s: SearchModel) -> Option<int> {
    if s.probing_max {
        Some(s.max_quality)
    } else if s.low <= s.high {
        Some((s.low + s.high) / 2)
    } else {
        None
    }
}

/// The state after the probe of `s` encoded to `size` bytes.
pub open spec fn after_probe(s: SearchModel, size: int) -> SearchModel {
    let fits = size <= s.target;
    if s.probing_max {
        if fits {
            SearchModel {
                low: s.max_quality + 1,
                high: s.max_quality,
                best: Some(s.max_quality),
                probing_max: false,
                ..s
            }
        } else {
            SearchModel { probing_max: false, ..s }
        }
    } else {
        let mid = (s.low + s.high) / 2;
        if fits {
            SearchModel { low: mid + 1, best: Some(mid), ..s }
        } else {
            SearchModel { high: mid - 1, ..s }
        }
    }
}

pub open spec fn search_wf(s: SearchModel) -> bool {
    &&& 1 <= s.max_quality <= 100
    &&& 0 <= s.target
    &&& if s.probing_max {
        &&& s.low == 1
        &&& s.high == s.max_quality - 1
        &&& s.best is None
    } else {
        &&& 1 <= s.low
        &&& 0 <= s.high <= s.max_quality
        &&& s.low <= s.high + 1
        &&& s.best matches Some(b) ==> b == s.low - 1 && 1 <= b <= s.max_quality
        &&& s.best is None ==> s.low == 1
    }
}

/// Probes left at most: the measure by which the search ends.
pub open spec fn search_measure(s: SearchModel) -> int {
    if s.probing_max {
        s.max_quality + 1
    } else if s.low <= s.high {
        s.high - s.low + 1
    } else {
        0
    }
}

/// The quality a search in state `s` ends with, when quality `q` encodes to
/// `size(q)` bytes.
pub open spec fn search_outcome(s: SearchModel, size: spec_fn(int) -> int) -> Option<int>
    decreases search_measure(s),
    when search_wf(s)
{
    match next_probe(s) {
        None => s.best,
        Some(q) => {
            proof {
                lemma_probe_progress(s, size(q));
            }
            search_outcome(after_probe(s, size(q)), size)
        },
    }
}

/// The quality chosen under the cap `max_quality` and the budget `target`.
pub open spec fn quality_choice(size: spec_fn(int) -> int, target: int, max_quality: int) -> Option<int> {
    search_outcome(initial_search(max_quality, target), size)
}

/// Encoded size never decreases as quality rises within `1..=max_quality`.
pub open spec fn size_monotone(size: spec_fn(int) -> int, max_quality: int) -> bool {
    forall|a: int, b: int| 1 <= a <= b <= max_quality ==> #[trigger] size(a) <= #[trigger] size(b)
}

/// A probe keeps the state well formed and shortens the search.
pub proof fn lemma_probe_progress(s: SearchModel, size: int)
    requires
        search_wf(s),
        next_probe(s) is Some,
    ensures
        search_wf(after_probe(s, size)),
        0 <= search_measure(after_probe(s, size)) < search_measure(s),
        next_probe(s) matches Some(q) ==> 1 <= q <= s.max_quality,
{
}

/// What the search keeps knowing about the sizes it has seen.
pub open spec fn search_knows(s: SearchModel, size: spec_fn(int) -> int) -> bool {
    &&& s.best matches Some(b) ==> size(b) <= s.target
    &&& !s.probing_max && s.high < s.max_quality ==> size(s.high + 1) > s.target
}

proof fn lemma_outcome_sound(s: SearchModel, size: spec_fn(int) -> int)
    requires
        search_wf(s),
        search_knows(s, size),
    ensures
        match search_outcome(s, size) {
            Some(q) => 1 <= q <= s.max_quality && size(q) <= s.target && (q < s.max_quality
                ==> size(q + 1) > s.target),
            None => size(1) > s.target,
        },
    decreases search_measure(s),
{
    match next_probe(s) {
        None => {},
        Some(q) => {
            lemma_probe_progress(s, size(q));
            lemma_outcome_sound(after_probe(s, size(q)), size);
        },
    }
}

/// Law: the chosen quality lies in `1..=max_quality` and fits the budget,
/// and one step above it (when still under the cap) does not fit; when no
/// quality is chosen, quality 1 does not fit.
pub proof fn law_choice_fits(size: spec_fn(int) -> int, target: int, max_quality: int)
    requires
        1 <= max_quality <= 100,
        0 <= target,
    ensures
        match quality_choice(size, target, max_quality) {
            Some(q) => 1 <= q <= max_quality && size(q) <= target && (q < max_quality ==> size(q + 1)
                > target),
            None => size(1) > target,
        },
{
    lemma_outcome_sound(initial_search(max_quality, target), size);
}

/// Law: when sizes grow with quality, the search finds the highest quality
/// that fits, and finds one exactly when quality 1 fits.
pub proof fn law_choice_is_highest_fit(size: spec_fn(int) -> int, target: int, max_quality: int)
    requires
        1 <= max_quality <= 100,
        0 <= target,
        size_monotone(size, max_quality),
    ensures
        quality_choice(size, target, max_quality) is Some <==> size(1) <= target,
        quality_choice(size, target, max_quality) matches Some(q) ==> forall|p: int|
            1 <= p <= max_quality ==> (#[trigger] size(p) <= target <==> p <= q),
{
    law_choice_fits(size, target, max_quality);
    if let Some(q) = quality_choice(size, target, max_quality) {
        assert forall|p: int| 1 <= p <= max_quality implies (#[trigger] size(p) <= target <==> p <= q) by {
            if p <= q {
                assert(size(p) <= size(q));
            } else {
                assert(size(q + 1) <= size(p));
            }
        }
        assert(size(1) <= size(q));
    }
}

/// Law: taking the size of the next probe does not change where the search
/// ends; a driver that reports true sizes ends at `quality_choice`.
pub proof fn law_probe_keeps_outcome(s: SearchModel, size: spec_fn(int) -> int)
    requires
        search_wf(s),
        next_probe(s) is Some,
    ensures
        search_outcome(after_probe(s, size(next_probe(s)->0)), size) == search_outcome(s, size),
{
    lemma_probe_progress(s, size(next_probe(s)->0));
}

/// A running search (see `SearchModel`).
pub struct QualitySearch {
    max_quality: u8,
    target: u64,
    low: u8,
    high: u8,
    best: Option<u8>,
    probing_max: bool,
}

impl View for QualitySearch {
    type V = SearchModel;

    closed spec fn view(&self) -> SearchModel {
        SearchModel {
            max_quality: self.max_quality as int,
            target: self.target as int,
            low: self.low as int,
            high: self.high as int,
            best: match self.best {
                Some(b) => Some(b as int),
                None => None,
            },
            probing_max: self.probing_max,
        }
    }
}

impl QualitySearch {
    /// A search capped at `preferred_max_quality` clamped into `1..=100`.
    pub fn new(preferred_max_quality: u8, target: u64) -> (s: QualitySearch)
        ensures
            s@ == initial_search(clamp_quality(preferred_max_quality as int), target as int),
            search_wf(s@),
    {
        let max_quality: u8 = if preferred_max_quality < 1 {
            1
        } else if preferred_max_quality > 100 {
            100
        } else {
            preferred_max_quality
        };
        QualitySearch {
            max_quality,
            target,
            low: 1,
            high: max_quality - 1,
            best: None,
            probing_max: true,
        }
    }

    /// The quality to encode next, or `None` when the search is over.
    pub fn next_probe(&self) -> (r: Option<u8>)
        requires
            search_wf(self@),
        ensures
            match r {
                Some(q) => next_probe(self@) == Some(q as int),
                None => next_probe(self@) is None,
            },
    {
        if self.probing_max {
            Some(self.max_quality)
        } else if self.low <= self.high {
            Some(self.low + (self.high - self.low) / 2)
        } else {
            None
        }
    }

    /// Takes the encoded size of the probe just made.
    pub fn record(&mut self, size: u64)
        requires
            search_wf(old(self)@),
            next_probe(old(self)@) is Some,
        ensures
            final(self)@ == after_probe(old(self)@, size as int),
            search_wf(final(self)@),
            search_measure(final(self)@) < search_measure(old(self)@),
    {
        proof {
            lemma_probe_progress(self@, size as int);
        }
        let fits = size <= self.target;
        if self.probing_max {
            self.probing_max = false;
            if fits {
                self.low = self.max_quality + 1;
                self.high = self.max_quality;
                self.best = Some(self.max_quality);
            }
        } else {
            let mid = self.low + (self.high - self.low) / 2;
            if fits {
                self.low = mid + 1;
                self.best = Some(mid);
            } else {
                self.high = mid - 1;
            }
        }
    }

    /// The quality chosen so far.
    pub fn chosen(&self) -> (r: Option<u8>)
        ensures
            match r {
                Some(q) => self@.best == Some(q as int),
                None => self@.best is None,
            },
    {
        self.best
    }

    /// The byte budget of this search.
    pub fn target(&self) -> (r: u64)
        ensures
            r == self@.target,
    {
        self.target
    }
}

} // verus!
