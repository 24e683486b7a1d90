use std::collections::BTreeMap;

use vstd::prelude::*;

use crate::text::{chars_of, string_from_chars};

verus! {

broadcast use {vstd::laws_cmp::group_laws_cmp, vstd::std_specs::btree::group_btree_axioms};

/// Whether a sampled event is logged, and how often its key has been seen.
#[derive(Debug, Clone, Copy, PartialEq, Eq, Structural)]
pub struct SampleDecision {
    pub should_log: bool,
    pub count: u64,
}

/// `count` is a multiple of `interval` (only zero is a multiple of zero).
pub open spec fn is_multiple(count: u64, interval: u64) -> bool {
    if interval == 0 {
        count == 0
    } else {
        count % interval == 0
    }
}

fn is_multiple_of(count: u64, interval: u64) -> (r: bool)
    ensures
        r == is_multiple(count, interval),
{
    if interval == 0 {
        count == 0
    } else {
        count % interval == 0
    }
}

/// The count after one more sighting: one more, stopping at the maximum.
pub open spec fn bumped(c: u64) -> u64 {
    if c == u64::MAX {
        u64::MAX
    } else {
        (c + 1) as u64
    }
}

/// Counts sightings per key and logs the first sighting and every
/// `interval`-th one after it.
pub struct Limiter {
    counts: BTreeMap<u64, u64>,
}

impl Limiter {
    /// Sighting counts per key; unseen keys are absent.
    pub closed spec fn view(&self) -> Map<u64, u64> {
        self.counts@
    }

    /// A limiter that has seen nothing.
    pub fn new() -> (l: Limiter)
        ensures
            l@ == Map::<u64, u64>::empty(),
    {
        Limiter { counts: BTreeMap::new() }
    }

    /// Counts one sighting of `key` and decides whether to log it: the first
    /// sighting and every sighting whose count is a multiple of `interval`
    /// are logged.
    pub fn sample(&mut self, key: u64, interval: u64) -> (d: SampleDecision)
        ensures
            d.count == bumped(if old(self)@.contains_key(key) {
                old(self)@[key]
            } else {
                0
            }),
            final(self)@ == old(self)@.insert(key, d.count),
            d.should_log == (d.count == 1 || is_multiple(d.count, interval)),
    {
        let previous: u64 = match self.counts.get(&key) {
            Some(c) => *c,
            None => 0,
        };
        let count = if previous == u64::MAX {
            u64::MAX
        } else {
            previous + 1
        };
        self.counts.insert(key, count);
        SampleDecision { should_log: count == 1 || is_multiple_of(count, interval), count }
    }
}

impl Default for Limiter {
    fn default() -> (l: Limiter)
        ensures
            l@ == Map::<u64, u64>::empty(),
    {
        Limiter::new()
    }
}

/// Sampling interval of the per-overlay frame diagnostics.
pub const DIAGNOSTIC_SAMPLE_INTERVAL: u64 = 600;

/// What a frame diagnostic line describes for one overlay swap chain.
#[derive(Debug, Clone, Copy, PartialEq, Eq, Structural)]
pub struct FrameDiagnosticKey {
    pub dxgi_format: u32,
    pub target_id: Option<u32>,
    pub width: u32,
    pub height: u32,
}

/// Logs a swap chain's frame diagnostics on its first frame, whenever what
/// they describe changes, and every `DIAGNOSTIC_SAMPLE_INTERVAL`-th frame.
pub struct PerOverlayDiagnosticLogLimiter {
    last_keys: BTreeMap<usize, FrameDiagnosticKey>,
    counts: BTreeMap<usize, u64>,
}

impl PerOverlayDiagnosticLogLimiter {
    /// Frames counted per swap chain.
    pub closed spec fn counts(&self) -> Map<usize, u64> {
        self.counts@
    }

    /// The last key logged per swap chain.
    pub closed spec fn last_keys(&self) -> Map<usize, FrameDiagnosticKey> {
        self.last_keys@
    }

    /// A limiter that has seen no frame.
    pub fn new() -> (l: PerOverlayDiagnosticLogLimiter)
        ensures
            l.counts() == Map::<usize, u64>::empty(),
            l.last_keys() == Map::<usize, FrameDiagnosticKey>::empty(),
    {
        PerOverlayDiagnosticLogLimiter { last_keys: BTreeMap::new(), counts: BTreeMap::new() }
    }

    /// Counts a frame of `overlay_swap_chain` described by `key` and decides
    /// whether to log it.
    pub fn should_log(&mut self, overlay_swap_chain: usize, key: FrameDiagnosticKey) -> (r: bool)
        ensures
            ({
                let count = bumped(
                    if old(self).counts().contains_key(overlay_swap_chain) {
                        old(self).counts()[overlay_swap_chain]
                    } else {
                        0
                    },
                );
                let changed = !old(self).last_keys().contains_key(overlay_swap_chain)
                    || old(self).last_keys()[overlay_swap_chain] != key;
                &&& final(self).counts() == old(self).counts().insert(overlay_swap_chain, count)
                &&& final(self).last_keys() == old(self).last_keys().insert(overlay_swap_chain, key)
                &&& r == (count == 1 || changed || is_multiple(count, DIAGNOSTIC_SAMPLE_INTERVAL))
            }),
    {
        let previous: u64 = match self.counts.get(&overlay_swap_chain) {
            Some(c) => *c,
            None => 0,
        };
        let count = if previous == u64::MAX {
            u64::MAX
        } else {
            previous + 1
        };
        self.counts.insert(overlay_swap_chain, count);
        let changed = match self.last_keys.get(&overlay_swap_chain) {
            None => true,
            Some(last) => *last != key,
        };
        if changed {
            self.last_keys.insert(overlay_swap_chain, key);
        } else {
            assert(self.last_keys@ =~= self.last_keys@.insert(overlay_swap_chain, key));
        }
        count == 1 || changed || is_multiple_of(count, DIAGNOSTIC_SAMPLE_INTERVAL)
    }
}

/// The escaped form of one character inside a quoted log value.
pub open spec fn escaped_char(c: char) -> Seq<char> {
    if c == '\\' {
        seq!['\\', '\\']
    } else if c == '"' {
        seq!['\\', '"']
    } else if c == '\n' {
        seq!['\\', 'n']
    } else if c == '\r' {
        seq!['\\', 'r']
    } else if c == '\t' {
        seq!['\\', 't']
    } else {
        seq![c]
    }
}

/// The escaped form of a text, character by character.
pub open spec fn escaped(s: Seq<char>) -> Seq<char>
    decreases s.len(),
{
    if s.len() == 0 {
        Seq::empty()
    } else {
        escaped(s.drop_last()) + escaped_char(s.last())
    }
}

/// A log value in double quotes, with backslash, quote, newline, carriage
/// return and tab escaped.
pub fn quoted(value: &str) -> (q: String)
    ensures
        q@ == seq!['"'] + escaped(value@) + seq!['"'],
{
    let chars = chars_of(value);
    let mut out: Vec<char> = Vec::new();
    out.push('"');
    let mut i: usize = 0;
    while i < chars.len()
        invariant
            i <= chars@.len(),
            chars@ == value@,
            out@ == seq!['"'] + escaped(chars@.subrange(0, i as int)),
        decreases chars@.len() - i,
    {
        let c = chars[i];
        if c == '\\' {
            out.push('\\');
            out.push('\\');
        } else if c == '"' {
            out.push('\\');
            out.push('"');
        } else if c == '\n' {
            out.push('\\');
            out.push('n');
        } else if c == '\r' {
            out.push('\\');
            out.push('r');
        } else if c == '\t' {
            out.push('\\');
            out.push('t');
        } else {
            out.push(c);
        }
        proof {
            assert(chars@.subrange(0, i + 1).drop_last() =~= chars@.subrange(0, i as int));
        }
        i = i + 1;
        assert(out@ =~= seq!['"'] + escaped(chars@.subrange(0, i as int)));
    }
    out.push('"');
    assert(chars@.subrange(0, i as int) =~= chars@);
    string_from_chars(&out)
}

} // verus!
