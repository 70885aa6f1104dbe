//! Download progress of a package pull: the events the pull reports, and the
//! single aggregated bar that a package's layers are summed into.
use vstd::prelude::*;

verus! {

/// Events emitted during package pull/install operations to report progress.
///
/// These events are sent over a channel and can be consumed by CLI progress
/// bars or TUI progress displays.
#[derive(Debug, Clone)]
pub enum ProgressEvent {
    /// Manifest has been fetched from the registry.
    ManifestFetched {
        /// The number of layers in the manifest.
        layer_count: usize,
    },
    /// A layer download has started.
    LayerStarted {
        /// Zero-based index of this layer.
        index: usize,
        /// The content digest of the layer (e.g., "sha256:abc123...").
        digest: String,
        /// The expected total bytes, if known from the content-length header.
        total_bytes: Option<u64>,
    },
    /// Incremental byte progress for a layer download.
    LayerProgress {
        /// Zero-based index of this layer.
        index: usize,
        /// Cumulative bytes downloaded so far.
        bytes_downloaded: u64,
    },
    /// A layer has been fully downloaded.
    LayerDownloaded {
        /// Zero-based index of this layer.
        index: usize,
    },
    /// A layer has been written to the content-addressable store.
    LayerStored {
        /// Zero-based index of this layer.
        index: usize,
    },
    /// All layers have been installed successfully.
    InstallComplete,
}

/// A change to make to the aggregated progress bar.
#[derive(Debug, Clone, Copy, PartialEq, Eq, Structural)]
pub enum BarUpdate {
    /// Set the bar's length (the total bytes expected).
    SetLength(u64),
    /// Switch from the bytes-only style to the full bar style.
    UseProgressStyle,
    /// Set the bar's position (the bytes downloaded so far).
    SetPosition(u64),
}

/// Sum of a sequence of byte counts.
pub open spec fn byte_sum(s: Seq<u64>) -> int
    decreases s.len(),
{
    if s.len() == 0 {
        0
    } else {
        byte_sum(s.drop_last()) + s.last()
    }
}

/// `s` cut or padded with zeros to length `n`.
pub open spec fn resized(s: Seq<u64>, n: nat) -> Seq<u64> {
    if n <= s.len() {
        s.take(n as int)
    } else {
        s + Seq::new((n - s.len()) as nat, |i: int| 0u64)
    }
}

/// The state of the aggregated bar of one package.
pub struct AggregateView {
    /// Bytes downloaded per layer.
    pub layers: Seq<u64>,
    /// Sum of the known layer sizes.
    pub total: u64,
    /// Whether the full bar style is in use.
    pub upgraded: bool,
}

/// The state and bar updates after one progress event. `None` when the
/// event would overflow a byte count.
pub open spec fn aggregate_step(v: AggregateView, e: ProgressEvent) -> Option<(AggregateView, Seq<BarUpdate>)> {
    match e {
        ProgressEvent::ManifestFetched { layer_count } => Some(
            (AggregateView { layers: resized(v.layers, layer_count as nat), ..v }, Seq::empty()),
        ),
        ProgressEvent::LayerStarted { total_bytes, .. } => match total_bytes {
            Some(size) => if v.total + size > u64::MAX {
                None
            } else {
                let total = (v.total + size) as u64;
                Some(
                    (
                        AggregateView { total, upgraded: true, ..v },
                        if v.upgraded {
                            seq![BarUpdate::SetLength(total)]
                        } else {
                            seq![BarUpdate::SetLength(total), BarUpdate::UseProgressStyle]
                        },
                    ),
                )
            },
            None => Some((v, Seq::empty())),
        },
        ProgressEvent::LayerProgress { index, bytes_downloaded } => {
            let layers = if index < v.layers.len() {
                v.layers.update(index as int, bytes_downloaded)
            } else {
                v.layers
            };
            if byte_sum(layers) > u64::MAX {
                None
            } else {
                Some(
                    (
                        AggregateView { layers, ..v },
                        seq![BarUpdate::SetPosition(byte_sum(layers) as u64)],
                    ),
                )
            }
        },
        _ => Some((v, Seq::empty())),
    }
}

/// The aggregated progress bar of one package: all of its layer downloads
/// summed into one bar.
pub struct ProgressAggregate {
    layer_progress: Vec<u64>,
    total_bytes: u64,
    style_upgraded: bool,
}

impl View for ProgressAggregate {
    type V = AggregateView;

    closed spec fn view(&self) -> AggregateView {
        AggregateView {
            layers: self.layer_progress@,
            total: self.total_bytes,
            upgraded: self.style_upgraded,
        }
    }
}

impl ProgressAggregate {
    /// A bar with no layers, no known size, in the bytes-only style.
    pub fn new() -> (r: Self)
        ensures
            r@.layers.len() == 0,
            r@.total == 0,
            !r@.upgraded,
    {
        ProgressAggregate { layer_progress: Vec::new(), total_bytes: 0, style_upgraded: false }
    }

    /// Whether `event` can be applied without a byte count overflowing.
    pub fn accepts(&self, event: &ProgressEvent) -> (r: bool)
        ensures
            r == aggregate_step(self@, *event) is Some,
    {
        match event {
            ProgressEvent::LayerStarted { total_bytes: Some(size), .. } => self.total_bytes <= u64::MAX
                - *size,
            ProgressEvent::LayerProgress { index, bytes_downloaded } => {
                sum_with(&self.layer_progress, *index, *bytes_downloaded).is_some()
            },
            _ => true,
        }
    }

    /// Apply one progress event; returns the changes to make to the bar.
    pub fn apply(&mut self, event: ProgressEvent) -> (r: Vec<BarUpdate>)
        requires
            aggregate_step(old(self)@, event) is Some,
        ensures
            final(self)@ == (aggregate_step(old(self)@, event)->0).0,
            r@ == (aggregate_step(old(self)@, event)->0).1,
    {
        let mut out: Vec<BarUpdate> = Vec::new();
        match event {
            ProgressEvent::ManifestFetched { layer_count } => {
                let ghost before = self.layer_progress@;
                self.layer_progress.resize(layer_count, 0);
                proof {
                    let want = resized(before, layer_count as nat);
                    if layer_count as nat > before.len() {
                        assert forall|i: int| 0 <= i < want.len() implies self.layer_progress@[i]
                            == want[i] by {
                            if i >= before.len() {
                                assert(cloned::<u64>(0u64, self.layer_progress@[i]));
                            } else {
                                assert(self.layer_progress@.subrange(0, before.len() as int)[i]
                                    == before[i]);
                            }
                        }
                    }
                    assert(self.layer_progress@ =~= want);
                }
            },
            ProgressEvent::LayerStarted { total_bytes, .. } => {
                match total_bytes {
                    Some(size) => {
                        self.total_bytes = self.total_bytes + size;
                        out.push(BarUpdate::SetLength(self.total_bytes));
                        if !self.style_upgraded {
                            self.style_upgraded = true;
                            out.push(BarUpdate::UseProgressStyle);
                        }
                    },
                    None => {},
                }
            },
            ProgressEvent::LayerProgress { index, bytes_downloaded } => {
                if index < self.layer_progress.len() {
                    self.layer_progress.set(index, bytes_downloaded);
                }
                let downloaded = sum_all(&self.layer_progress);
                out.push(BarUpdate::SetPosition(downloaded));
            },
            _ => {},
        }
        proof {
            assert(out@ =~= (aggregate_step(old(self)@, event)->0).1);
        }
        out
    }
}

/// Sum of all of `v`, which fits in a `u64`.
pub fn sum_all(v: &Vec<u64>) -> (r: u64)
    requires
        byte_sum(v@) <= u64::MAX,
    ensures
        r == byte_sum(v@),
{
    let mut acc: u64 = 0;
    let mut i: usize = 0;
    while i < v.len()
        invariant
            i <= v.len(),
            acc == byte_sum(v@.take(i as int)),
            byte_sum(v@) <= u64::MAX,
        decreases v.len() - i,
    {
        assert(v@.take(i + 1).drop_last() =~= v@.take(i as int));
        proof {
            lemma_prefix_sum_le(v@, i + 1);
        }
        acc = acc + v[i];
        i = i + 1;
    }
    assert(v@.take(v.len() as int) =~= v@);
    acc
}

/// Sum of `v` with entry `index` (if it exists) replaced by `value`; `None`
/// when that sum does not fit in a `u64`.
fn sum_with(v: &Vec<u64>, index: usize, value: u64) -> (r: Option<u64>)
    ensures
        ({
            let s = if index < v@.len() {
                v@.update(index as int, value)
            } else {
                v@
            };
            match r {
                Some(x) => x == byte_sum(s),
                None => byte_sum(s) > u64::MAX,
            }
        }),
{
    let ghost s = if index < v@.len() {
        v@.update(index as int, value)
    } else {
        v@
    };
    let mut acc: u64 = 0;
    let mut i: usize = 0;
    while i < v.len()
        invariant
            i <= v.len(),
            s == (if index < v@.len() {
                v@.update(index as int, value)
            } else {
                v@
            }),
            s.len() == v@.len(),
            forall|k: int| 0 <= k < v@.len() ==> s[k] == (if k == index { value } else { v@[k] }),
            acc == byte_sum(s.take(i as int)),
        decreases v.len() - i,
    {
        assert(s.take(i + 1).drop_last() =~= s.take(i as int));
        let x = if i == index {
            value
        } else {
            v[i]
        };
        if acc > u64::MAX - x {
            proof {
                assert(s[i as int] == x);
                assert(byte_sum(s.take(i + 1)) == acc + x);
                lemma_prefix_sum_le(s, i + 1);
            }
            return None;
        }
        assert(s[i as int] == x);
        acc = acc + x;
        i = i + 1;
    }
    assert(s.take(v.len() as int) =~= s);
    Some(acc)
}

/// A prefix sums to no more than the whole.
pub proof fn lemma_prefix_sum_le(s: Seq<u64>, n: int)
    requires
        0 <= n <= s.len(),
    ensures
        byte_sum(s.take(n)) <= byte_sum(s),
    decreases s.len() - n,
{
    if n < s.len() {
        lemma_prefix_sum_le(s, n + 1);
        assert(s.take(n + 1).drop_last() =~= s.take(n));
    } else {
        assert(s.take(n) =~= s);
    }
}

/// Applies the events in order from `v`; `None` when one of them would
/// overflow a byte count. Gives the final state and all the bar updates.
pub open spec fn aggregate_run(v: AggregateView, es: Seq<ProgressEvent>) -> Option<(AggregateView, Seq<BarUpdate>)>
    decreases es.len(),
{
    if es.len() == 0 {
        Some((v, Seq::empty()))
    } else {
        match aggregate_step(v, es[0]) {
            None => None,
            Some((v1, u1)) => match aggregate_run(v1, es.drop_first()) {
                None => None,
                Some((v2, u2)) => Some((v2, u1 + u2)),
            },
        }
    }
}

/// The size an event announces for its layer, when it announces one.
pub open spec fn announced_size(e: ProgressEvent) -> Option<u64> {
    match e {
        ProgressEvent::LayerStarted { total_bytes, .. } => total_bytes,
        _ => None,
    }
}

/// Sum of the layer sizes that the events announce.
pub open spec fn announced_total(es: Seq<ProgressEvent>) -> int
    decreases es.len(),
{
    if es.len() == 0 {
        0
    } else {
        (match announced_size(es[0]) {
            Some(n) => n as int,
            None => 0,
        }) + announced_total(es.drop_first())
    }
}

/// Some event announces a layer size.
pub open spec fn any_size_announced(es: Seq<ProgressEvent>) -> bool {
    exists|i: int| 0 <= i < es.len() && (#[trigger] announced_size(es[i])) is Some
}

/// How many of the updates switch to the full bar style.
pub open spec fn style_switches(us: Seq<BarUpdate>) -> nat
    decreases us.len(),
{
    if us.len() == 0 {
        0
    } else {
        (if us[0] == BarUpdate::UseProgressStyle {
            1nat
        } else {
            0nat
        }) + style_switches(us.drop_first())
    }
}

proof fn lemma_style_switches_add(a: Seq<BarUpdate>, b: Seq<BarUpdate>)
    ensures
        style_switches(a + b) == style_switches(a) + style_switches(b),
    decreases a.len(),
{
    if a.len() > 0 {
        assert((a + b).drop_first() =~= a.drop_first() + b);
        lemma_style_switches_add(a.drop_first(), b);
    } else {
        assert(a + b =~= b);
    }
}

/// Aggregation law: over any run of events that fits the byte counts, the
/// bar's total is the starting total plus every announced layer size; the
/// full bar style is in use exactly when it was or some size was announced;
/// and the switch to that style is made at most once, only on the first
/// announced size.
pub proof fn lemma_aggregate_run(v: AggregateView, es: Seq<ProgressEvent>)
    requires
        aggregate_run(v, es) is Some,
    ensures
        (aggregate_run(v, es)->0).0.total == v.total + announced_total(es),
        (aggregate_run(v, es)->0).0.upgraded == (v.upgraded || any_size_announced(es)),
        style_switches((aggregate_run(v, es)->0).1) == (if !v.upgraded && any_size_announced(es) {
            1nat
        } else {
            0nat
        }),
    decreases es.len(),
{
    if es.len() > 0 {
        let (v1, u1) = aggregate_step(v, es[0])->0;
        let rest = es.drop_first();
        lemma_aggregate_run(v1, rest);
        let (v2, u2) = aggregate_run(v1, rest)->0;
        lemma_style_switches_add(u1, u2);
        assert(any_size_announced(es) == (announced_size(es[0]) is Some || any_size_announced(rest))) by {
            if any_size_announced(es) {
                let i = choose|i: int| 0 <= i < es.len() && (#[trigger] announced_size(es[i])) is Some;
                if i > 0 {
                    assert(rest[i - 1] == es[i]);
                }
            }
            if any_size_announced(rest) {
                let j = choose|j: int| 0 <= j < rest.len() && (#[trigger] announced_size(rest[j])) is Some;
                assert(es[j + 1] == rest[j]);
            }
        }
        match es[0] {
            ProgressEvent::LayerStarted { total_bytes: Some(n), .. } => {
                if v.upgraded {
                    assert(style_switches(u1) == 0) by {
                        reveal_with_fuel(style_switches, 2);
                    }
                } else {
                    assert(style_switches(u1) == 1) by {
                        reveal_with_fuel(style_switches, 3);
                    }
                }
            },
            ProgressEvent::LayerProgress { .. } => {
                assert(style_switches(u1) == 0) by {
                    reveal_with_fuel(style_switches, 2);
                }
            },
            _ => {
                assert(style_switches(u1) == 0);
            },
        }
    } else {
        assert(!any_size_announced(es));
    }
}

/// Position law: after a progress event, the bar's position is the sum of
/// the bytes downloaded over all layers.
pub proof fn lemma_position_is_layer_sum(v: AggregateView, index: usize, bytes: u64)
    requires
        aggregate_step(v, ProgressEvent::LayerProgress { index, bytes_downloaded: bytes }) is Some,
    ensures
        ({
            let (w, us) = aggregate_step(v, ProgressEvent::LayerProgress { index, bytes_downloaded: bytes })->0;
            &&& us == seq![BarUpdate::SetPosition(byte_sum(w.layers) as u64)]
            &&& index < v.layers.len() ==> w.layers[index as int] == bytes
            &&& w.layers.len() == v.layers.len()
            &&& w.total == v.total
        }),
{
}

} // verus!
