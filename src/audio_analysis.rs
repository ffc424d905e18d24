//! Onset detection over a stream of log-magnitude spectra.
//!
//! Spectrum bins and novelty values are fixed-point numbers in micro-units:
//! a log-compressed magnitude of `1.5` is the bin value `1_500_000`.
use std::collections::VecDeque;
use vstd::prelude::*;

verus! {

/// Number of novelty points in the trailing window that sets the baseline.
pub const WINDOW: usize = 128;

/// Distance above the local average, in micro-units, that a novelty point
/// must reach to count as an onset (`10.0`).
pub const THRESHOLD: u64 = 10_000_000;

/// Largest number of bins that one spectrum frame may hold.
pub const MAX_BINS: usize = 16_777_216;

/// Largest novelty point: every one of `MAX_BINS` bins rising by `u32::MAX`.
pub const MAX_NOVELTY: u64 = 16_777_216 * 4_294_967_295;

/// How much one bin rose from the previous frame to the newest; a fall counts as zero.
pub open spec fn gain(prev: u32, new: u32) -> int {
    if new > prev {
        new - prev
    } else {
        0
    }
}

/// Half-wave rectified flux over the first `n` bins.
pub open spec fn flux_upto(prev: Seq<u32>, new: Seq<u32>, n: int) -> int
    decreases n,
{
    if n <= 0 {
        0
    } else {
        flux_upto(prev, new, n - 1) + gain(prev[n - 1], new[n - 1])
    }
}

/// Number of bins that both frames hold.
pub open spec fn common_bins(prev: Seq<u32>, new: Seq<u32>) -> int {
    if prev.len() <= new.len() {
        prev.len() as int
    } else {
        new.len() as int
    }
}

/// Spectral flux from `prev` to `new`: the sum of the rises of all shared bins.
pub open spec fn flux(prev: Seq<u32>, new: Seq<u32>) -> int {
    flux_upto(prev, new, common_bins(prev, new))
}

/// Sum of a sequence of novelty points.
pub open spec fn sum(s: Seq<int>) -> int
    decreases s.len(),
{
    if s.len() == 0 {
        0
    } else {
        sum(s.drop_last()) + s.last()
    }
}

/// Integer mean of the novelty points (zero for none).
pub open spec fn local_average(s: Seq<int>) -> int {
    if s.len() == 0 {
        0
    } else {
        sum(s) / (s.len() as int)
    }
}

/// A novelty point with the average taken off, or zero where it stays below the threshold.
pub open spec fn clamp(point: int, average: int) -> int {
    if point - average < THRESHOLD {
        0
    } else {
        point - average
    }
}

/// The normalised series of a window of novelty points, in the window's order.
pub open spec fn normalise(s: Seq<int>) -> Seq<int> {
    s.map_values(|p: int| clamp(p, local_average(s)))
}

/// Every value is zero or at least the threshold.
pub open spec fn clamped(s: Seq<int>) -> bool {
    forall|i: int| 0 <= i < s.len() ==> #[trigger] s[i] == 0 || s[i] >= THRESHOLD
}

/// What an `AudioHistory` holds, newest entry first in each sequence.
pub ghost struct HistoryView {
    pub spectrum: Seq<Seq<u32>>,
    pub novelty: Seq<int>,
    pub normalised_novelty: Seq<int>,
    pub last_peak: int,
}

impl HistoryView {
    /// The history before any audio arrived.
    pub open spec fn empty() -> HistoryView {
        HistoryView {
            spectrum: Seq::empty(),
            novelty: Seq::empty(),
            normalised_novelty: Seq::empty(),
            last_peak: 0,
        }
    }

    /// The history after one more spectrum frame.
    pub open spec fn update(self, frame: Seq<u32>) -> HistoryView {
        let spectrum = seq![frame] + self.spectrum;
        if spectrum.len() < 2 {
            HistoryView { spectrum, ..self }
        } else {
            let novelty = seq![flux(spectrum[1], spectrum[0])] + self.novelty;
            if novelty.len() < WINDOW {
                HistoryView { spectrum: spectrum.drop_last(), novelty, ..self }
            } else {
                HistoryView {
                    spectrum: spectrum.drop_last(),
                    novelty: novelty.drop_last(),
                    normalised_novelty: normalise(novelty),
                    ..self
                }
            }
        }
    }

    /// The history after the frames, oldest first.
    pub open spec fn feed(self, frames: Seq<Seq<u32>>) -> HistoryView
        decreases frames.len(),
    {
        if frames.len() == 0 {
            self
        } else {
            self.feed(frames.drop_last()).update(frames.last())
        }
    }

    /// The history after a peak check: an onset becomes the last peak.
    pub open spec fn after_peak(self) -> HistoryView {
        match self.peak() {
            Some(v) => HistoryView { last_peak: v, ..self },
            None => self,
        }
    }

    /// What holds between updates of any history that started empty.
    pub open spec fn settled(self) -> bool {
        &&& self.spectrum.len() <= 1
        &&& self.novelty.len() < WINDOW
        &&& (self.normalised_novelty.len() == 0 || self.normalised_novelty.len() == WINDOW)
        &&& clamped(self.normalised_novelty)
    }

    /// The onset that the newest normalised novelty value reports, if any.
    pub open spec fn peak(self) -> Option<int> {
        if self.normalised_novelty.len() > 0 && self.normalised_novelty[0] > 0 {
            Some(self.normalised_novelty[0])
        } else {
            None
        }
    }
}

/// Rolling spectra and novelty of the audio stream, newest entry at the front.
pub struct AudioHistory {
    pub spectrum: VecDeque<Vec<u32>>,
    pub novelty: VecDeque<u64>,
    pub normalised_novelty: VecDeque<u64>,
    pub last_peak: u64,
}

impl View for AudioHistory {
    type V = HistoryView;

    open spec fn view(&self) -> HistoryView {
        HistoryView {
            spectrum: self.spectrum@.map_values(|f: Vec<u32>| f@),
            novelty: self.novelty@.map_values(|p: u64| p as int),
            normalised_novelty: self.normalised_novelty@.map_values(|p: u64| p as int),
            last_peak: self.last_peak as int,
        }
    }
}

impl AudioHistory {
    /// Between updates at most one spectrum is kept, the novelty window has
    /// room for one more point, and every point is in range.
    pub open spec fn wf(&self) -> bool {
        &&& self.spectrum@.len() <= 1
        &&& self.novelty@.len() < WINDOW
        &&& forall|i: int| 0 <= i < self.novelty@.len() ==> self.novelty@[i] <= MAX_NOVELTY
    }

    /// An empty history.
    pub fn new() -> (h: AudioHistory)
        ensures
            h.wf(),
            h@ == HistoryView::empty(),
    {
        let h = AudioHistory {
            spectrum: VecDeque::new(),
            novelty: VecDeque::new(),
            normalised_novelty: VecDeque::new(),
            last_peak: 0,
        };
        assert(h@.spectrum =~= Seq::empty());
        assert(h@.novelty =~= Seq::empty());
        assert(h@.normalised_novelty =~= Seq::empty());
        h
    }
}

/// Spectral flux from the previous frame to the newest one.
pub fn spectral_flux(prev: &Vec<u32>, new: &Vec<u32>) -> (r: u64)
    requires
        new@.len() <= MAX_BINS,
    ensures
        r == flux(prev@, new@),
        r <= MAX_NOVELTY,
{
    let n: usize = if prev.len() <= new.len() {
        prev.len()
    } else {
        new.len()
    };
    let mut total: u64 = 0;
    let mut i: usize = 0;
    while i < n
        invariant
            n == common_bins(prev@, new@),
            n <= MAX_BINS,
            i <= n,
            total == flux_upto(prev@, new@, i as int),
            total <= i * 4_294_967_295,
        decreases n - i,
    {
        proof {
            assert((i + 1) * 4_294_967_295 <= MAX_BINS * 4_294_967_295) by (nonlinear_arith)
                requires
                    i + 1 <= MAX_BINS,
            ;
        }
        if new[i] > prev[i] {
            total = total + (new[i] - prev[i]) as u64;
        }
        i = i + 1;
    }
    proof {
        assert(n * 4_294_967_295 <= MAX_BINS * 4_294_967_295) by (nonlinear_arith)
            requires
                n <= MAX_BINS,
        ;
    }
    total
}

/// The sum of the first `i + 1` points is the sum of the first `i` plus point `i`.
proof fn lemma_sum_take_step(s: Seq<int>, i: int)
    requires
        0 <= i < s.len(),
    ensures
        sum(s.take(i + 1)) == sum(s.take(i)) + s[i],
{
    assert(s.take(i + 1).drop_last() =~= s.take(i));
}

/// Points that are each at most `bound` sum to at most `len * bound`.
proof fn lemma_sum_bounded(s: Seq<int>, bound: int)
    requires
        forall|i: int| 0 <= i < s.len() ==> 0 <= #[trigger] s[i] <= bound,
    ensures
        0 <= sum(s) <= s.len() * bound,
    decreases s.len(),
{
    if s.len() > 0 {
        let init = s.drop_last();
        assert forall|i: int| 0 <= i < init.len() implies 0 <= #[trigger] init[i] <= bound by {
            assert(init[i] == s[i]);
        }
        lemma_sum_bounded(init, bound);
        assert(0 <= s[s.len() - 1] <= bound);
        assert(sum(s) == sum(init) + s[s.len() - 1]);
        assert(init.len() * bound + bound == s.len() * bound) by (nonlinear_arith)
            requires
                init.len() + 1 == s.len(),
        ;
    } else {
        assert(s.len() * bound == 0) by (nonlinear_arith)
            requires
                s.len() == 0,
        ;
    }
}

/// Sum of the novelty window.
fn window_sum(novelty: &VecDeque<u64>) -> (r: u64)
    requires
        novelty@.len() <= WINDOW,
        forall|i: int| 0 <= i < novelty@.len() ==> novelty@[i] <= MAX_NOVELTY,
    ensures
        r == sum(novelty@.map_values(|p: u64| p as int)),
{
    let ghost s = novelty@.map_values(|p: u64| p as int);
    let mut total: u64 = 0;
    let mut i: usize = 0;
    while i < novelty.len()
        invariant
            s == novelty@.map_values(|p: u64| p as int),
            novelty@.len() <= WINDOW,
            forall|j: int| 0 <= j < novelty@.len() ==> novelty@[j] <= MAX_NOVELTY,
            i <= novelty@.len(),
            total == sum(s.take(i as int)),
        decreases novelty@.len() - i,
    {
        proof {
            lemma_sum_take_step(s, i as int);
            lemma_sum_bounded(s.take(i as int + 1), MAX_NOVELTY as int);
            assert((i + 1) * MAX_NOVELTY <= WINDOW * MAX_NOVELTY) by (nonlinear_arith)
                requires
                    i + 1 <= WINDOW,
            ;
        }
        total = total + novelty[i];
        i = i + 1;
    }
    assert(s.take(i as int) =~= s);
    total
}

/// Takes one log-magnitude spectrum frame into the history: the frame's
/// flux against the previous frame becomes the newest novelty point, and once
/// the window is full the normalised series is rebuilt and the oldest point
/// leaves.
pub fn calculate_novelty_curve(frame: Vec<u32>, history: &mut AudioHistory)
    requires
        old(history).wf(),
        frame@.len() <= MAX_BINS,
    ensures
        final(history).wf(),
        final(history)@ == old(history)@.update(frame@),
{
    let ghost before = history@;
    history.spectrum.push_front(frame);
    assert(history@.spectrum =~= seq![frame@] + before.spectrum);
    if history.spectrum.len() < 2 {
        assert(history@ == before.update(frame@));
        return;
    }
    let point = spectral_flux(&history.spectrum[1], &history.spectrum[0]);
    history.spectrum.pop_back();
    history.novelty.push_front(point);
    let ghost spectrum = seq![frame@] + before.spectrum;
    let ghost window = seq![point as int] + before.novelty;
    assert(history@.spectrum =~= spectrum.drop_last());
    assert(history@.novelty =~= window);
    if history.novelty.len() < WINDOW {
        assert(history@ == before.update(frame@));
        return;
    }
    let total = window_sum(&history.novelty);
    let average = total / (history.novelty.len() as u64);
    assert(average == local_average(window));
    history.normalised_novelty.clear();
    let mut i: usize = 0;
    while i < history.novelty.len()
        invariant
            history@.spectrum == spectrum.drop_last(),
            history@.novelty == window,
            history.novelty@.len() == WINDOW,
            history.last_peak == old(history).last_peak,
            forall|j: int| 0 <= j < history.novelty@.len() ==> history.novelty@[j] <= MAX_NOVELTY,
            average == local_average(window),
            i <= history.novelty@.len(),
            history.normalised_novelty@.len() == i,
            forall|j: int|
                0 <= j < i ==> history.normalised_novelty@[j] as int == clamp(
                    window[j],
                    average as int,
                ),
        decreases history.novelty@.len() - i,
    {
        let p = history.novelty[i];
        let value: u64 = if p >= average && p - average >= THRESHOLD {
            p - average
        } else {
            0
        };
        history.normalised_novelty.push_back(value);
        i = i + 1;
    }
    history.novelty.pop_back();
    assert(history@.normalised_novelty =~= normalise(window));
    assert(history@.novelty =~= window.drop_last());
    assert(history@ == before.update(frame@));
}

/// Reports an onset when the newest normalised novelty value is above zero,
/// and records that value as the last peak.
pub fn peak_detection(history: &mut AudioHistory) -> (r: Option<u64>)
    ensures
        old(history).wf() ==> final(history).wf(),
        r is Some <==> old(history)@.peak() is Some,
        r is Some ==> old(history)@.peak() == Some(r->0 as int),
        final(history)@ == old(history)@.after_peak(),
{
    if history.normalised_novelty.len() > 0 && history.normalised_novelty[0] > 0 {
        let v = history.normalised_novelty[0];
        history.last_peak = v;
        assert(history@.spectrum =~= old(history)@.spectrum);
        assert(history@.novelty =~= old(history)@.novelty);
        assert(history@.normalised_novelty =~= old(history)@.normalised_novelty);
        Some(v)
    } else {
        None
    }
}

/// With no bin rising, the first `n` bins add no flux.
proof fn lemma_flux_upto_zero(prev: Seq<u32>, new: Seq<u32>, n: int)
    requires
        n <= prev.len(),
        n <= new.len(),
        forall|i: int| 0 <= i < n ==> #[trigger] new[i] <= prev[i],
    ensures
        flux_upto(prev, new, n) == 0,
    decreases n,
{
    if n > 0 {
        lemma_flux_upto_zero(prev, new, n - 1);
    }
}

/// Half-wave rectification: when no bin of the new frame exceeds the same bin
/// of the previous frame, the novelty point of that frame is exactly zero.
pub proof fn lemma_falling_spectrum_adds_no_novelty(h: HistoryView, frame: Seq<u32>)
    requires
        h.spectrum.len() >= 1,
        forall|i: int| 0 <= i < common_bins(h.spectrum[0], frame) ==> #[trigger] frame[i] <= h.spectrum[0][i],
    ensures
        flux(h.spectrum[0], frame) == 0,
        h.update(frame).novelty[0] == 0,
{
    lemma_flux_upto_zero(h.spectrum[0], frame, common_bins(h.spectrum[0], frame));
    let spectrum = seq![frame] + h.spectrum;
    assert(spectrum[1] == h.spectrum[0]);
    assert(spectrum[0] == frame);
}

/// Threshold clamp: each normalised value is zero, or it is the novelty point's
/// distance above the local average and that distance reaches the threshold.
pub proof fn lemma_threshold_clamp(window: Seq<int>)
    ensures
        clamped(normalise(window)),
        forall|i: int|
            0 <= i < window.len() ==> #[trigger] normalise(window)[i] == 0 || (normalise(window)[i]
                >= THRESHOLD && normalise(window)[i] == window[i] - local_average(window)),
{
}

/// One update keeps what holds between updates.
proof fn lemma_update_settled(h: HistoryView, frame: Seq<u32>)
    requires
        h.settled(),
    ensures
        h.update(frame).settled(),
{
    let spectrum = seq![frame] + h.spectrum;
    if spectrum.len() >= 2 {
        let novelty = seq![flux(spectrum[1], spectrum[0])] + h.novelty;
        if novelty.len() >= WINDOW {
            lemma_threshold_clamp(novelty);
        }
    }
}

/// Any frames fed to a settled history leave it settled.
proof fn lemma_feed_settled(h: HistoryView, frames: Seq<Seq<u32>>)
    requires
        h.settled(),
    ensures
        h.feed(frames).settled(),
    decreases frames.len(),
{
    if frames.len() > 0 {
        lemma_feed_settled(h, frames.drop_last());
        lemma_update_settled(h.feed(frames.drop_last()), frames.last());
    }
}

/// Sliding window: whatever frames arrive, at most `WINDOW` novelty points
/// and at most two spectra are held, and every normalised value is zero or
/// at least the threshold.
pub proof fn lemma_sliding_window(frames: Seq<Seq<u32>>)
    ensures
        HistoryView::empty().feed(frames).novelty.len() <= WINDOW,
        HistoryView::empty().feed(frames).spectrum.len() <= 2,
        clamped(HistoryView::empty().feed(frames).normalised_novelty),
{
    lemma_feed_settled(HistoryView::empty(), frames);
}

/// The frame count fixes the length of each buffer during warm-up.
proof fn lemma_warm_up_lengths(frames: Seq<Seq<u32>>)
    requires
        frames.len() <= WINDOW,
    ensures
        HistoryView::empty().feed(frames).spectrum.len() == if frames.len() == 0 { 0int } else { 1int },
        HistoryView::empty().feed(frames).novelty.len() == if frames.len() == 0 { 0int } else { frames.len() - 1 },
        HistoryView::empty().feed(frames).normalised_novelty.len() == 0,
    decreases frames.len(),
{
    if frames.len() > 0 {
        lemma_warm_up_lengths(frames.drop_last());
    }
}

/// Warm-up: until more than `WINDOW` frames have arrived (so in particular
/// for fewer than two), the normalised series stays empty and no onset is
/// reported.
pub proof fn lemma_warm_up(frames: Seq<Seq<u32>>)
    requires
        frames.len() <= WINDOW,
    ensures
        HistoryView::empty().feed(frames).normalised_novelty.len() == 0,
        HistoryView::empty().feed(frames).peak() is None,
{
    lemma_warm_up_lengths(frames);
}

} // verus!
