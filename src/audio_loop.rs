//! An audio source that loops between two points of its decoded samples.
//!
//! The loop points are times in milliseconds. Each may be set at once, or as
//! a pending value that takes effect when playback next passes the loop's
//! end. Playback reads interleaved samples one at a time; passing the end of
//! the loop, or of the samples, jumps back to the loop's start.
use vstd::prelude::*;

verus! {

/// Milliseconds in one second.
pub const MILLIS_PER_SECOND: i128 = 1000;

/// The sample index at time `ms` for a source with `rate` frames per second
/// and `channels` samples per frame: the time scaled and truncated, zero for
/// a negative time, and `usize::MAX` where it would not fit.
pub open spec fn index_spec(ms: int, rate: int, channels: int) -> int {
    if ms <= 0 {
        0
    } else if ms * rate * channels / 1000 > usize::MAX {
        usize::MAX as int
    } else {
        ms * rate * channels / 1000
    }
}

/// The time in milliseconds of sample index `index`, truncated, and
/// `i64::MAX` where it would not fit.
pub open spec fn time_spec(index: int, rate: int, channels: int) -> int
    recommends
        rate > 0,
        channels > 0,
{
    if index * 1000 / (rate * channels) > i64::MAX {
        i64::MAX as int
    } else {
        index * 1000 / (rate * channels)
    }
}

/// Whether sample index `index` lies strictly after time `ms`.
pub open spec fn after_spec(index: int, ms: int, rate: int, channels: int) -> bool {
    index * 1000 > ms * rate * channels
}

/// The mathematical content of a `LoopableAudioSource`.
pub struct AudioLoopView {
    pub samples: Seq<i16>,
    pub loop_start: i64,
    pub loop_end: i64,
    pub future_loop_start: Option<i64>,
    pub future_loop_end: Option<i64>,
    pub sample_rate: u32,
    pub channels: u16,
    pub position: usize,
}

impl AudioLoopView {
    /// The sample index of time `ms`.
    pub open spec fn index_of(self, ms: int) -> int {
        index_spec(ms, self.sample_rate as int, self.channels as int)
    }

    /// The time of the current position, in milliseconds.
    pub open spec fn position_ms(self) -> int {
        time_spec(self.position as int, self.sample_rate as int, self.channels as int)
    }

    /// The position that reading starts from: the loop's start where the
    /// current position is past the samples.
    pub open spec fn wrapped_position(self) -> int {
        if self.position >= self.samples.len() {
            self.index_of(self.loop_start as int)
        } else {
            self.position as int
        }
    }

    /// Whether the next read passes the loop's end.
    pub open spec fn passes_end(self) -> bool {
        after_spec(
            self.wrapped_position(),
            self.loop_end as int,
            self.sample_rate as int,
            self.channels as int,
        )
    }

    /// The loop's start once the pending start, if any, took effect.
    pub open spec fn next_loop_start(self) -> i64 {
        match self.future_loop_start {
            Some(s) => s,
            None => self.loop_start,
        }
    }

    /// The loop's end once the pending end, if any, took effect.
    pub open spec fn next_loop_end(self) -> i64 {
        match self.future_loop_end {
            Some(e) => e,
            None => self.loop_end,
        }
    }

    /// The index of the sample the next read returns.
    pub open spec fn read_index(self) -> int {
        if self.passes_end() {
            self.index_of(self.next_loop_start() as int)
        } else {
            self.wrapped_position()
        }
    }

    /// Whether the next read finds a sample there.
    pub open spec fn can_read(self) -> bool {
        self.read_index() < self.samples.len()
    }

    /// The state after the next read.
    pub open spec fn after_read(self) -> AudioLoopView {
        if self.passes_end() {
            AudioLoopView {
                loop_start: self.next_loop_start(),
                loop_end: self.next_loop_end(),
                future_loop_start: None,
                future_loop_end: None,
                position: (self.read_index() + 1) as usize,
                ..self
            }
        } else {
            AudioLoopView { position: (self.read_index() + 1) as usize, ..self }
        }
    }

    /// Whether shifting the loop by `offset` keeps its points in `i64`.
    pub open spec fn offset_fits(self, offset: int) -> bool {
        if self.next_loop_start() < 0 {
            i64::MIN <= self.next_loop_end() - self.next_loop_start() <= i64::MAX
        } else {
            &&& i64::MIN <= self.next_loop_start() + offset <= i64::MAX
            &&& i64::MIN <= self.next_loop_end() + offset <= i64::MAX
        }
    }

    /// The loop's start and end shifted by `offset`; a loop that starts
    /// before zero is moved to start at zero instead, keeping its length.
    pub open spec fn shifted_loop(self, offset: int) -> (i64, i64) {
        let s = self.next_loop_start();
        let e = self.next_loop_end();
        if s < 0 {
            (0, (e - s) as i64)
        } else {
            ((s + offset) as i64, (e + offset) as i64)
        }
    }

    /// Whether moving the loop by `offset` at once keeps every time in `i64`.
    pub open spec fn move_fits(self, offset: int) -> bool {
        &&& self.offset_fits(offset)
        &&& i64::MIN <= self.position_ms() - self.next_loop_start() <= i64::MAX
        &&& i64::MIN <= self.shifted_loop(offset).0 + (self.position_ms()
            - self.next_loop_start()) <= i64::MAX
    }
}

/// A change to a looping source.
#[derive(Debug, Clone, Copy, PartialEq, Eq, Structural)]
pub enum AudioLoopEvent {
    /// Set the loop's start at once.
    StartPositionImmediate(i64),
    /// Set the loop's end at once.
    EndPositionImmediate(i64),
    /// Set the loop's start when playback next passes the loop's end.
    StartPosition(i64),
    /// Set the loop's end when playback next passes the loop's end.
    EndPosition(i64),
    /// Shift the loop when playback next passes the loop's end.
    LoopOffset(i64),
    /// Shift the loop and the position at once.
    LoopOffsetImmediate(i64),
    /// Set the loop's start, its end and the position at once.
    LoopPosition(i64, i64, i64),
}

/// Decoded interleaved samples played in a loop.
pub struct LoopableAudioSource {
    samples: Vec<i16>,
    loop_start: i64,
    loop_end: i64,
    future_loop_start: Option<i64>,
    future_loop_end: Option<i64>,
    sample_rate: u32,
    channels: u16,
    current_position: usize,
}

impl View for LoopableAudioSource {
    type V = AudioLoopView;

    closed spec fn view(&self) -> AudioLoopView {
        AudioLoopView {
            samples: self.samples@,
            loop_start: self.loop_start,
            loop_end: self.loop_end,
            future_loop_start: self.future_loop_start,
            future_loop_end: self.future_loop_end,
            sample_rate: self.sample_rate,
            channels: self.channels,
            position: self.current_position,
        }
    }
}

/// The samples per second of a source are at most `0xffff_ffff * 0xffff`.
proof fn lemma_frame_size(rate: u32, channels: u16)
    ensures
        0 <= rate as int * channels as int <= 0xffff_ffff * 0xffff,
{
    assert(0 <= rate as int * channels as int <= 0xffff_ffff * 0xffff) by (nonlinear_arith)
        requires
            0 <= rate <= 0xffff_ffff,
            0 <= channels <= 0xffff,
    ;
}

/// The sample index of time `ms`, saturating.
fn index_of(ms: i64, rate: u32, channels: u16) -> (r: usize)
    ensures
        r == index_spec(ms as int, rate as int, channels as int),
{
    if ms <= 0 {
        return 0;
    }
    let m: i128 = ms as i128;
    proof {
        lemma_frame_size(rate, channels);
    }
    let f: i128 = rate as i128 * channels as i128;
    proof {
        assert(0 <= m * f <= 0x7fff_ffff_ffff_ffff * (0xffff_ffff * 0xffff)) by (nonlinear_arith)
            requires
                0 < m <= 0x7fff_ffff_ffff_ffff,
                0 <= f <= 0xffff_ffff * 0xffff,
        ;
        assert(m * f == ms as int * rate as int * channels as int) by (nonlinear_arith)
            requires
                m == ms,
                f == rate as int * channels as int,
        ;
    }
    let scaled: i128 = m * f / MILLIS_PER_SECOND;
    if scaled > usize::MAX as i128 {
        usize::MAX
    } else {
        scaled as usize
    }
}

/// The time in milliseconds of sample index `index`, saturating.
fn time_of(index: usize, rate: u32, channels: u16) -> (r: i64)
    requires
        rate > 0,
        channels > 0,
    ensures
        r == time_spec(index as int, rate as int, channels as int),
{
    proof {
        lemma_frame_size(rate, channels);
    }
    let f: i128 = rate as i128 * channels as i128;
    proof {
        assert(f > 0) by (nonlinear_arith)
            requires
                f == rate as int * channels as int,
                rate > 0,
                channels > 0,
        ;
    }
    let t: i128 = index as i128 * MILLIS_PER_SECOND / f;
    if t > i64::MAX as i128 {
        i64::MAX
    } else {
        t as i64
    }
}

/// Whether sample index `index` lies strictly after time `ms`.
fn is_after(index: usize, ms: i64, rate: u32, channels: u16) -> (r: bool)
    ensures
        r == after_spec(index as int, ms as int, rate as int, channels as int),
{
    proof {
        lemma_frame_size(rate, channels);
    }
    let f: i128 = rate as i128 * channels as i128;
    proof {
        assert(-0x8000_0000_0000_0000 * (0xffff_ffff * 0xffff) <= ms as int * f
            <= 0x7fff_ffff_ffff_ffff * (0xffff_ffff * 0xffff)) by (nonlinear_arith)
            requires
                i64::MIN <= ms <= i64::MAX,
                0 <= f <= 0xffff_ffff * 0xffff,
        ;
        assert(ms as int * f == ms as int * rate as int * channels as int) by (nonlinear_arith)
            requires
                f == rate as int * channels as int,
        ;
    }
    index as i128 * MILLIS_PER_SECOND > ms as i128 * f
}

impl LoopableAudioSource {
    /// The sample rate and the channel count are positive.
    pub open spec fn wf(&self) -> bool {
        self@.sample_rate > 0 && self@.channels > 0
    }

    /// A source playing `samples` (interleaved, `channels` per frame,
    /// `sample_rate` frames per second) from the start, looping between
    /// `loop_start` and `loop_end`, with no pending loop points.
    pub fn new(samples: Vec<i16>, sample_rate: u32, channels: u16, loop_start: i64, loop_end: i64) -> (r:
        Self)
        requires
            sample_rate > 0,
            channels > 0,
        ensures
            r@ == (AudioLoopView {
                samples: samples@,
                loop_start,
                loop_end,
                future_loop_start: None,
                future_loop_end: None,
                sample_rate,
                channels,
                position: 0,
            }),
            r.wf(),
    {
        LoopableAudioSource {
            samples,
            loop_start,
            loop_end,
            future_loop_start: None,
            future_loop_end: None,
            sample_rate,
            channels,
            current_position: 0,
        }
    }

    /// Set the loop's start at once.
    pub fn set_loop_start_immediate(&mut self, loop_start: i64)
        ensures
            final(self)@ == (AudioLoopView { loop_start, ..old(self)@ }),
    {
        self.loop_start = loop_start;
    }

    /// Set the loop's end at once.
    pub fn set_loop_end_immediate(&mut self, loop_end: i64)
        ensures
            final(self)@ == (AudioLoopView { loop_end, ..old(self)@ }),
    {
        self.loop_end = loop_end;
    }

    /// Set the loop's start to take effect when playback next passes the
    /// loop's end.
    pub fn set_loop_start(&mut self, loop_start: i64)
        ensures
            final(self)@ == (AudioLoopView { future_loop_start: Some(loop_start), ..old(self)@ }),
    {
        self.future_loop_start = Some(loop_start);
    }

    /// Set the loop's end to take effect when playback next passes the
    /// loop's end.
    pub fn set_loop_end(&mut self, loop_end: i64)
        ensures
            final(self)@ == (AudioLoopView { future_loop_end: Some(loop_end), ..old(self)@ }),
    {
        self.future_loop_end = Some(loop_end);
    }

    /// The loop's start once the pending start, if any, took effect.
    fn pending_start(&self) -> (r: i64)
        ensures
            r == self@.next_loop_start(),
    {
        match self.future_loop_start {
            Some(s) => s,
            None => self.loop_start,
        }
    }

    /// The loop's end once the pending end, if any, took effect.
    fn pending_end(&self) -> (r: i64)
        ensures
            r == self@.next_loop_end(),
    {
        match self.future_loop_end {
            Some(e) => e,
            None => self.loop_end,
        }
    }

    /// The loop shifted by `offset`, starting from the pending loop points.
    fn shifted(&self, offset: i64) -> (r: (i64, i64))
        requires
            self@.offset_fits(offset as int),
        ensures
            r == self@.shifted_loop(offset as int),
    {
        let s = self.pending_start();
        let e = self.pending_end();
        if s < 0 {
            (0, e - s)
        } else {
            (s + offset, e + offset)
        }
    }

    /// Shift the loop by `offset` when playback next passes the loop's end.
    /// The shift starts from the pending loop points where there are any; a
    /// loop that starts before zero is moved to start at zero instead,
    /// keeping its length.
    pub fn add_loop_offset(&mut self, offset: i64)
        requires
            old(self)@.offset_fits(offset as int),
        ensures
            final(self)@ == (AudioLoopView {
                future_loop_start: Some(old(self)@.shifted_loop(offset as int).0),
                future_loop_end: Some(old(self)@.shifted_loop(offset as int).1),
                ..old(self)@
            }),
    {
        let (s, e) = self.shifted(offset);
        self.set_loop_start(s);
        self.set_loop_end(e);
    }

    /// Move playback to time `position` in milliseconds.
    pub fn set_position(&mut self, position: i64)
        ensures
            final(self)@ == (AudioLoopView {
                position: old(self)@.index_of(position as int) as usize,
                ..old(self)@
            }),
    {
        self.current_position = index_of(position, self.sample_rate, self.channels);
    }

    /// The time of the current position, in milliseconds.
    pub fn get_position(&self) -> (r: i64)
        requires
            self.wf(),
        ensures
            r == self@.position_ms(),
    {
        time_of(self.current_position, self.sample_rate, self.channels)
    }

    /// Move playback by `offset` milliseconds, to no earlier than zero.
    pub fn move_position(&mut self, offset: i64)
        requires
            old(self).wf(),
        ensures
            ({
                let t = old(self)@.position_ms() + offset;
                let target = if t < 0 {
                    0
                } else if t > i64::MAX {
                    i64::MAX as int
                } else {
                    t
                };
                final(self)@ == (AudioLoopView {
                    position: old(self)@.index_of(target) as usize,
                    ..old(self)@
                })
            }),
    {
        let t: i128 = self.get_position() as i128 + offset as i128;
        let target: i64 = if t < 0 {
            0
        } else if t > i64::MAX as i128 {
            i64::MAX
        } else {
            t as i64
        };
        self.set_position(target);
    }

    /// Set the loop's start and end and the position at once, and drop the
    /// pending loop points.
    pub fn set_loop_and_pos_immediate(&mut self, loop_start: i64, loop_end: i64, position: i64)
        ensures
            final(self)@ == (AudioLoopView {
                loop_start,
                loop_end,
                future_loop_start: None,
                future_loop_end: None,
                position: old(self)@.index_of(position as int) as usize,
                ..old(self)@
            }),
    {
        self.set_loop_start_immediate(loop_start);
        self.set_loop_end_immediate(loop_end);
        self.set_position(position);
        self.future_loop_start = None;
        self.future_loop_end = None;
    }

    /// Shift the loop by `offset` at once, as `add_loop_offset` computes the
    /// shift, and move playback along so that it keeps its distance to the
    /// loop's start. The pending loop points stay as they are.
    pub fn move_loop_offset(&mut self, offset: i64)
        requires
            old(self).wf(),
            old(self)@.move_fits(offset as int),
        ensures
            ({
                let (s, e) = old(self)@.shifted_loop(offset as int);
                let d = old(self)@.position_ms() - old(self)@.next_loop_start();
                final(self)@ == (AudioLoopView {
                    loop_start: s,
                    loop_end: e,
                    position: old(self)@.index_of(s + d) as usize,
                    ..old(self)@
                })
            }),
    {
        let loop_start = self.pending_start();
        let position_offset = self.get_position() - loop_start;
        let (s, e) = self.shifted(offset);
        self.set_loop_start_immediate(s);
        self.set_loop_end_immediate(e);
        self.set_position(s + position_offset);
    }

    /// The number of samples per frame.
    pub fn channels(&self) -> (r: u16)
        ensures
            r == self@.channels,
    {
        self.channels
    }

    /// The number of frames per second.
    pub fn sample_rate(&self) -> (r: u32)
        ensures
            r == self@.sample_rate,
    {
        self.sample_rate
    }

    /// The length of the source, which is unbounded since it loops.
    pub fn total_duration(&self) -> (r: Option<u64>)
        ensures
            r is None,
    {
        None
    }

    /// The number of samples until the format may change, which is
    /// unknown.
    pub fn current_frame_len(&self) -> (r: Option<usize>)
        ensures
            r is None,
    {
        None
    }

    /// Whether the next read finds a sample where it lands.
    pub fn can_read(&self) -> (r: bool)
        ensures
            r == self@.can_read(),
    {
        let pos = if self.current_position >= self.samples.len() {
            index_of(self.loop_start, self.sample_rate, self.channels)
        } else {
            self.current_position
        };
        let read = if is_after(pos, self.loop_end, self.sample_rate, self.channels) {
            index_of(self.pending_start(), self.sample_rate, self.channels)
        } else {
            pos
        };
        read < self.samples.len()
    }

    /// Read the next sample. Past the samples, playback first goes back to
    /// the loop's start; past the loop's end, the pending loop points take
    /// effect and playback goes back to the (new) loop's start.
    pub fn next(&mut self) -> (r: i16)
        requires
            old(self)@.can_read(),
        ensures
            r == old(self)@.samples[old(self)@.read_index()],
            final(self)@ == old(self)@.after_read(),
    {
        let mut loop_start = self.loop_start;
        let loop_end = self.loop_end;
        if self.current_position >= self.samples.len() {
            self.current_position = index_of(loop_start, self.sample_rate, self.channels);
        }
        if is_after(self.current_position, loop_end, self.sample_rate, self.channels) {
            if let Some(s) = self.future_loop_start {
                self.loop_start = s;
                loop_start = s;
            }
            if let Some(e) = self.future_loop_end {
                self.loop_end = e;
            }
            self.future_loop_start = None;
            self.future_loop_end = None;
            self.current_position = index_of(loop_start, self.sample_rate, self.channels);
        }
        let result = self.samples[self.current_position];
        self.current_position = self.current_position + 1;
        result
    }

    /// Whether `event` can be applied without leaving `i64` for a time.
    pub open spec fn event_fits(&self, event: AudioLoopEvent) -> bool {
        match event {
            AudioLoopEvent::LoopOffset(o) => self@.offset_fits(o as int),
            AudioLoopEvent::LoopOffsetImmediate(o) => self@.move_fits(o as int),
            _ => true,
        }
    }

    /// Apply `event` by the method of the same meaning.
    pub fn apply_event(&mut self, event: AudioLoopEvent)
        requires
            old(self).wf(),
            old(self).event_fits(event),
        ensures
            final(self).wf(),
            match event {
                AudioLoopEvent::StartPositionImmediate(p) => final(self)@ == (AudioLoopView {
                    loop_start: p,
                    ..old(self)@
                }),
                AudioLoopEvent::EndPositionImmediate(p) => final(self)@ == (AudioLoopView {
                    loop_end: p,
                    ..old(self)@
                }),
                AudioLoopEvent::StartPosition(p) => final(self)@ == (AudioLoopView {
                    future_loop_start: Some(p),
                    ..old(self)@
                }),
                AudioLoopEvent::EndPosition(p) => final(self)@ == (AudioLoopView {
                    future_loop_end: Some(p),
                    ..old(self)@
                }),
                AudioLoopEvent::LoopOffset(o) => final(self)@ == (AudioLoopView {
                    future_loop_start: Some(old(self)@.shifted_loop(o as int).0),
                    future_loop_end: Some(old(self)@.shifted_loop(o as int).1),
                    ..old(self)@
                }),
                AudioLoopEvent::LoopOffsetImmediate(o) => {
                    let (s, e) = old(self)@.shifted_loop(o as int);
                    let d = old(self)@.position_ms() - old(self)@.next_loop_start();
                    final(self)@ == (AudioLoopView {
                        loop_start: s,
                        loop_end: e,
                        position: old(self)@.index_of(s + d) as usize,
                        ..old(self)@
                    })
                },
                AudioLoopEvent::LoopPosition(s, e, p) => final(self)@ == (AudioLoopView {
                    loop_start: s,
                    loop_end: e,
                    future_loop_start: None,
                    future_loop_end: None,
                    position: old(self)@.index_of(p as int) as usize,
                    ..old(self)@
                }),
            },
    {
        match event {
            AudioLoopEvent::StartPositionImmediate(p) => self.set_loop_start_immediate(p),
            AudioLoopEvent::EndPositionImmediate(p) => self.set_loop_end_immediate(p),
            AudioLoopEvent::StartPosition(p) => self.set_loop_start(p),
            AudioLoopEvent::EndPosition(p) => self.set_loop_end(p),
            AudioLoopEvent::LoopOffset(o) => self.add_loop_offset(o),
            AudioLoopEvent::LoopOffsetImmediate(o) => self.move_loop_offset(o),
            AudioLoopEvent::LoopPosition(s, e, p) => self.set_loop_and_pos_immediate(s, e, p),
        }
    }
}

/// The events among the first `n` of `events` that were not applied, in
/// their order.
pub open spec fn unapplied_prefix<E>(events: Seq<E>, applied: Seq<bool>, n: int) -> Seq<E>
    decreases n,
{
    if n <= 0 {
        Seq::empty()
    } else {
        let kept = unapplied_prefix(events, applied, n - 1);
        if applied[n - 1] {
            kept
        } else {
            kept.push(events[n - 1])
        }
    }
}

/// The events to hold for a later frame: those whose source was not loaded,
/// so that `applied[i]` is false, in the order they came. Events are tried
/// each frame in that order, those held from earlier frames first.
pub fn pending_after<E: Copy>(events: &Vec<E>, applied: &Vec<bool>) -> (r: Vec<E>)
    requires
        events@.len() == applied@.len(),
    ensures
        r@ == unapplied_prefix(events@, applied@, events@.len() as int),
{
    let mut kept: Vec<E> = Vec::new();
    let mut i: usize = 0;
    while i < events.len()
        invariant
            events@.len() == applied@.len(),
            i <= events@.len(),
            kept@ == unapplied_prefix(events@, applied@, i as int),
        decreases events@.len() - i,
    {
        if !applied[i] {
            kept.push(events[i]);
        }
        i = i + 1;
    }
    kept
}

} // verus!
