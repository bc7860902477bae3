//! The decoded frame: geometry, timestamp and sample traversal.
use vstd::prelude::*;
use crate::errors::{MediaError, MediaResult};
use crate::format::{SampleFormat, format_of_tag};
use vstd::arithmetic::div_mod::{lemma_fundamental_div_mod, lemma_fundamental_div_mod_converse};
use vstd::arithmetic::div_mod::lemma_div_multiples_vanish;

verus! {

pub const NANOS_PER_SEC: i128 = 1_000_000_000;

/// A time base: the length of one tick, `num / den` seconds.
#[derive(Clone, Copy, Debug, PartialEq, Eq, Structural)]
pub struct Rational {
    pub num: i32,
    pub den: i32,
}

pub open spec fn abs(x: int) -> int {
    if x < 0 { -x } else { x }
}

/// Division rounding toward zero.
pub open spec fn div_toward_zero(n: int, d: int) -> int {
    let q = abs(n) / abs(d);
    if (n < 0) != (d < 0) { -q } else { q }
}

/// `x` held within the range of `i64`.
pub open spec fn clamp_i64(x: int) -> int {
    if x < i64::MIN { i64::MIN as int } else if x > i64::MAX { i64::MAX as int } else { x }
}

/// Nanoseconds in `tick` ticks of `num / den` seconds, rounded toward zero
/// and held within `i64`.
pub open spec fn pts_nanos_of(tick: int, num: int, den: int) -> int {
    clamp_i64(div_toward_zero(tick * num * NANOS_PER_SEC, den))
}

/// Converts a tick count into nanoseconds of presentation time.
pub fn pts_nanos(tick: i64, time_base: Rational) -> (r: i64)
    requires
        time_base.den != 0,
    ensures
        r as int == pts_nanos_of(tick as int, time_base.num as int, time_base.den as int),
{
    let t: i128 = tick as i128;
    let m: i128 = time_base.num as i128;
    proof {
        assert(abs(t * m) <= 0x8000_0000_0000_0000 * 0x8000_0000) by (nonlinear_arith)
            requires
                abs(t as int) <= 0x8000_0000_0000_0000,
                abs(m as int) <= 0x8000_0000,
        ;
        assert(abs(t * m * NANOS_PER_SEC) <= 0x8000_0000_0000_0000 * 0x8000_0000
            * 1_000_000_000) by (nonlinear_arith)
            requires
                abs(t * m) <= 0x8000_0000_0000_0000 * 0x8000_0000,
        ;
    }
    let n: i128 = t * m * NANOS_PER_SEC;
    let an: u128 = if n < 0 { (-n) as u128 } else { n as u128 };
    let ad: u128 = if time_base.den < 0 { (-(time_base.den as i128)) as u128 } else { time_base.den as u128 };
    let q: u128 = an / ad;
    if (n < 0) != (time_base.den < 0) {
        if q > 0x8000_0000_0000_0000u128 {
            i64::MIN
        } else {
            (-(q as i128)) as i64
        }
    } else {
        if q > i64::MAX as u128 {
            i64::MAX
        } else {
            q as i64
        }
    }
}

#[verifier::external_type_specification]
#[verifier::external_body]
pub struct ExTimeDelta(chrono::TimeDelta);

/// The duration that `TimeDelta::nanoseconds` builds from `n` nanoseconds.
pub uninterp spec fn delta_of_nanos(n: int) -> chrono::TimeDelta;

/// Relies on chrono's `TimeDelta::nanoseconds`, which is total on `i64` and
/// depends on its argument alone.
#[verifier::external_body]
fn delta_from_nanos(n: i64) -> (r: chrono::TimeDelta)
    ensures
        r == delta_of_nanos(n as int),
{
    chrono::TimeDelta::nanoseconds(n)
}

/// Where one sample lives: the channel it belongs to, the buffer segment that
/// holds it, and its offset in that segment, counted in samples.
#[derive(Clone, Copy, Debug, PartialEq, Eq, Structural)]
pub struct SampleSlot {
    pub channel: usize,
    pub segment: usize,
    pub offset: usize,
}

/// The abstract state of a frame.
pub struct FrameView {
    pub format: SampleFormat,
    pub channels: nat,
    /// Bound of the traversal index: samples per channel for the planar
    /// layout, samples of all channels for the packed one.
    pub capacity: nat,
    /// Samples yielded so far.
    pub consumed: nat,
    pub pts_nanos: int,
}

impl FrameView {
    /// Samples per channel.
    pub open spec fn samples_per_channel(self) -> nat {
        if self.format.planar() { self.capacity } else { self.capacity / self.channels }
    }

    /// Samples in the whole frame, all channels together.
    pub open spec fn total(self) -> nat {
        if self.format.planar() { self.capacity * self.channels } else { self.capacity }
    }

    /// Buffer segments: one per channel when planar, a single one when packed.
    pub open spec fn segments(self) -> nat {
        if self.format.planar() { self.channels } else { 1 }
    }

    /// The place of the `k`-th sample of the traversal, which visits every
    /// channel at time 0, then every channel at time 1, and so on.
    pub open spec fn slot_at(self, k: nat) -> SampleSlot {
        SampleSlot {
            channel: (k % self.channels) as usize,
            segment: if self.format.planar() { (k % self.channels) as usize } else { 0 },
            offset: if self.format.planar() { (k / self.channels) as usize } else { k as usize },
        }
    }

    /// The time index of a slot: its offset in a segment of its own, its
    /// offset over the channel count in the shared segment.
    pub open spec fn time_of(self, s: SampleSlot) -> int {
        if self.format.planar() { s.offset as int } else { s.offset as int / self.channels as int }
    }

    pub open spec fn valid(self) -> bool {
        &&& 1 <= self.channels <= usize::MAX
        &&& self.consumed <= self.total()
        &&& self.total() <= usize::MAX
        &&& !self.format.planar() ==> self.capacity % self.channels == 0
    }
}

/// A decoded frame of audio, with the cursor of its single traversal.
#[derive(Debug)]
pub struct Frame {
    cur_chan: usize,
    cur_idx: usize,
    cap: usize,
    chans: usize,
    pts: i64,
    format: SampleFormat,
}

impl View for Frame {
    type V = FrameView;

    closed spec fn view(&self) -> FrameView {
        FrameView {
            format: self.format,
            channels: self.chans as nat,
            capacity: self.cap as nat,
            consumed: if self.format.planar() {
                (self.cur_idx * self.chans + self.cur_chan) as nat
            } else {
                self.cur_idx as nat
            },
            pts_nanos: self.pts as int,
        }
    }
}

impl Frame {
    pub closed spec fn wf(&self) -> bool {
        &&& self.chans >= 1
        &&& self.cur_chan < self.chans
        &&& self.cur_idx <= self.cap
        &&& self.format.planar() ==> (self.cur_idx == self.cap ==> self.cur_chan == 0)
            && self.cap * self.chans <= usize::MAX
        &&& !self.format.planar() ==> self.cur_chan == self.cur_idx % self.chans
            && self.cap % self.chans == 0
    }

    /// The abstract state of a well-formed frame is valid.
    pub proof fn lemma_wf_valid(&self)
        requires
            self.wf(),
        ensures
            self@.valid(),
    {
        if self.format.planar() {
            assert(self.cur_idx * self.chans + self.cur_chan <= self.cap * self.chans)
                by (nonlinear_arith)
                requires
                    self.cur_idx <= self.cap,
                    self.cur_chan < self.chans,
                    self.cur_idx == self.cap ==> self.cur_chan == 0,
            ;
        }
    }

    /// Builds a frame from what the decoder reports of it: its format tag,
    /// its samples per channel, its channel count, and its timestamp in ticks
    /// of `time_base`. Fails with `UnsupportedFormat` exactly when the tag
    /// names no known format; the caller then still owns the native frame.
    pub fn from_parts(
        format_tag: i32,
        nb_samples: usize,
        channels: usize,
        tick: i64,
        time_base: Rational,
    ) -> (r: MediaResult<Frame>)
        requires
            channels >= 1,
            nb_samples * channels <= usize::MAX,
            time_base.den != 0,
        ensures
            r is Err <==> format_of_tag(format_tag as int) is None,
            r matches Err(e) ==> e == MediaError::UnsupportedFormat,
            r matches Ok(f) ==> {
                &&& f.wf()
                &&& Some(f@.format) == format_of_tag(format_tag as int)
                &&& f@.channels == channels
                &&& f@.capacity == if f@.format.planar() {
                    nb_samples as nat
                } else {
                    (nb_samples * channels) as nat
                }
                &&& f@.consumed == 0
                &&& f@.pts_nanos == pts_nanos_of(
                    tick as int,
                    time_base.num as int,
                    time_base.den as int,
                )
            },
    {
        let format = match SampleFormat::from_ffi(format_tag) {
            Some(x) => x,
            None => {
                return Err(MediaError::UnsupportedFormat);
            },
        };
        let cap: usize = if format.is_planar() {
            nb_samples
        } else {
            nb_samples * channels
        };
        proof {
            if !format.planar() {
                assert((nb_samples * channels) % channels as int == 0) by (nonlinear_arith)
                    requires
                        channels >= 1,
                ;
            }
        }
        Ok(Frame { cur_chan: 0, cur_idx: 0, cap, chans: channels, pts: pts_nanos(tick, time_base), format })
    }

    /// The traversal bound: samples per channel when planar, samples of all
    /// channels when packed.
    pub fn capacity(&self) -> (r: usize)
        ensures
            r == self@.capacity,
    {
        self.cap
    }

    /// Whether the traversal has yielded every sample.
    pub fn drained(&self) -> (r: bool)
        requires
            self.wf(),
        ensures
            r == (self@.consumed >= self@.total()),
    {
        proof {
            self.lemma_wf_valid();
            if self.format.planar() && self.cur_idx < self.cap {
                assert(self.cur_idx * self.chans + self.cur_chan < self.cap * self.chans)
                    by (nonlinear_arith)
                    requires
                        self.cur_idx < self.cap,
                        self.cur_chan < self.chans,
                ;
            }
        }
        self.cur_idx >= self.cap
    }

    pub fn channels(&self) -> (r: usize)
        ensures
            r == self@.channels,
    {
        self.chans
    }

    pub fn format(&self) -> (r: SampleFormat)
        ensures
            r == self@.format,
    {
        self.format
    }

    /// The presentation timestamp, in nanoseconds.
    pub fn pts_nanos(&self) -> (r: i64)
        ensures
            r == self@.pts_nanos,
    {
        self.pts
    }

    /// Yields where the next sample of the traversal lives and moves past
    /// it; `None` once every sample has been yielded, without a change.
    pub fn next(&mut self) -> (r: Option<SampleSlot>)
        requires
            old(self).wf(),
        ensures
            final(self).wf(),
            old(self)@.consumed < old(self)@.total() ==> r == Some(
                old(self)@.slot_at(old(self)@.consumed),
            ) && final(self)@ == (FrameView { consumed: old(self)@.consumed + 1, ..old(self)@ }),
            old(self)@.consumed >= old(self)@.total() ==> r is None && final(self)@ == old(self)@,
    {
        proof {
            self.lemma_wf_valid();
        }
        if self.drained() {
            return None;
        }
        let c = self.cur_chan;
        let t = self.cur_idx;
        let ghost k = self@.consumed;
        let ghost n = self.chans as int;
        if self.format.is_planar() {
            proof {
                lemma_fundamental_div_mod_converse(k as int, n, t as int, c as int);
                assert(t * n + c + 1 <= self.cap * n) by (nonlinear_arith)
                    requires
                        t < self.cap,
                        c < n,
                ;
                assert(t * n + n == (t + 1) * n) by (nonlinear_arith);
            }
            self.cur_chan = c + 1;
            if self.cur_chan >= self.chans {
                self.cur_chan = 0;
                self.cur_idx = t + 1;
            }
            Some(SampleSlot { channel: c, segment: c, offset: t })
        } else {
            proof {
                lemma_fundamental_div_mod(t as int, n);
                let q = t as int / n;
                if c + 1 < n {
                    lemma_fundamental_div_mod_converse(t + 1, n, q, c + 1);
                } else {
                    assert(n * q + c + 1 == (q + 1) * n) by (nonlinear_arith)
                        requires
                            c + 1 == n,
                    ;
                    lemma_fundamental_div_mod_converse(t + 1, n, q + 1, 0);
                }
            }
            self.cur_idx = t + 1;
            self.cur_chan = c + 1;
            if self.cur_chan >= self.chans {
                self.cur_chan = 0;
            }
            Some(SampleSlot { channel: c, segment: 0, offset: t })
        }
    }

    /// Yields every sample left in the traversal, in traversal order, and
    /// leaves the frame drained.
    pub fn remaining_slots(&mut self) -> (r: Vec<SampleSlot>)
        requires
            old(self).wf(),
        ensures
            final(self).wf(),
            final(self)@ == (FrameView { consumed: old(self)@.total(), ..old(self)@ }),
            r@.len() == old(self)@.total() - old(self)@.consumed,
            forall|i: int|
                0 <= i < r@.len() ==> r@[i] == old(self)@.slot_at((old(self)@.consumed + i) as nat),
    {
        proof {
            self.lemma_wf_valid();
        }
        let ghost start = self@;
        let mut out: Vec<SampleSlot> = Vec::new();
        loop
            invariant
                self.wf(),
                self@ == (FrameView { consumed: self@.consumed, ..start }),
                start.consumed <= self@.consumed <= start.total(),
                out@.len() == self@.consumed - start.consumed,
                forall|i: int|
                    0 <= i < out@.len() ==> out@[i] == start.slot_at((start.consumed + i) as nat),
            ensures
                self.wf(),
                self@ == (FrameView { consumed: start.total(), ..start }),
                out@.len() == start.total() - start.consumed,
                forall|i: int|
                    0 <= i < out@.len() ==> out@[i] == start.slot_at((start.consumed + i) as nat),
            decreases start.total() - self@.consumed,
        {
            proof {
                self.lemma_wf_valid();
            }
            match self.next() {
                Some(s) => {
                    out.push(s);
                },
                None => {
                    break;
                },
            }
        }
        out
    }

    /// The presentation timestamp as a duration.
    pub fn pts(&self) -> (r: chrono::TimeDelta)
        ensures
            r == delta_of_nanos(self@.pts_nanos),
    {
        delta_from_nanos(self.pts)
    }
}

/// A frame of `C` channels and `S` samples per channel is traversed in
/// `S * C` steps; step `k` yields channel `k % C` at time `k / C`, so channel
/// 0 to `C - 1` at time 0 come first, then the same at time 1, and so on.
/// Two frames with the same `C` and `S` are traversed in the same
/// `(channel, time)` order whatever their layouts.
pub proof fn lemma_traversal_order(a: FrameView, b: FrameView)
    requires
        a.valid(),
        b.valid(),
        a.channels == b.channels,
        a.samples_per_channel() == b.samples_per_channel(),
    ensures
        a.total() == a.samples_per_channel() * a.channels,
        a.total() == b.total(),
        forall|k: nat|
            k < a.total() ==> {
                &&& a.slot_at(k).channel == k % a.channels
                &&& a.time_of(a.slot_at(k)) == k / a.channels
                &&& a.slot_at(k).channel == b.slot_at(k).channel
                &&& a.time_of(a.slot_at(k)) == b.time_of(b.slot_at(k))
            },
{
    lemma_traversal_steps(a);
    lemma_traversal_steps(b);
}

/// One frame's side of `lemma_traversal_order`.
proof fn lemma_traversal_steps(v: FrameView)
    requires
        v.valid(),
    ensures
        v.total() == v.samples_per_channel() * v.channels,
        forall|k: nat|
            k < v.total() ==> {
                &&& v.slot_at(k).channel == k % v.channels
                &&& v.time_of(v.slot_at(k)) == k / v.channels
            },
{
    let c = v.channels as int;
    if !v.format.planar() {
        lemma_fundamental_div_mod(v.capacity as int, c);
    }
    assert forall|k: nat| k < v.total() implies {
        &&& v.slot_at(k).channel == k % v.channels
        &&& v.time_of(v.slot_at(k)) == k / v.channels
    } by {
        assert(k as int % c < c && k as int / c <= k as int) by (nonlinear_arith)
            requires
                c >= 1,
        ;
    }
}

/// Every step of a traversal reads inside the buffer: its segment is one
/// that the layout has, and its offset is below the capacity.
pub proof fn lemma_no_over_read(v: FrameView)
    requires
        v.valid(),
    ensures
        forall|k: nat|
            k < v.total() ==> v.slot_at(k).segment < v.segments() && v.slot_at(k).offset
                < v.capacity,
{
    let c = v.channels as int;
    assert forall|k: nat| k < v.total() implies v.slot_at(k).segment < v.segments()
        && v.slot_at(k).offset < v.capacity by {
        if v.format.planar() {
            assert(k as int % c < c && k as int / c < v.capacity as int && k as int / c <= k as int)
                by (nonlinear_arith)
                requires
                    c >= 1,
                    k < v.capacity as int * c,
            ;
        }
    }
}

} // verus!
