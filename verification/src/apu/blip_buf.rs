use vstd::prelude::*;

verus! {

/// Whether an integer fits in an `i32`.
pub open spec fn fits_i32(v: int) -> bool {
    i32::MIN <= v <= i32::MAX
}

/// The band-limited step: 33 phases of the first half (8 taps) of the kernel.
pub open spec fn bl_step(phase: int, tap: int) -> int {
    let t = seq![
        seq![43int, -115, 350, -488, 1136, -914, 5861, 21022],
        seq![44int, -118, 348, -473, 1076, -799, 5274, 21001],
        seq![45int, -121, 344, -454, 1011, -677, 4706, 20936],
        seq![46int, -122, 336, -431, 942, -549, 4156, 20829],
        seq![47int, -123, 327, -404, 868, -418, 3629, 20679],
        seq![47int, -122, 316, -375, 792, -285, 3124, 20488],
        seq![47int, -120, 303, -344, 714, -151, 2644, 20256],
        seq![46int, -117, 289, -310, 634, -17, 2188, 19985],
        seq![46int, -114, 273, -275, 553, 117, 1758, 19675],
        seq![44int, -108, 255, -237, 471, 247, 1356, 19327],
        seq![43int, -103, 237, -199, 390, 373, 981, 18944],
        seq![42int, -98, 218, -160, 310, 495, 633, 18527],
        seq![40int, -91, 198, -121, 231, 611, 314, 18078],
        seq![38int, -84, 178, -81, 153, 722, 22, 17599],
        seq![36int, -76, 157, -43, 80, 824, -241, 17092],
        seq![34int, -68, 135, -3, 8, 919, -476, 16558],
        seq![32int, -61, 115, 34, -60, 1006, -683, 16001],
        seq![29int, -52, 94, 70, -123, 1083, -862, 15422],
        seq![27int, -44, 73, 106, -184, 1152, -1015, 14824],
        seq![25int, -36, 53, 139, -239, 1211, -1142, 14210],
        seq![22int, -27, 34, 170, -290, 1261, -1244, 13582],
        seq![20int, -20, 16, 199, -335, 1301, -1322, 12942],
        seq![18int, -12, -3, 226, -375, 1331, -1376, 12293],
        seq![15int, -4, -19, 250, -410, 1351, -1408, 11638],
        seq![13int, 3, -35, 272, -439, 1361, -1419, 10979],
        seq![11int, 9, -49, 292, -464, 1362, -1410, 10319],
        seq![9int, 16, -63, 309, -483, 1354, -1383, 9660],
        seq![7int, 22, -75, 322, -496, 1337, -1339, 9005],
        seq![6int, 26, -85, 333, -504, 1312, -1280, 8355],
        seq![4int, 31, -94, 341, -507, 1278, -1205, 7713],
        seq![3int, 35, -102, 347, -506, 1238, -1119, 7082],
        seq![1int, 40, -110, 350, -499, 1190, -1021, 6464],
        seq![0int, 43, -115, 350, -488, 1136, -914, 5861]
    ];
    t[phase][tap]
}

/// A tap of the band-limited step.
fn bl_step_at(phase: usize, tap: usize) -> (r: i16)
    requires
        phase < 33,
        tap < 8,
    ensures
        r == bl_step(phase as int, tap as int),
{
    let table: [[i16; 8]; 33] = [
        [43, -115, 350, -488, 1136, -914, 5861, 21022],
        [44, -118, 348, -473, 1076, -799, 5274, 21001],
        [45, -121, 344, -454, 1011, -677, 4706, 20936],
        [46, -122, 336, -431, 942, -549, 4156, 20829],
        [47, -123, 327, -404, 868, -418, 3629, 20679],
        [47, -122, 316, -375, 792, -285, 3124, 20488],
        [47, -120, 303, -344, 714, -151, 2644, 20256],
        [46, -117, 289, -310, 634, -17, 2188, 19985],
        [46, -114, 273, -275, 553, 117, 1758, 19675],
        [44, -108, 255, -237, 471, 247, 1356, 19327],
        [43, -103, 237, -199, 390, 373, 981, 18944],
        [42, -98, 218, -160, 310, 495, 633, 18527],
        [40, -91, 198, -121, 231, 611, 314, 18078],
        [38, -84, 178, -81, 153, 722, 22, 17599],
        [36, -76, 157, -43, 80, 824, -241, 17092],
        [34, -68, 135, -3, 8, 919, -476, 16558],
        [32, -61, 115, 34, -60, 1006, -683, 16001],
        [29, -52, 94, 70, -123, 1083, -862, 15422],
        [27, -44, 73, 106, -184, 1152, -1015, 14824],
        [25, -36, 53, 139, -239, 1211, -1142, 14210],
        [22, -27, 34, 170, -290, 1261, -1244, 13582],
        [20, -20, 16, 199, -335, 1301, -1322, 12942],
        [18, -12, -3, 226, -375, 1331, -1376, 12293],
        [15, -4, -19, 250, -410, 1351, -1408, 11638],
        [13, 3, -35, 272, -439, 1361, -1419, 10979],
        [11, 9, -49, 292, -464, 1362, -1410, 10319],
        [9, 16, -63, 309, -483, 1354, -1383, 9660],
        [7, 22, -75, 322, -496, 1337, -1339, 9005],
        [6, 26, -85, 333, -504, 1312, -1280, 8355],
        [4, 31, -94, 341, -507, 1278, -1205, 7713],
        [3, 35, -102, 347, -506, 1238, -1119, 7082],
        [1, 40, -110, 350, -499, 1190, -1021, 6464],
        [0, 43, -115, 350, -488, 1136, -914, 5861]
    ];
    table[phase][tap]
}

/// `p` divided by 2^15, rounded down (an arithmetic shift right by 15).
fn floor_div_32768(p: i64) -> (r: i64)
    requires
        -0x1_0000_0000 <= p <= 0x1_0000_0000,
    ensures
        r == p / 32768,
{
    if p >= 0 {
        p / 32768
    } else {
        let q = (-p + 32767) / 32768;
        assert(-q == p / 32768) by (nonlinear_arith)
            requires
                p < 0,
                q == (-p + 32767) / 32768,
        ;
        -q
    }
}

/// A sample kept within the range of an `i16`.
pub open spec fn clamp16(s: int) -> i16 {
    if s > 32767 {
        32767i16
    } else if s < -32768 {
        -32768i16
    } else {
        s as i16
    }
}

/// The integrator of a sample buffer after `n` of its samples were read, starting from
/// `sum`: each sample adds its delta and leaks a little towards zero (the high-pass
/// filter of the output).
pub open spec fn integrate(sum: int, buf: Seq<i32>, n: nat) -> int
    decreases n,
{
    if n == 0 {
        sum
    } else {
        let prev = integrate(sum, buf, (n - 1) as nat);
        prev + buf[n - 1] - (prev / 32768) * 64
    }
}

/// Whether reading `count` samples keeps the integrator within `i32`.
pub open spec fn integration_fits(sum: int, buf: Seq<i32>, count: nat) -> bool {
    forall|k: nat|
        k < count ==> {
            let prev = #[trigger] integrate(sum, buf, k);
            fits_i32(prev + buf[k as int]) && fits_i32(prev + buf[k as int] - (prev / 32768) * 64)
        }
}

/// The samples that reading `count` samples gives.
pub open spec fn samples_of(sum: int, buf: Seq<i32>, count: nat) -> Seq<i16> {
    Seq::new(count, |k: int| clamp16(integrate(sum, buf, k as nat) / 32768))
}

/// A buffer that took no steps gives silence: with the integrator at zero and nothing in the
/// buffer, the integrator stays at zero and every sample read is zero.
pub proof fn lemma_silence(buf: Seq<i32>, count: nat)
    requires
        count <= buf.len(),
        forall|i: int| 0 <= i < buf.len() ==> buf[i] == 0,
    ensures
        integrate(0, buf, count) == 0,
        samples_of(0, buf, count) == Seq::new(count, |_k: int| 0i16),
    decreases count,
{
    if count > 0 {
        lemma_silence(buf, (count - 1) as nat);
    }
    assert forall|k: int| 0 <= k < count implies #[trigger] samples_of(0, buf, count)[k] == 0i16 by {
        lemma_silence(buf, k as nat);
    }
    assert(samples_of(0, buf, count) =~= Seq::new(count, |_k: int| 0i16));
}

/// A band-limited sound buffer: samples of a high clock rate go in as steps, and samples of
/// the output rate come out. The ratio of the two rates is `factor`, scaled by 2^52.
pub struct BlipBuf<const S: usize> {
    pub factor: u64,
    pub offset: u64,
    pub available: u64,
    pub integrator: i32,
    pub buf: Vec<i32>,
    pub last_sample: i32,
    pub time: u64,
}

impl<const S: usize> BlipBuf<S> {
    /// The invariant: the buffer has `S` slots.
    pub open spec fn wf(&self) -> bool {
        self.buf@.len() == S
    }

    /// The current input time in units of 2^-20 output samples.
    pub open spec fn fixed_time(&self) -> int {
        (self.time * self.factor + self.offset) / 0x1_0000_0000
    }

    /// Which of the 32 phases of the kernel the current time falls on.
    pub open spec fn phase(&self) -> int {
        (self.fixed_time() / 0x8000) % 32
    }

    /// Where the current time falls between two phases, in units of 2^-15.
    pub open spec fn interp(&self) -> int {
        self.fixed_time() % 0x8000
    }

    /// The slot where a step at the current time starts.
    pub open spec fn step_index(&self) -> int {
        self.available + self.fixed_time() / 0x10_0000
    }

    /// A step of `delta` split between the current phase and the next one.
    pub open spec fn delta_split(&self, delta: int) -> (int, int) {
        let d2 = (delta * self.interp()) / 0x8000;
        (delta - d2, d2)
    }

    /// The two products that a step of `delta` adds at tap `k` (0 to 15) of the kernel: the
    /// first half of the kernel runs forwards, the second half backwards.
    pub open spec fn kernel_terms(&self, delta: int, k: int) -> (int, int) {
        let (d1, d2) = self.delta_split(delta);
        let p = self.phase();
        if k < 8 {
            (bl_step(p, k) * d1, bl_step(p + 1, k) * d2)
        } else {
            (bl_step(32 - p, 15 - k) * d1, bl_step(31 - p, 15 - k) * d2)
        }
    }

    /// Whether a step of `delta` at the current time stays inside the buffer and inside
    /// `i32` arithmetic.
    pub open spec fn delta_fits(&self, delta: int) -> bool {
        &&& self.time * self.factor + self.offset <= u64::MAX
        &&& fits_i32(delta * self.interp())
        &&& self.step_index() + 16 <= S
        &&& forall|k: int|
            0 <= k < 16 ==> {
                let t = #[trigger] self.kernel_terms(delta, k);
                &&& fits_i32(t.0) && fits_i32(t.1) && fits_i32(t.0 + t.1)
                &&& fits_i32(self.buf@[self.step_index() + k] + t.0 + t.1)
            }
    }

    /// The buffer after a step of `delta` at the current time.
    pub open spec fn delta_added(&self, delta: int) -> Seq<i32> {
        Seq::new(
            self.buf@.len(),
            |j: int|
                if self.step_index() <= j < self.step_index() + 16 {
                    let t = self.kernel_terms(delta, j - self.step_index());
                    (self.buf@[j] + t.0 + t.1) as i32
                } else {
                    self.buf@[j]
                },
        )
    }

    /// An empty buffer for the rate ratio `factor` (the output rate over the input rate,
    /// times 2^52, rounded up).
    pub fn from_factor(factor: u64) -> (r: Self)
        ensures
            r.wf(),
            r.factor == factor,
            r.offset == 0x8000_0000,
            r.available == 0 && r.integrator == 0 && r.last_sample == 0 && r.time == 0,
            r.buf@ == Seq::new(S as nat, |_i: int| 0i32),
    {
        let buf: Vec<i32> = vec![0; S];
        assert(buf@ =~= Seq::new(S as nat, |_i: int| 0i32));
        BlipBuf { factor, offset: 0x8000_0000, available: 0, integrator: 0, buf, last_sample: 0, time: 0 }
    }

    /// Changes the rate ratio.
    pub fn set_factor(&mut self, factor: u64)
        ensures
            *final(self) == (BlipBuf::<S> { factor, ..*old(self) }),
    {
        self.factor = factor;
    }

    /// Adds a step of `delta` at the current time.
    fn add_delta(&mut self, delta: i32)
        requires
            old(self).wf(),
            old(self).delta_fits(delta as int),
        ensures
            final(self).wf(),
            final(self).buf@ == old(self).delta_added(delta as int),
            *final(self) == (BlipBuf::<S> { buf: final(self).buf, ..*old(self) }),
    {
        let x: u64 = self.time * self.factor + self.offset;
        let fixed: u64 = x / 0x1_0000_0000;
        let phase = ((fixed / 0x8000) % 32) as usize;
        let interp = (fixed % 0x8000) as i64;
        let prod: i64 = delta as i64 * interp;
        let d2 = floor_div_32768(prod);
        assert(if delta >= 0 { 0 <= d2 <= delta } else { delta <= d2 <= 0 }) by (nonlinear_arith)
            requires
                d2 == prod / 32768,
                prod == delta * interp,
                0 <= interp < 32768,
        ;
        let delta2 = d2 as i32;
        let delta1 = delta - delta2;
        let idx = (self.available + fixed / 0x10_0000) as usize;
        let ghost old_buf = self.buf@;
        let ghost split = self.delta_split(delta as int);
        assert(split == (delta1 as int, delta2 as int));
        let mut k: usize = 0;
        while k < 16
            invariant
                k <= 16,
                idx == old(self).step_index(),
                phase == old(self).phase(),
                old(self).delta_fits(delta as int),
                old(self).delta_split(delta as int) == (delta1 as int, delta2 as int),
                old_buf == old(self).buf@,
                self.buf@.len() == S,
                *self == (BlipBuf::<S> { buf: self.buf, ..*old(self) }),
                forall|j: int|
                    0 <= j < S ==> #[trigger] self.buf@[j] == if idx <= j < idx + k {
                        let t = old(self).kernel_terms(delta as int, j - idx);
                        (old_buf[j] + t.0 + t.1) as i32
                    } else {
                        old_buf[j]
                    },
            decreases 16 - k,
        {
            let (w1, w2) = if k < 8 {
                (bl_step_at(phase, k), bl_step_at(phase + 1, k))
            } else {
                (bl_step_at(32 - phase, 15 - k), bl_step_at(31 - phase, 15 - k))
            };
            let t = Ghost(old(self).kernel_terms(delta as int, k as int));
            assert(t@ == (w1 * delta1, w2 * delta2));
            let a = w1 as i32 * delta1;
            let b = w2 as i32 * delta2;
            let v = self.buf[idx + k] + (a + b);
            self.buf.set(idx + k, v);
            k += 1;
        }
        assert(self.buf@ =~= old(self).delta_added(delta as int));
    }

    /// Whether reading the available samples stays inside the buffer and inside `i32`.
    pub open spec fn read_fits(&self) -> bool {
        &&& self.available + 18 <= S
        &&& integration_fits(self.integrator as int, self.buf@, self.available as nat)
    }

    /// The buffer after `count` samples were read from it: the 18 slots that follow them move
    /// to the front, the `count` slots after those are cleared, and the rest stays.
    pub open spec fn buf_after_read(buf: Seq<i32>, count: int) -> Seq<i32> {
        Seq::new(
            buf.len(),
            |j: int|
                if j < 18 {
                    buf[count + j]
                } else if j < 18 + count {
                    0i32
                } else {
                    buf[j]
                },
        )
    }

    /// Reads all available samples into `out`.
    fn read_samples(&mut self, out: &mut Vec<i16>)
        requires
            old(self).wf(),
            old(self).read_fits(),
        ensures
            final(self).wf(),
            final(out)@ == old(out)@ + samples_of(
                old(self).integrator as int,
                old(self).buf@,
                old(self).available as nat,
            ),
            final(self).buf@ == Self::buf_after_read(old(self).buf@, old(self).available as int),
            *final(self) == (BlipBuf::<S> {
                buf: final(self).buf,
                integrator: integrate(
                    old(self).integrator as int,
                    old(self).buf@,
                    old(self).available as nat,
                ) as i32,
                available: 0,
                ..*old(self)
            }),
    {
        let count = self.available as usize;
        let ghost old_buf = self.buf@;
        let ghost old_out = out@;
        let ghost sum0 = self.integrator as int;
        if count == 0 {
            assert(samples_of(sum0, old_buf, 0) =~= Seq::<i16>::empty());
            assert(out@ =~= old_out + samples_of(sum0, old_buf, 0));
            assert(self.buf@ =~= Self::buf_after_read(old_buf, 0));
            return;
        }
        let mut sum = self.integrator;
        let mut i: usize = 0;
        while i < count
            invariant
                i <= count,
                count == old(self).available,
                count + 18 <= S,
                old_buf == old(self).buf@,
                self.buf@ == old_buf,
                old_buf.len() == S,
                integration_fits(sum0, old_buf, count as nat),
                sum == integrate(sum0, old_buf, i as nat),
                out@ == old_out + samples_of(sum0, old_buf, i as nat),
            decreases count - i,
        {
            let s = floor_div_32768(sum as i64) as i32;
            assert(integration_fits(sum0, old_buf, count as nat));
            assert(sum == integrate(sum0, old_buf, i as nat));
            let added = sum + self.buf[i];
            // the sample, kept within the range of an i16
            let clamped: i16 = if s > 32767 {
                32767
            } else if s < -32768 {
                -32768
            } else {
                s as i16
            };
            out.push(clamped);
            sum = added - s * 64;
            assert(samples_of(sum0, old_buf, (i + 1) as nat) =~= samples_of(sum0, old_buf, i as nat).push(
                clamped,
            ));
            i += 1;
        }
        self.integrator = sum;
        // the 18 slots after the samples that were read move to the front
        let mut j: usize = 0;
        while j < 18
            invariant
                j <= 18,
                count >= 1,
                count + 18 <= S,
                old_buf == old(self).buf@,
                self.buf@.len() == S,
                *self == (BlipBuf::<S> { buf: self.buf, integrator: sum, ..*old(self) }),
                forall|k: int| 0 <= k < S ==> #[trigger] self.buf@[k] == if k < j { old_buf[count + k] } else { old_buf[k] },
            decreases 18 - j,
        {
            let v = self.buf[count + j];
            self.buf.set(j, v);
            j += 1;
        }
        // the slots they came from are cleared
        let mut k: usize = 18;
        while k < 18 + count
            invariant
                18 <= k <= 18 + count,
                count + 18 <= S,
                old_buf == old(self).buf@,
                self.buf@.len() == S,
                *self == (BlipBuf::<S> { buf: self.buf, integrator: sum, ..*old(self) }),
                forall|m: int|
                    0 <= m < S ==> #[trigger] self.buf@[m] == if m < 18 {
                        old_buf[count + m]
                    } else if m < k {
                        0i32
                    } else {
                        old_buf[m]
                    },
            decreases 18 + count - k,
        {
            self.buf.set(k, 0);
            k += 1;
        }
        assert(self.buf@ =~= Self::buf_after_read(old_buf, count as int));
        self.available = 0;
    }

    /// The state at the end of a frame, before the samples are read: the input time of the
    /// frame becomes available output samples, and its remainder stays in `offset`.
    pub open spec fn frame_ended(&self) -> Self {
        let off = self.time * self.factor + self.offset;
        BlipBuf::<S> {
            available: (self.available + off / 0x10_0000_0000_0000) as u64,
            offset: (off % 0x10_0000_0000_0000) as u64,
            time: 0,
            ..*self
        }
    }

    /// Ends a frame and reads every sample it made into `out`.
    pub fn end_frame(&mut self, out: &mut Vec<i16>)
        requires
            old(self).wf(),
            old(self).time * old(self).factor + old(self).offset <= u64::MAX,
            old(self).available + (old(self).time * old(self).factor + old(self).offset) / 0x10_0000_0000_0000
                <= u64::MAX,
            old(self).frame_ended().read_fits(),
        ensures
            final(self).wf(),
            final(out)@ == old(out)@ + samples_of(
                old(self).integrator as int,
                old(self).buf@,
                old(self).frame_ended().available as nat,
            ),
            final(self).buf@ == Self::buf_after_read(old(self).buf@, old(self).frame_ended().available as int),
            *final(self) == (BlipBuf::<S> {
                buf: final(self).buf,
                integrator: integrate(
                    old(self).integrator as int,
                    old(self).buf@,
                    old(self).frame_ended().available as nat,
                ) as i32,
                available: 0,
                ..old(self).frame_ended()
            }),
    {
        let off = self.time * self.factor + self.offset;
        self.available = self.available + off / 0x10_0000_0000_0000;
        self.offset = off % 0x10_0000_0000_0000;
        self.time = 0;
        self.read_samples(out);
    }

    /// Adds an input sample: the step from the last sample goes into the buffer, and the
    /// input time advances by one clock.
    pub fn add_sample(&mut self, s: i32)
        requires
            old(self).wf(),
            old(self).time < u64::MAX,
            fits_i32(s - old(self).last_sample),
            s != old(self).last_sample ==> old(self).delta_fits(s - old(self).last_sample),
        ensures
            final(self).wf(),
            final(self).buf@ == if s != old(self).last_sample {
                old(self).delta_added(s - old(self).last_sample)
            } else {
                old(self).buf@
            },
            *final(self) == (BlipBuf::<S> {
                buf: final(self).buf,
                last_sample: s,
                time: (old(self).time + 1) as u64,
                ..*old(self)
            }),
    {
        let delta = s - self.last_sample;
        if delta != 0 {
            self.add_delta(delta);
        }
        self.last_sample = s;
        self.time = self.time + 1;
    }
}

} // verus!
