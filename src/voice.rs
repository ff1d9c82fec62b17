use vstd::prelude::*;

verus! {

/// Phase units in one waveform cycle. One cycle spans `SAMPLE_RATE * 1000`
/// units, so a frequency given in millihertz is exactly the phase advance of
/// one frame.
pub const PHASE_PERIOD: u64 = 48000000;

/// Half a waveform cycle, in phase units.
pub const HALF_PERIOD: u64 = 24000000;

/// Full scale of a raw waveform value: shapes range over `[-WAVE_ONE, WAVE_ONE]`.
pub const WAVE_ONE: i64 = 32768;

/// Unity gain in the fixed-point amplitude scale.
pub const GAIN_ONE: i64 = 65536;

/// Largest gain magnitude a voice may carry (1024 times unity gain).
pub const MAX_GAIN: i64 = 67108864;

/// Largest magnitude of one voice's output sample: `WAVE_ONE * MAX_GAIN`.
pub const SAMPLE_MAX: i64 = 2199023255552;

/// The closed set of oscillator shapes.
#[derive(Clone, Copy, Debug, PartialEq, Eq, Structural)]
pub enum Waveform {
    Sine,
    Square,
    Saw,
}

/// Magnitude of the sine approximation on a half cycle, for `q` phase units
/// into that half: `16 u / (5 H^2 - 4 u)` in units of `WAVE_ONE`, where
/// `u = q (H - q)` and `H` is the half period (a rational fit of `sin(pi q / H)`).
pub open spec fn sine_half(q: int) -> int {
    let h = HALF_PERIOD as int;
    let u = q * (h - q);
    (16 * WAVE_ONE * u) / (5 * h * h - 4 * u)
}

/// The sine shape at `phase`: positive on the first half cycle, its mirror image
/// on the second.
pub open spec fn sine_value(phase: int) -> int {
    if phase < HALF_PERIOD {
        sine_half(phase)
    } else {
        -sine_half(phase - HALF_PERIOD)
    }
}

/// The square shape: full scale up on the first half cycle, down on the second.
pub open spec fn square_value(phase: int) -> int {
    if phase < HALF_PERIOD {
        WAVE_ONE as int
    } else {
        -WAVE_ONE
    }
}

/// The saw shape: `2 * phase / PHASE_PERIOD - 1`, rounded down, in units of `WAVE_ONE`.
pub open spec fn saw_value(phase: int) -> int {
    (2 * phase * WAVE_ONE) / (PHASE_PERIOD as int) - WAVE_ONE
}

/// The raw value of shape `w` at `phase`.
pub open spec fn wave_value(w: Waveform, phase: int) -> int {
    match w {
        Waveform::Sine => sine_value(phase),
        Waveform::Square => square_value(phase),
        Waveform::Saw => saw_value(phase),
    }
}

proof fn lemma_half_product_bound(q: int)
    requires
        0 <= q <= HALF_PERIOD,
    ensures
        0 <= q * (HALF_PERIOD - q),
        4 * (q * (HALF_PERIOD - q)) <= (HALF_PERIOD as int) * (HALF_PERIOD as int),
{
    let h = HALF_PERIOD as int;
    assert(0 <= q * (h - q)) by (nonlinear_arith)
        requires
            0 <= q <= h,
    ;
    assert(4 * (q * (h - q)) <= h * h) by (nonlinear_arith);
}

proof fn lemma_div_at_most(a: int, d: int, m: int)
    requires
        0 <= a <= m * d,
        0 < d,
        0 <= m,
    ensures
        0 <= a / d <= m,
{
    assert(0 <= a / d <= m) by (nonlinear_arith)
        requires
            0 <= a <= m * d,
            0 < d,
            0 <= m,
    ;
}

/// The sine approximation lies within full scale.
pub proof fn lemma_sine_bounded(phase: int)
    requires
        0 <= phase < PHASE_PERIOD,
    ensures
        -WAVE_ONE <= sine_value(phase) <= WAVE_ONE,
{
    let q = if phase < HALF_PERIOD { phase } else { phase - HALF_PERIOD };
    let h = HALF_PERIOD as int;
    let u = q * (h - q);
    lemma_half_product_bound(q);
    assert(16 * WAVE_ONE * u <= WAVE_ONE * (5 * h * h - 4 * u)) by (nonlinear_arith)
        requires
            4 * u <= h * h,
            0 <= u,
    ;
    lemma_div_at_most(16 * WAVE_ONE * u, 5 * h * h - 4 * u, WAVE_ONE as int);
}

/// Sine of a phase in `[0, PHASE_PERIOD)`, by the rational approximation
/// that `sine_value` states.
pub fn sine_wave(phase: u64) -> (r: i64)
    requires
        phase < PHASE_PERIOD,
    ensures
        r == sine_value(phase as int),
        -WAVE_ONE <= r <= WAVE_ONE,
{
    let q: u64 = if phase < HALF_PERIOD {
        phase
    } else {
        phase - HALF_PERIOD
    };
    proof {
        lemma_half_product_bound(q as int);
        lemma_sine_bounded(phase as int);
    }
    let rest: u64 = HALF_PERIOD - q;
    let u: u128 = (q as u128) * (rest as u128);
    let h: u128 = HALF_PERIOD as u128;
    let num: u128 = 16 * (WAVE_ONE as u128) * u;
    let den: u128 = 5 * h * h - 4 * u;
    let mag: u128 = num / den;
    proof {
        let hh = HALF_PERIOD as int;
        assert(num == 16 * WAVE_ONE * (q * (hh - q)));
        assert(num <= WAVE_ONE * den) by (nonlinear_arith)
            requires
                4 * u <= h * h,
                num == 16 * WAVE_ONE * u,
                den == 5 * h * h - 4 * u,
        ;
        lemma_div_at_most(num as int, den as int, WAVE_ONE as int);
    }
    if phase < HALF_PERIOD {
        mag as i64
    } else {
        -(mag as i64)
    }
}

/// Square shape: `WAVE_ONE` below half a cycle, `-WAVE_ONE` from there on.
pub fn square_wave(phase: u64) -> (r: i64)
    requires
        phase < PHASE_PERIOD,
    ensures
        r == square_value(phase as int),
{
    if phase < HALF_PERIOD {
        WAVE_ONE
    } else {
        -WAVE_ONE
    }
}

/// Saw shape: rises linearly from `-WAVE_ONE` across the cycle.
pub fn saw_wave(phase: u64) -> (r: i64)
    requires
        phase < PHASE_PERIOD,
    ensures
        r == saw_value(phase as int),
        -WAVE_ONE <= r < WAVE_ONE,
{
    assert(2 * (phase as u128) * (WAVE_ONE as u128) < 2 * PHASE_PERIOD * WAVE_ONE) by (nonlinear_arith)
        requires
            phase < PHASE_PERIOD,
    ;
    let num: u128 = 2 * (phase as u128) * (WAVE_ONE as u128);
    let scaled: u128 = num / (PHASE_PERIOD as u128);
    proof {
        assert(num < 2 * WAVE_ONE * PHASE_PERIOD);
        assert(scaled < 2 * WAVE_ONE) by (nonlinear_arith)
            requires
                scaled == num / (PHASE_PERIOD as u128),
                num < 2 * WAVE_ONE * PHASE_PERIOD,
        ;
    }
    scaled as i64 - WAVE_ONE
}

/// Raw value of shape `w` at `phase`, dispatched by direct branching.
pub fn wave_at(w: Waveform, phase: u64) -> (r: i64)
    requires
        phase < PHASE_PERIOD,
    ensures
        r == wave_value(w, phase as int),
        -WAVE_ONE <= r <= WAVE_ONE,
{
    match w {
        Waveform::Sine => sine_wave(phase),
        Waveform::Square => square_wave(phase),
        Waveform::Saw => saw_wave(phase),
    }
}

/// New frequency (millihertz) and left/right gains for an existing voice.
#[derive(Clone, Copy, Debug)]
pub struct WaveUpdate {
    pub freq: u64,
    pub amp: (i64, i64),
}

/// A gain is acceptable when its magnitude is at most `MAX_GAIN`.
pub open spec fn gain_ok(a: i64) -> bool {
    -MAX_GAIN <= a <= MAX_GAIN
}

impl WaveUpdate {
    /// Parameters a voice may take: a positive frequency and gains within range.
    pub open spec fn valid(self) -> bool {
        self.freq > 0 && gain_ok(self.amp.0) && gain_ok(self.amp.1)
    }

    /// Whether these parameters may be applied to a voice.
    pub fn is_valid(&self) -> (r: bool)
        ensures
            r == self.valid(),
    {
        self.freq > 0 && -MAX_GAIN <= self.amp.0 && self.amp.0 <= MAX_GAIN && -MAX_GAIN
            <= self.amp.1 && self.amp.1 <= MAX_GAIN
    }
}

/// One oscillator: a shape, a frequency in millihertz, a gain per channel and
/// a phase position within the cycle.
#[derive(Clone, Copy, Debug, PartialEq, Eq, Structural)]
pub struct DynamicWave {
    pub frequency: u64,
    pub lamp: i64,
    pub ramp: i64,
    pub fraction_through: u64,
    pub step: u64,
    pub func: Waveform,
}

impl DynamicWave {
    /// Phase within the cycle and an advance that matches the frequency.
    pub open spec fn wf(self) -> bool {
        self.fraction_through < PHASE_PERIOD && self.step == self.frequency % PHASE_PERIOD
    }

    /// A well-formed voice with a positive frequency and gains within range.
    pub open spec fn valid(self) -> bool {
        self.wf() && self.frequency > 0 && gain_ok(self.lamp) && gain_ok(self.ramp)
    }

    /// The raw shape value at the current phase.
    pub open spec fn raw(self) -> int {
        wave_value(self.func, self.fraction_through as int)
    }

    /// The stereo sample this voice emits at its current phase.
    pub open spec fn output(self) -> (int, int) {
        (self.raw() * self.lamp, self.raw() * self.ramp)
    }

    /// The same voice one frame later: the phase moves by `step`, modulo a cycle.
    pub open spec fn advanced(self) -> DynamicWave {
        DynamicWave {
            fraction_through: ((self.fraction_through + self.step) % (PHASE_PERIOD as int)) as u64,
            ..self
        }
    }

    /// The same voice with new frequency and gains, and its phase kept.
    pub open spec fn updated(self, up: WaveUpdate) -> DynamicWave {
        DynamicWave {
            frequency: up.freq,
            lamp: up.amp.0,
            ramp: up.amp.1,
            step: up.freq % PHASE_PERIOD,
            ..self
        }
    }

    /// A fresh voice at phase zero with the same gain on both channels.
    pub fn new(frequency: u64, amplitude: i64, func: Waveform) -> (r: DynamicWave)
        ensures
            r.wf(),
            r.frequency == frequency,
            r.lamp == amplitude,
            r.ramp == amplitude,
            r.fraction_through == 0,
            r.func == func,
    {
        DynamicWave {
            frequency,
            lamp: amplitude,
            ramp: amplitude,
            step: frequency % PHASE_PERIOD,
            fraction_through: 0,
            func,
        }
    }

    /// Whether this voice may be placed in a voice table.
    pub fn is_valid(&self) -> (r: bool)
        ensures
            r == self.valid(),
    {
        self.fraction_through < PHASE_PERIOD && self.step == self.frequency % PHASE_PERIOD
            && self.frequency > 0 && -MAX_GAIN <= self.lamp && self.lamp <= MAX_GAIN && -MAX_GAIN
            <= self.ramp && self.ramp <= MAX_GAIN
    }

    /// Overwrites frequency and gains and recomputes the phase advance; the
    /// phase itself is left as it was.
    pub fn update(&mut self, up: WaveUpdate)
        ensures
            *final(self) == old(self).updated(up),
    {
        self.frequency = up.freq;
        self.lamp = up.amp.0;
        self.ramp = up.amp.1;
        self.step = up.freq % PHASE_PERIOD;
    }

    /// Emits the sample at the current phase and advances the phase one frame.
    pub fn next(&mut self) -> (r: (i64, i64))
        requires
            old(self).valid(),
        ensures
            r.0 == old(self).output().0,
            r.1 == old(self).output().1,
            *final(self) == old(self).advanced(),
            -SAMPLE_MAX <= r.0 <= SAMPLE_MAX,
            -SAMPLE_MAX <= r.1 <= SAMPLE_MAX,
    {
        let part = wave_at(self.func, self.fraction_through);
        proof {
            lemma_scaled_bound(part as int, self.lamp as int);
            lemma_scaled_bound(part as int, self.ramp as int);
        }
        let ans = (part * self.lamp, part * self.ramp);
        self.fraction_through = (self.fraction_through + self.step) % PHASE_PERIOD;
        ans
    }
}

proof fn lemma_scaled_bound(raw: int, gain: int)
    requires
        -WAVE_ONE <= raw <= WAVE_ONE,
        -MAX_GAIN <= gain <= MAX_GAIN,
    ensures
        -SAMPLE_MAX <= raw * gain <= SAMPLE_MAX,
{
    assert(-SAMPLE_MAX <= raw * gain <= SAMPLE_MAX) by (nonlinear_arith)
        requires
            -WAVE_ONE <= raw <= WAVE_ONE,
            -MAX_GAIN <= gain <= MAX_GAIN,
            SAMPLE_MAX == WAVE_ONE * MAX_GAIN,
    ;
}

} // verus!
