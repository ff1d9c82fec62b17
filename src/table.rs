use vstd::prelude::*;

use crate::voice::{DynamicWave, WaveUpdate, SAMPLE_MAX};

verus! {

/// Conditions the engine reports instead of failing.
#[derive(Clone, Copy, Debug, PartialEq, Eq, Structural)]
pub enum WaveError {
    /// An update named a voice id that the table does not hold.
    VoiceNotFound,
    /// A frequency of zero, or a gain out of range.
    InvalidParameter,
    /// The command sender or the frame consumer has gone away.
    EngineStopped,
}

/// A control message for the voice table.
#[derive(Clone, Copy, Debug)]
pub enum WaveCommand {
    Update(u64, WaveUpdate),
    Replace(u64, DynamicWave),
    Delete(u64),
}

/// The live voices, each under its id.
pub struct CompositeWave {
    waves: Vec<(u64, DynamicWave)>,
}

/// Some entry of `s` carries `id`.
pub open spec fn has_id(s: Seq<(u64, DynamicWave)>, id: u64) -> bool {
    exists|i: int| 0 <= i < s.len() && s[i].0 == id
}

/// No two entries of `s` share an id.
pub open spec fn ids_unique(s: Seq<(u64, DynamicWave)>) -> bool {
    forall|i: int, j: int| 0 <= i < s.len() && 0 <= j < s.len() && i != j ==> s[i].0 != s[j].0
}

/// Every voice of `s` is valid.
pub open spec fn all_valid(s: Seq<(u64, DynamicWave)>) -> bool {
    forall|i: int| 0 <= i < s.len() ==> (#[trigger] s[i]).1.valid()
}

/// Sum of the left outputs of the voices of `s`.
pub open spec fn sum_left(s: Seq<(u64, DynamicWave)>) -> int
    decreases s.len(),
{
    if s.len() == 0 {
        0
    } else {
        sum_left(s.drop_last()) + s.last().1.output().0
    }
}

/// Sum of the right outputs of the voices of `s`.
pub open spec fn sum_right(s: Seq<(u64, DynamicWave)>) -> int
    decreases s.len(),
{
    if s.len() == 0 {
        0
    } else {
        sum_right(s.drop_last()) + s.last().1.output().1
    }
}

/// Division rounding toward zero.
pub open spec fn trunc_div(a: int, n: int) -> int {
    if a >= 0 {
        a / n
    } else {
        -((-a) / n)
    }
}

/// The mixed frame of `s`: per channel, the mean of the voices' outputs
/// (rounded toward zero), or silence when there are no voices.
pub open spec fn mix_of(s: Seq<(u64, DynamicWave)>) -> (int, int) {
    if s.len() == 0 {
        (0, 0)
    } else {
        (trunc_div(sum_left(s), s.len() as int), trunc_div(sum_right(s), s.len() as int))
    }
}

/// Every voice of `s` moved on by one frame.
pub open spec fn advance_all(s: Seq<(u64, DynamicWave)>) -> Seq<(u64, DynamicWave)> {
    Seq::new(s.len(), |i: int| (s[i].0, s[i].1.advanced()))
}

/// `s` with the voice under `id` given new parameters.
pub open spec fn update_in(s: Seq<(u64, DynamicWave)>, id: u64, up: WaveUpdate) -> Seq<
    (u64, DynamicWave),
> {
    Seq::new(s.len(), |i: int| if s[i].0 == id { (id, s[i].1.updated(up)) } else { s[i] })
}

/// `s` with `w` stored under `id`: in place of the old voice, or added.
pub open spec fn replace_in(s: Seq<(u64, DynamicWave)>, id: u64, w: DynamicWave) -> Seq<
    (u64, DynamicWave),
> {
    if has_id(s, id) {
        Seq::new(s.len(), |i: int| if s[i].0 == id { (id, w) } else { s[i] })
    } else {
        s.push((id, w))
    }
}

/// `s` without the voice under `id`.
pub open spec fn delete_in(s: Seq<(u64, DynamicWave)>, id: u64) -> Seq<(u64, DynamicWave)> {
    s.filter(|e: (u64, DynamicWave)| e.0 != id)
}

/// The table after `cmd`: a rejected command leaves it as it was.
pub open spec fn command_effect(s: Seq<(u64, DynamicWave)>, cmd: WaveCommand) -> Seq<
    (u64, DynamicWave),
> {
    match cmd {
        WaveCommand::Update(id, up) => if up.valid() && has_id(s, id) {
            update_in(s, id, up)
        } else {
            s
        },
        WaveCommand::Replace(id, w) => if w.valid() {
            replace_in(s, id, w)
        } else {
            s
        },
        WaveCommand::Delete(id) => delete_in(s, id),
    }
}

/// What applying `cmd` to `s` reports.
pub open spec fn command_result(s: Seq<(u64, DynamicWave)>, cmd: WaveCommand) -> Result<
    (),
    WaveError,
> {
    match cmd {
        WaveCommand::Update(id, up) => if !up.valid() {
            Err(WaveError::InvalidParameter)
        } else if !has_id(s, id) {
            Err(WaveError::VoiceNotFound)
        } else {
            Ok(())
        },
        WaveCommand::Replace(id, w) => if !w.valid() {
            Err(WaveError::InvalidParameter)
        } else {
            Ok(())
        },
        WaveCommand::Delete(id) => Ok(()),
    }
}

/// The table after a tick's optional command.
pub open spec fn tick_table(s: Seq<(u64, DynamicWave)>, cmd: Option<WaveCommand>) -> Seq<
    (u64, DynamicWave),
> {
    match cmd {
        Some(c) => command_effect(s, c),
        None => s,
    }
}

/// What a tick's optional command reports.
pub open spec fn tick_result(s: Seq<(u64, DynamicWave)>, cmd: Option<WaveCommand>) -> Result<
    (),
    WaveError,
> {
    match cmd {
        Some(c) => command_result(s, c),
        None => Ok(()),
    }
}

impl View for CompositeWave {
    type V = Seq<(u64, DynamicWave)>;

    closed spec fn view(&self) -> Seq<(u64, DynamicWave)> {
        self.waves@
    }
}

/// Mean of `n` outputs summing to `sum`, rounded toward zero.
fn mean_of(sum: i128, n: usize) -> (r: i64)
    requires
        n > 0,
        -(n * SAMPLE_MAX) <= sum <= n * SAMPLE_MAX,
    ensures
        r == trunc_div(sum as int, n as int),
        -SAMPLE_MAX <= r <= SAMPLE_MAX,
{
    let mag: u128 = if sum >= 0 {
        sum as u128
    } else {
        (-sum) as u128
    };
    let q: u128 = mag / (n as u128);
    proof {
        assert(0 <= q <= SAMPLE_MAX) by (nonlinear_arith)
            requires
                q == mag / (n as u128),
                mag <= n * SAMPLE_MAX,
                n > 0,
        ;
    }
    if sum >= 0 {
        q as i64
    } else {
        -(q as i64)
    }
}

impl CompositeWave {
    /// Ids unique and every voice valid.
    pub open spec fn wf(&self) -> bool {
        ids_unique(self@) && all_valid(self@)
    }

    /// An empty table.
    pub fn new() -> (r: CompositeWave)
        ensures
            r.wf(),
            r@ == Seq::<(u64, DynamicWave)>::empty(),
    {
        CompositeWave { waves: Vec::new() }
    }

    /// Number of live voices.
    pub fn len(&self) -> (r: usize)
        ensures
            r == self@.len(),
    {
        self.waves.len()
    }

    fn find(&self, id: u64) -> (r: Option<usize>)
        ensures
            r matches Some(i) ==> i < self@.len() && self@[i as int].0 == id,
            r is None ==> !has_id(self@, id),
    {
        let mut i: usize = 0;
        while i < self.waves.len()
            invariant
                i <= self@.len(),
                forall|j: int| 0 <= j < i ==> self@[j].0 != id,
            decreases self@.len() - i,
        {
            if self.waves[i].0 == id {
                return Some(i);
            }
            i += 1;
        }
        None
    }

    /// Whether a voice is stored under `id`.
    pub fn contains(&self, id: u64) -> (r: bool)
        ensures
            r == has_id(self@, id),
    {
        self.find(id).is_some()
    }

    /// Gives the voice under `idx` a new frequency and gains, keeping its
    /// phase. Invalid parameters are refused first; then an unknown id. A
    /// refused update leaves the table as it was.
    pub fn update(&mut self, idx: u64, up: WaveUpdate) -> (r: Result<(), WaveError>)
        requires
            old(self).wf(),
        ensures
            final(self).wf(),
            r == command_result(old(self)@, WaveCommand::Update(idx, up)),
            final(self)@ == command_effect(old(self)@, WaveCommand::Update(idx, up)),
    {
        if !up.is_valid() {
            return Err(WaveError::InvalidParameter);
        }
        match self.find(idx) {
            None => Err(WaveError::VoiceNotFound),
            Some(i) => {
                let ghost s0 = self@;
                let mut w = self.waves[i].1;
                w.update(up);
                self.waves.set(i, (idx, w));
                proof {
                    assert(self@ =~= update_in(s0, idx, up));
                }
                Ok(())
            },
        }
    }

    /// Stores `w` under `idx`, in place of any voice already there. An invalid
    /// voice is refused and the table left as it was.
    pub fn replace(&mut self, idx: u64, w: DynamicWave) -> (r: Result<(), WaveError>)
        requires
            old(self).wf(),
        ensures
            final(self).wf(),
            r == command_result(old(self)@, WaveCommand::Replace(idx, w)),
            final(self)@ == command_effect(old(self)@, WaveCommand::Replace(idx, w)),
    {
        if !w.is_valid() {
            return Err(WaveError::InvalidParameter);
        }
        let ghost s0 = self@;
        match self.find(idx) {
            Some(i) => {
                self.waves.set(i, (idx, w));
                proof {
                    assert(self@ =~= replace_in(s0, idx, w));
                }
            },
            None => {
                self.waves.push((idx, w));
                proof {
                    assert(self@ =~= replace_in(s0, idx, w));
                }
            },
        }
        Ok(())
    }

    /// Removes the voice under `idx`, if there is one.
    pub fn delete(&mut self, idx: u64)
        requires
            old(self).wf(),
        ensures
            final(self).wf(),
            final(self)@ == delete_in(old(self)@, idx),
            !has_id(final(self)@, idx),
    {
        let ghost s0 = self@;
        let mut out: Vec<(u64, DynamicWave)> = Vec::new();
        let mut i: usize = 0;
        while i < self.waves.len()
            invariant
                self@ == s0,
                ids_unique(s0),
                all_valid(s0),
                i <= s0.len(),
                out@ == delete_in(s0.take(i as int), idx),
                ids_unique(out@),
                all_valid(out@),
                forall|k: int| 0 <= k < out@.len() ==> (#[trigger] out@[k]).0 != idx,
                forall|k: int|
                    0 <= k < out@.len() ==> exists|j: int|
                        0 <= j < i && (#[trigger] out@[k]) == s0[j],
            decreases s0.len() - i,
        {
            let e = self.waves[i];
            proof {
                assert(s0.take(i + 1).drop_last() =~= s0.take(i as int));
                assert(s0.take(i + 1).last() == e);
                reveal_with_fuel(Seq::filter, 1);
            }
            if e.0 != idx {
                proof {
                    assert forall|k: int| 0 <= k < out@.len() implies out@[k].0 != e.0 by {
                        let j = choose|j: int| 0 <= j < i && out@[k] == s0[j];
                        assert(s0[j].0 != s0[i as int].0);
                    }
                }
                out.push(e);
                proof {
                    assert forall|k: int| 0 <= k < out@.len() implies exists|j: int|
                        0 <= j < i + 1 && (#[trigger] out@[k]) == s0[j] by {
                        if k == out@.len() - 1 {
                            assert(out@[k] == s0[i as int]);
                        } else {
                            let j = choose|j: int| 0 <= j < i && out@[k] == s0[j];
                            assert(out@[k] == s0[j]);
                        }
                    }
                }
            }
            i += 1;
        }
        proof {
            assert(s0.take(s0.len() as int) =~= s0);
        }
        self.waves = out;
    }

    /// Applies one command to the table.
    pub fn apply(&mut self, cmd: WaveCommand) -> (r: Result<(), WaveError>)
        requires
            old(self).wf(),
        ensures
            final(self).wf(),
            r == command_result(old(self)@, cmd),
            final(self)@ == command_effect(old(self)@, cmd),
    {
        match cmd {
            WaveCommand::Update(idx, up) => self.update(idx, up),
            WaveCommand::Replace(idx, w) => self.replace(idx, w),
            WaveCommand::Delete(idx) => {
                self.delete(idx);
                Ok(())
            },
        }
    }

    /// Advances every voice one frame and returns the per-channel mean of
    /// their outputs; an empty table gives silence.
    pub fn next(&mut self) -> (r: (i64, i64))
        requires
            old(self).wf(),
        ensures
            final(self).wf(),
            r.0 == mix_of(old(self)@).0,
            r.1 == mix_of(old(self)@).1,
            final(self)@ == advance_all(old(self)@),
    {
        let ghost s0 = self@;
        let n = self.waves.len();
        let mut sl: i128 = 0;
        let mut sr: i128 = 0;
        let mut i: usize = 0;
        while i < n
            invariant
                n == s0.len(),
                self@.len() == n,
                ids_unique(s0),
                all_valid(s0),
                i <= n,
                forall|j: int| 0 <= j < i ==> self@[j] == (s0[j].0, s0[j].1.advanced()),
                forall|j: int| i <= j < n ==> self@[j] == s0[j],
                sl == sum_left(s0.take(i as int)),
                sr == sum_right(s0.take(i as int)),
                -(i * SAMPLE_MAX) <= sl <= i * SAMPLE_MAX,
                -(i * SAMPLE_MAX) <= sr <= i * SAMPLE_MAX,
            decreases n - i,
        {
            let e = self.waves[i];
            let mut w = e.1;
            assert(s0[i as int].1.valid());
            let out = w.next();
            proof {
                assert(s0.take(i + 1).drop_last() =~= s0.take(i as int));
                assert(s0.take(i + 1).last() == s0[i as int]);
            }
            sl = sl + out.0 as i128;
            sr = sr + out.1 as i128;
            self.waves.set(i, (e.0, w));
            i += 1;
        }
        proof {
            assert(s0.take(n as int) =~= s0);
            assert(self@ =~= advance_all(s0));
            assert forall|j: int| 0 <= j < self@.len() implies (#[trigger] self@[j]).1.valid() by {
                assert(s0[j].1.valid());
            }
        }
        if n == 0 {
            (0, 0)
        } else {
            (mean_of(sl, n), mean_of(sr, n))
        }
    }

    /// One tick: applies at most one command, then mixes the next frame.
    /// A refused command is reported and the frame is produced all the same.
    pub fn generate(&mut self, cmd: Option<WaveCommand>) -> (r: (Result<(), WaveError>, (i64, i64)))
        requires
            old(self).wf(),
        ensures
            final(self).wf(),
            r.0 == tick_result(old(self)@, cmd),
            r.1.0 == mix_of(tick_table(old(self)@, cmd)).0,
            r.1.1 == mix_of(tick_table(old(self)@, cmd)).1,
            final(self)@ == advance_all(tick_table(old(self)@, cmd)),
    {
        let res = match cmd {
            Some(c) => self.apply(c),
            None => Ok(()),
        };
        let frame = self.next();
        (res, frame)
    }

    /// The voice stored under `id`, if any.
    pub fn get(&self, id: u64) -> (r: Option<DynamicWave>)
        requires
            self.wf(),
        ensures
            r is None <==> !has_id(self@, id),
            r matches Some(w) ==> exists|i: int|
                0 <= i < self@.len() && self@[i].0 == id && self@[i].1 == w,
    {
        match self.find(id) {
            Some(i) => Some(self.waves[i].1),
            None => None,
        }
    }
}

} // verus!
