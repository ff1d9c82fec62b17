use vstd::prelude::*;

use vstd::arithmetic::div_mod::lemma_div_by_multiple;

use crate::table::{
    advance_all, command_effect, delete_in, has_id, mix_of, sum_left, sum_right, trunc_div,
    WaveCommand,
};
use crate::voice::{sine_value, DynamicWave, WaveUpdate, Waveform};

verus! {

/// The table after `k` mixed frames.
pub open spec fn after_ticks(s: Seq<(u64, DynamicWave)>, k: nat) -> Seq<(u64, DynamicWave)>
    decreases k,
{
    if k == 0 {
        s
    } else {
        advance_all(after_ticks(s, (k - 1) as nat))
    }
}

/// An accepted update of an existing voice changes its frequency and gains
/// and leaves its phase exactly where it was.
pub proof fn lemma_update_keeps_phase(s: Seq<(u64, DynamicWave)>, id: u64, up: WaveUpdate, i: int)
    requires
        0 <= i < s.len(),
        s[i].0 == id,
        up.valid(),
    ensures
        command_effect(s, WaveCommand::Update(id, up)).len() == s.len(),
        command_effect(s, WaveCommand::Update(id, up))[i].0 == id,
        command_effect(s, WaveCommand::Update(id, up))[i].1.fraction_through
            == s[i].1.fraction_through,
        command_effect(s, WaveCommand::Update(id, up))[i].1.frequency == up.freq,
        command_effect(s, WaveCommand::Update(id, up))[i].1.lamp == up.amp.0,
        command_effect(s, WaveCommand::Update(id, up))[i].1.ramp == up.amp.1,
{
    assert(has_id(s, id));
}

/// Mixing a table with no voices gives exact silence.
pub proof fn lemma_empty_mix_is_silent(s: Seq<(u64, DynamicWave)>)
    requires
        s.len() == 0,
    ensures
        mix_of(s) == (0int, 0int),
{
}

/// A table of one voice mixes to that voice's own output; for a sine voice
/// that is the gain times the sine shape at the current phase.
pub proof fn lemma_single_voice_mix(id: u64, v: DynamicWave)
    ensures
        mix_of(seq![(id, v)]) == v.output(),
        v.func == Waveform::Sine ==> mix_of(seq![(id, v)]) == (
            sine_value(v.fraction_through as int) * v.lamp,
            sine_value(v.fraction_through as int) * v.ramp,
        ),
{
    let s = seq![(id, v)];
    assert(s.drop_last() =~= Seq::<(u64, DynamicWave)>::empty());
    assert(sum_left(s.drop_last()) == 0);
    assert(sum_right(s.drop_last()) == 0);
    assert(s.last() == (id, v));
    assert(sum_left(s) == v.output().0);
    assert(sum_right(s) == v.output().1);
}

proof fn lemma_sum_identical(s: Seq<(u64, DynamicWave)>, v: DynamicWave)
    requires
        forall|i: int| 0 <= i < s.len() ==> (#[trigger] s[i]).1 == v,
    ensures
        sum_left(s) == s.len() * v.output().0,
        sum_right(s) == s.len() * v.output().1,
    decreases s.len(),
{
    if s.len() > 0 {
        let t = s.drop_last();
        assert forall|i: int| 0 <= i < t.len() implies (#[trigger] t[i]).1 == v by {
            assert(t[i] == s[i]);
        }
        lemma_sum_identical(t, v);
        assert(s.last().1 == v);
        assert(sum_left(s) == t.len() * v.output().0 + v.output().0);
        assert(sum_left(s) == s.len() * v.output().0) by (nonlinear_arith)
            requires
                sum_left(s) == t.len() * v.output().0 + v.output().0,
                t.len() + 1 == s.len(),
        ;
        assert(sum_right(s) == s.len() * v.output().1) by (nonlinear_arith)
            requires
                sum_right(s) == t.len() * v.output().1 + v.output().1,
                t.len() + 1 == s.len(),
        ;
    }
}

proof fn lemma_trunc_div_multiple(n: int, x: int)
    requires
        n > 0,
    ensures
        trunc_div(n * x, n) == x,
{
    if x >= 0 {
        assert(n * x >= 0) by (nonlinear_arith)
            requires
                n > 0,
                x >= 0,
        ;
        lemma_div_by_multiple(x, n);
        assert(x * n == n * x) by (nonlinear_arith);
    } else {
        assert(n * x < 0) by (nonlinear_arith)
            requires
                n > 0,
                x < 0,
        ;
        lemma_div_by_multiple(-x, n);
        assert((-x) * n == -(n * x)) by (nonlinear_arith);
    }
}

/// Any number of voices that agree in shape, frequency, gains and phase mix,
/// under mean mixing, to the output of one of them, and still agree after
/// the frame.
pub proof fn lemma_identical_voices_mix(s: Seq<(u64, DynamicWave)>, v: DynamicWave)
    requires
        s.len() > 0,
        forall|i: int| 0 <= i < s.len() ==> (#[trigger] s[i]).1 == v,
    ensures
        mix_of(s) == v.output(),
        forall|i: int| 0 <= i < s.len() ==> (#[trigger] advance_all(s)[i]).1 == v.advanced(),
{
    lemma_sum_identical(s, v);
    lemma_trunc_div_multiple(s.len() as int, v.output().0);
    lemma_trunc_div_multiple(s.len() as int, v.output().1);
}

proof fn lemma_advance_keeps_ids(s: Seq<(u64, DynamicWave)>, id: u64)
    ensures
        has_id(advance_all(s), id) == has_id(s, id),
{
    let a = advance_all(s);
    if has_id(s, id) {
        let i = choose|i: int| 0 <= i < s.len() && s[i].0 == id;
        assert(a[i].0 == id);
    }
    if has_id(a, id) {
        let i = choose|i: int| 0 <= i < a.len() && a[i].0 == id;
        assert(s[i].0 == id);
    }
}

/// After a voice is deleted its id is gone from the table, and it stays gone
/// for every later frame, so no later mix includes that voice.
pub proof fn lemma_deleted_voice_stays_gone(s: Seq<(u64, DynamicWave)>, id: u64, k: nat)
    ensures
        !has_id(delete_in(s, id), id),
        !has_id(after_ticks(delete_in(s, id), k), id),
    decreases k,
{
    let d = delete_in(s, id);
    if has_id(d, id) {
        let i = choose|i: int| 0 <= i < d.len() && d[i].0 == id;
        s.lemma_filter_pred(|e: (u64, DynamicWave)| e.0 != id, i);
    }
    if k > 0 {
        lemma_deleted_voice_stays_gone(s, id, (k - 1) as nat);
        lemma_advance_keeps_ids(after_ticks(d, (k - 1) as nat), id);
    }
}

} // verus!
