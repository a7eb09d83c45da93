//! The monotonic timestamp corrector: a stateful filter that turns a raw,
//! possibly non-monotonic sequence of input instants into a
//! non-decreasing sequence of atomic-domain output instants.

use vstd::prelude::*;
use crate::timestamp::{ntp_to_tai, LEAP_SECONDS, NANOSECONDS_PER_SECOND, UNIX_TO_NTP_SECONDS};

verus! {

/// When an output instant would regress, it is replaced by the previous
/// output moved forward by this many nanoseconds.
pub const CORRECTION_DELTA_NANOS: u64 = 15_000_000;

/// A raw input larger than this that still cannot be converted to the
/// atomic domain makes the corrector fail fatally instead of dropping the
/// record: absence has been sustained too long.
pub const SUSTAINED_ABSENCE_BOUND_NANOS: u64 = 15 * NANOSECONDS_PER_SECOND;

/// The time domain of the raw input instants.
#[derive(Clone, Copy, Debug, PartialEq, Eq)]
pub enum InputTimestampMode {
    /// Inputs count nanoseconds since the network-time epoch.
    Ntp,
    /// Inputs are already atomic-domain nanoseconds; passed through.
    Tai,
    /// The first input is anchored to the current time; all inputs are
    /// then offset by the same fixed amount.
    StartAtCurrentTime,
    /// The first input is anchored to a configured start instant; all
    /// inputs are then offset by the same fixed amount.
    StartAtFixedTime,
}

/// What the corrector decided for one record.
#[derive(Clone, Copy, Debug, PartialEq, Eq)]
pub enum CorrectorOutcome {
    /// Forward the record with this output instant; when `dts` is present,
    /// the record's decode instant is replaced by it as well.
    Forward { pts: u64, dts: Option<u64> },
    /// Drop the record: it carries no instant convertible to the atomic
    /// domain.
    Dropped,
}

/// The one fatal failure of the corrector: inputs have lacked a convertible
/// instant for longer than the sustained-absence bound.
#[derive(Clone, Copy, Debug, PartialEq, Eq)]
pub struct CorrectionError;

/// The corrector's state: the configured mode and anchor, the fixed offset
/// established once per session, and the previous corrected input and
/// output instants.
pub struct TimestampCorrector {
    pub mode: InputTimestampMode,
    /// The configured start instant, used by the fixed-time-anchored mode.
    pub start_timestamp: u64,
    /// The per-session offset, in nanoseconds, fixed by the first valid
    /// input in the two anchored modes; never set in the others.
    pub offset: Option<i128>,
    /// The corrected input instant of the last forwarded record.
    pub prev_input: Option<u64>,
    /// The output instant of the last forwarded record.
    pub prev_output: Option<u64>,
}

impl TimestampCorrector {
    /// The state invariant: previous input and output are recorded
    /// together, an offset exists only in the anchored modes and whenever a
    /// record has been forwarded in one of them, and the offset is the
    /// difference of two nanosecond counts.
    pub open spec fn wf(self) -> bool {
        &&& (self.prev_input is Some <==> self.prev_output is Some)
        &&& (self.offset is Some ==> self.mode is StartAtCurrentTime || self.mode
            is StartAtFixedTime)
        &&& ((self.mode is StartAtCurrentTime || self.mode is StartAtFixedTime)
            && self.prev_input is Some ==> self.offset is Some)
        &&& (self.offset is Some ==> -(u64::MAX as int) <= self.offset->0 <= u64::MAX as int)
    }

    /// The offset after seeing a valid raw input `input` at current time
    /// `now`: in an anchored mode it is fixed by the first valid input and
    /// never changes again; in the other modes there is none.
    pub open spec fn spec_offset_after(self, input: u64, now: u64) -> Option<i128> {
        match self.mode {
            InputTimestampMode::StartAtCurrentTime => match self.offset {
                Some(o) => Some(o),
                None => Some((now - input) as i128),
            },
            InputTimestampMode::StartAtFixedTime => match self.offset {
                Some(o) => Some(o),
                None => Some((self.start_timestamp - input) as i128),
            },
            _ => None,
        }
    }

    /// The corrected input instant: the raw input carried into the atomic
    /// domain by the configured mode, or none when it falls outside the
    /// domain.
    pub open spec fn spec_corrected(self, input: u64, now: u64) -> Option<u64> {
        match self.mode {
            InputTimestampMode::Tai => Some(input),
            InputTimestampMode::Ntp => ntp_to_tai(input),
            _ => {
                let c = input + self.spec_offset_after(input, now)->0;
                if 0 <= c <= u64::MAX {
                    Some(c as u64)
                } else {
                    None
                }
            },
        }
    }

    /// The output instant for a convertible input: an unchanged input
    /// re-emits the previous output; an increase is accepted; a regression
    /// is replaced by the previous output plus the correction delta.
    pub open spec fn spec_output(self, c: u64) -> u64 {
        if self.prev_input == Some(c) {
            self.prev_output->0
        } else if self.prev_output is Some {
            if self.prev_output->0 < c {
                c
            } else if self.prev_output->0 + CORRECTION_DELTA_NANOS <= u64::MAX {
                (self.prev_output->0 + CORRECTION_DELTA_NANOS) as u64
            } else {
                u64::MAX
            }
        } else {
            c
        }
    }

    /// The state after one record.
    pub open spec fn spec_step_state(self, input_pts: Option<u64>, now: u64) -> Self {
        match input_pts {
            None => self,
            Some(input) => match self.spec_corrected(input, now) {
                None => TimestampCorrector {
                    mode: self.mode,
                    start_timestamp: self.start_timestamp,
                    offset: self.spec_offset_after(input, now),
                    prev_input: self.prev_input,
                    prev_output: self.prev_output,
                },
                Some(c) => TimestampCorrector {
                    mode: self.mode,
                    start_timestamp: self.start_timestamp,
                    offset: self.spec_offset_after(input, now),
                    prev_input: Some(c),
                    prev_output: Some(self.spec_output(c)),
                },
            },
        }
    }

    /// The decision for one record.
    pub open spec fn spec_step_result(
        self,
        input_pts: Option<u64>,
        input_dts: Option<u64>,
        now: u64,
    ) -> Result<CorrectorOutcome, CorrectionError> {
        match input_pts {
            None => Ok(CorrectorOutcome::Dropped),
            Some(input) => match self.spec_corrected(input, now) {
                None => if input > SUSTAINED_ABSENCE_BOUND_NANOS {
                    Err(CorrectionError)
                } else {
                    Ok(CorrectorOutcome::Dropped)
                },
                Some(c) => Ok(
                    CorrectorOutcome::Forward {
                        pts: self.spec_output(c),
                        dts: self.spec_adjusted_dts(input_dts, input, now),
                    },
                ),
            },
        }
    }

    /// The adjusted decode instant: the input decode instant moved by the
    /// session offset, when both exist and the result stays in range;
    /// otherwise none, and the record's decode instant is left untouched.
    pub open spec fn spec_adjusted_dts(self, input_dts: Option<u64>, input: u64, now: u64) -> Option<
        u64,
    > {
        match (input_dts, self.spec_offset_after(input, now)) {
            (Some(d), Some(o)) => if 0 <= d + o <= u64::MAX {
                Some((d + o) as u64)
            } else {
                None
            },
            _ => None,
        }
    }

    /// A fresh corrector for one session.
    pub fn new(mode: InputTimestampMode, start_timestamp: u64) -> (r: Self)
        ensures
            r.wf(),
            r.mode == mode,
            r.start_timestamp == start_timestamp,
            r.offset is None,
            r.prev_input is None,
            r.prev_output is None,
    {
        TimestampCorrector {
            mode,
            start_timestamp,
            offset: None,
            prev_input: None,
            prev_output: None,
        }
    }

    /// Corrects one record's instants.
    ///
    /// A record without an instant, or whose instant cannot be carried into
    /// the atomic domain, is dropped — unless absence has been sustained
    /// past the bound, which fails the session fatally.  A forwarded
    /// record's output instant never falls below the previous output.
    pub fn process(&mut self, input_pts: Option<u64>, input_dts: Option<u64>, now: u64) -> (r:
        Result<CorrectorOutcome, CorrectionError>)
        requires
            old(self).wf(),
        ensures
            final(self).wf(),
            *final(self) == old(self).spec_step_state(input_pts, now),
            r == old(self).spec_step_result(input_pts, input_dts, now),
            // the output sequence never decreases
            old(self).prev_output is Some && final(self).prev_output is Some ==> old(
                self,
            ).prev_output->0 <= final(self).prev_output->0,
            // a forwarded instant is exactly the new previous output
            r matches Ok(CorrectorOutcome::Forward { pts, .. }) ==> final(self).prev_output
                == Some(pts),
    {
        let input = match input_pts {
            None => {
                return Ok(CorrectorOutcome::Dropped);
            },
            Some(i) => i,
        };
        // Fix the session offset on the first valid input in the anchored
        // modes.
        match self.mode {
            InputTimestampMode::StartAtCurrentTime => {
                if self.offset.is_none() {
                    self.offset = Some(now as i128 - input as i128);
                }
            },
            InputTimestampMode::StartAtFixedTime => {
                if self.offset.is_none() {
                    self.offset = Some(self.start_timestamp as i128 - input as i128);
                }
            },
            _ => {},
        }
        // Carry the raw input into the atomic domain.
        let corrected: Option<u64> = match self.mode {
            InputTimestampMode::Tai => Some(input),
            InputTimestampMode::Ntp => {
                if input >= UNIX_TO_NTP_SECONDS * NANOSECONDS_PER_SECOND {
                    match (input - UNIX_TO_NTP_SECONDS * NANOSECONDS_PER_SECOND).checked_add(
                        LEAP_SECONDS * NANOSECONDS_PER_SECOND,
                    ) {
                        Some(t) => Some(t),
                        None => None,
                    }
                } else {
                    None
                }
            },
            _ => {
                let o = match self.offset {
                    Some(o) => o,
                    None => 0,
                };
                let c: i128 = input as i128 + o;
                if 0 <= c && c <= u64::MAX as i128 {
                    Some(c as u64)
                } else {
                    None
                }
            },
        };
        let c = match corrected {
            None => {
                if input > SUSTAINED_ABSENCE_BOUND_NANOS {
                    return Err(CorrectionError);
                } else {
                    return Ok(CorrectorOutcome::Dropped);
                }
            },
            Some(c) => c,
        };
        // Decide the output instant: re-emit on no change, accept an
        // increase, and move a regression just past the previous output.
        let output: u64 = if self.prev_input.is_some() && self.prev_input.unwrap() == c {
            self.prev_output.unwrap()
        } else if self.prev_output.is_some() {
            let prev = self.prev_output.unwrap();
            if prev < c {
                c
            } else {
                prev.saturating_add(CORRECTION_DELTA_NANOS)
            }
        } else {
            c
        };
        let dts: Option<u64> = match (input_dts, self.offset) {
            (Some(d), Some(o)) => {
                let a: i128 = d as i128 + o;
                if 0 <= a && a <= u64::MAX as i128 {
                    Some(a as u64)
                } else {
                    None
                }
            },
            _ => None,
        };
        self.prev_input = Some(c);
        self.prev_output = Some(output);
        Ok(CorrectorOutcome::Forward { pts: output, dts })
    }
}

/// The instant forwarded by one step, or none when the record is dropped or
/// the corrector fails.
pub open spec fn step_output(s: TimestampCorrector, input_pts: Option<u64>, now: u64) -> Option<
    u64,
> {
    match s.spec_step_result(input_pts, None, now) {
        Ok(CorrectorOutcome::Forward { pts, .. }) => Some(pts),
        _ => None,
    }
}

/// The corrector state after a whole sequence of records, one per step,
/// with `nows[k]` the current time at step `k`.
pub open spec fn run_state(
    s0: TimestampCorrector,
    inputs: Seq<Option<u64>>,
    nows: Seq<u64>,
) -> TimestampCorrector
    decreases inputs.len(),
{
    if inputs.len() == 0 {
        s0
    } else {
        run_state(s0, inputs.drop_last(), nows.drop_last()).spec_step_state(
            inputs.last(),
            nows.last(),
        )
    }
}

/// The instants forwarded for a whole sequence of records, with none at the
/// steps whose record was dropped.
pub open spec fn run_outputs(
    s0: TimestampCorrector,
    inputs: Seq<Option<u64>>,
    nows: Seq<u64>,
) -> Seq<Option<u64>>
    decreases inputs.len(),
{
    if inputs.len() == 0 {
        Seq::empty()
    } else {
        run_outputs(s0, inputs.drop_last(), nows.drop_last()).push(
            step_output(
                run_state(s0, inputs.drop_last(), nows.drop_last()),
                inputs.last(),
                nows.last(),
            ),
        )
    }
}

/// One step keeps the invariant, never lowers the previous output, and
/// records a forwarded instant as the new previous output.
pub proof fn lemma_step_monotonic(s: TimestampCorrector, input_pts: Option<u64>, now: u64)
    requires
        s.wf(),
    ensures
        s.spec_step_state(input_pts, now).wf(),
        s.prev_output is Some ==> s.spec_step_state(input_pts, now).prev_output is Some
            && s.prev_output->0 <= s.spec_step_state(input_pts, now).prev_output->0,
        step_output(s, input_pts, now) is Some ==> s.spec_step_state(input_pts, now).prev_output
            == step_output(s, input_pts, now),
        step_output(s, input_pts, now) is None ==> s.spec_step_state(input_pts, now).prev_output
            == s.prev_output,
{
}

/// The state reached after the first `k` steps.
pub open spec fn state_at(
    s0: TimestampCorrector,
    inputs: Seq<Option<u64>>,
    nows: Seq<u64>,
    k: int,
) -> TimestampCorrector {
    run_state(s0, inputs.take(k), nows.take(k))
}

/// Each prefix state satisfies the invariant and follows from the previous
/// one by one step.
pub proof fn lemma_state_at(s0: TimestampCorrector, inputs: Seq<Option<u64>>, nows: Seq<u64>, k: int)
    requires
        s0.wf(),
        inputs.len() == nows.len(),
        0 <= k <= inputs.len(),
    ensures
        state_at(s0, inputs, nows, k).wf(),
        k > 0 ==> state_at(s0, inputs, nows, k) == state_at(s0, inputs, nows, k - 1).spec_step_state(
            inputs[k - 1],
            nows[k - 1],
        ),
    decreases k,
{
    if k > 0 {
        lemma_state_at(s0, inputs, nows, k - 1);
        assert(inputs.take(k).drop_last() =~= inputs.take(k - 1));
        assert(nows.take(k).drop_last() =~= nows.take(k - 1));
        assert(inputs.take(k).last() == inputs[k - 1]);
        lemma_step_monotonic(state_at(s0, inputs, nows, k - 1), inputs[k - 1], nows[k - 1]);
    }
}

/// The previous output never decreases across any span of steps.
pub proof fn lemma_prev_output_monotonic(
    s0: TimestampCorrector,
    inputs: Seq<Option<u64>>,
    nows: Seq<u64>,
    m: int,
    n: int,
)
    requires
        s0.wf(),
        inputs.len() == nows.len(),
        0 <= m <= n <= inputs.len(),
        state_at(s0, inputs, nows, m).prev_output is Some,
    ensures
        state_at(s0, inputs, nows, n).prev_output is Some,
        state_at(s0, inputs, nows, m).prev_output->0 <= state_at(s0, inputs, nows, n).prev_output->0,
    decreases n - m,
{
    if m < n {
        lemma_state_at(s0, inputs, nows, n);
        lemma_state_at(s0, inputs, nows, n - 1);
        lemma_prev_output_monotonic(s0, inputs, nows, m, n - 1);
        lemma_step_monotonic(state_at(s0, inputs, nows, n - 1), inputs[n - 1], nows[n - 1]);
    }
}

/// The output at step `k` is the one-step output from the state before it,
/// and the output sequence is as long as the input sequence.
pub proof fn lemma_run_outputs_at(
    s0: TimestampCorrector,
    inputs: Seq<Option<u64>>,
    nows: Seq<u64>,
    k: int,
)
    requires
        inputs.len() == nows.len(),
        0 <= k < inputs.len(),
    ensures
        run_outputs(s0, inputs, nows).len() == inputs.len(),
        run_outputs(s0, inputs, nows)[k] == step_output(
            state_at(s0, inputs, nows, k),
            inputs[k],
            nows[k],
        ),
    decreases inputs.len(),
{
    lemma_run_outputs_len(s0, inputs, nows);
    if k == inputs.len() - 1 {
        assert(inputs.take(k) =~= inputs.drop_last());
        assert(nows.take(k) =~= nows.drop_last());
    } else {
        lemma_run_outputs_at(s0, inputs.drop_last(), nows.drop_last(), k);
        assert(inputs.drop_last().take(k) =~= inputs.take(k));
        assert(nows.drop_last().take(k) =~= nows.take(k));
    }
}

/// The output sequence is as long as the input sequence.
pub proof fn lemma_run_outputs_len(s0: TimestampCorrector, inputs: Seq<Option<u64>>, nows: Seq<u64>)
    requires
        inputs.len() == nows.len(),
    ensures
        run_outputs(s0, inputs, nows).len() == inputs.len(),
    decreases inputs.len(),
{
    if inputs.len() > 0 {
        lemma_run_outputs_len(s0, inputs.drop_last(), nows.drop_last());
    }
}

/// Monotonicity law: for every sequence of raw input instants fed to the
/// corrector, the sequence of forwarded output instants is non-decreasing.
pub proof fn lemma_corrector_monotonic(
    s0: TimestampCorrector,
    inputs: Seq<Option<u64>>,
    nows: Seq<u64>,
    i: int,
    j: int,
)
    requires
        s0.wf(),
        inputs.len() == nows.len(),
        0 <= i <= j < inputs.len(),
        run_outputs(s0, inputs, nows)[i] is Some,
        run_outputs(s0, inputs, nows)[j] is Some,
    ensures
        run_outputs(s0, inputs, nows)[i]->0 <= run_outputs(s0, inputs, nows)[j]->0,
{
    if i < j {
        lemma_run_outputs_at(s0, inputs, nows, i);
        lemma_run_outputs_at(s0, inputs, nows, j);
        lemma_state_at(s0, inputs, nows, i);
        lemma_state_at(s0, inputs, nows, i + 1);
        lemma_step_monotonic(state_at(s0, inputs, nows, i), inputs[i], nows[i]);
        lemma_prev_output_monotonic(s0, inputs, nows, i + 1, j);
        lemma_state_at(s0, inputs, nows, j);
        lemma_step_monotonic(state_at(s0, inputs, nows, j), inputs[j], nows[j]);
    }
}

/// Idempotence law: two consecutive equal raw inputs yield exactly equal
/// outcomes — the same forwarded instant, or both records dropped.
pub proof fn lemma_corrector_idempotent(
    s0: TimestampCorrector,
    inputs: Seq<Option<u64>>,
    nows: Seq<u64>,
    i: int,
)
    requires
        s0.wf(),
        inputs.len() == nows.len(),
        0 <= i,
        i + 1 < inputs.len(),
        inputs[i] == inputs[i + 1],
    ensures
        run_outputs(s0, inputs, nows)[i + 1] == run_outputs(s0, inputs, nows)[i],
{
    lemma_run_outputs_at(s0, inputs, nows, i);
    lemma_run_outputs_at(s0, inputs, nows, i + 1);
    lemma_state_at(s0, inputs, nows, i);
    lemma_state_at(s0, inputs, nows, i + 1);
    lemma_step_monotonic(state_at(s0, inputs, nows, i), inputs[i], nows[i]);
}

} // verus!
