//! The alarm timer driver: maps abstract "wake me at time T" requests onto
//! the single hardware comparator of the CLINT.
//!
//! A fixed-capacity table of alarm slots is handed out one slot at a time;
//! there is no free operation, so the total number of alarms over the process
//! lifetime is bounded by the table capacity. On the real machine every
//! mutation of the table and the comparator runs inside one critical section;
//! here that atomic unit is one call on exclusively owned state.

use vstd::prelude::*;

use crate::hw::ClintRegs;
use crate::waker::WakeTarget;

verus! {

/// Ticks per second of the hardware counter; the fixed reload period of the
/// timer interrupt handler.
pub const FREQUENCY_HZ: u64 = 32768;

/// Capacity of the alarm table.
pub const ALARM_COUNT: usize = 1;

/// Sentinel deadline meaning "disarmed".
pub const DISARMED: u64 = u64::MAX;

/// Opaque reference to one slot of the alarm table. Handles are validated by
/// construction discipline (they come out of `allocate_alarm`), stated as a
/// contract rather than range-checked at use.
#[derive(Clone, Copy, PartialEq, Eq, Structural, Debug)]
pub struct AlarmHandle {
    pub id: u8,
}

/// The state of one alarm slot.
#[derive(Clone, Copy, PartialEq, Eq, Structural, Debug)]
pub struct AlarmState {
    /// The tick count at which the alarm should fire; [`DISARMED`] when the
    /// slot is not armed.
    pub timestamp: u64,
    /// The wake target signalled when the alarm fires; in place of the
    /// untyped callback-and-context pointer pair, a typed wake handle.
    pub callback: Option<WakeTarget>,
}

impl AlarmState {
    /// A fresh slot: disarmed, no callback.
    pub fn new() -> (r: AlarmState)
        ensures
            r.timestamp == DISARMED,
            r.callback is None,
    {
        AlarmState { timestamp: DISARMED, callback: None }
    }
}

/// One driver-visible effect on the CLINT registers. Together with
/// [`clint_step`] this is the small-step model of everything that ever
/// touches the timer hardware.
pub enum ClintOp {
    /// Hardware: the tick counter advances by `delta`.
    Tick { delta: u64 },
    /// Driver: `set_alarm` programs the comparator to a future timestamp and
    /// enables the timer interrupt.
    Arm { timestamp: u64 },
    /// Driver: `set_alarm` observes an already-past timestamp and disables
    /// the timer interrupt.
    Disarm,
    /// Interrupt handler: the comparator is reloaded by the fixed period.
    Reload,
}

/// The effect of one operation on the CLINT registers. The counter saturates
/// rather than wraps here: the library's tick functions require that the
/// 64-bit counter does not overflow (at 32768 ticks per second it cannot
/// within any process lifetime).
pub open spec fn clint_step(c: ClintRegs, op: ClintOp) -> ClintRegs {
    match op {
        ClintOp::Tick { delta } => if c.mtime + delta <= u64::MAX {
            ClintRegs { mtime: (c.mtime + delta) as u64, ..c }
        } else {
            c
        },
        ClintOp::Arm { timestamp } => ClintRegs { mtimecmp: timestamp, mtimer_enabled: true, ..c },
        ClintOp::Disarm => ClintRegs { mtimer_enabled: false, ..c },
        ClintOp::Reload => if c.mtimecmp + FREQUENCY_HZ <= u64::MAX {
            ClintRegs { mtimecmp: (c.mtimecmp + FREQUENCY_HZ) as u64, ..c }
        } else {
            c
        },
    }
}

/// The CLINT registers after a whole sequence of operations.
pub open spec fn clint_run(c: ClintRegs, ops: Seq<ClintOp>) -> ClintRegs
    decreases ops.len(),
{
    if ops.len() == 0 {
        c
    } else {
        clint_step(clint_run(c, ops.drop_last()), ops.last())
    }
}

/// A hardware tick, as [`ClintRegs::advance`] ensures it, is one `Tick` step
/// of this model: the four operations of [`ClintOp`] cover everything that
/// ever touches the CLINT.
pub proof fn lemma_advance_is_tick(c1: ClintRegs, c2: ClintRegs, delta: u64)
    requires
        c1.mtime + delta <= u64::MAX,
        c2.mtime == c1.mtime + delta,
        c2.mtimecmp == c1.mtimecmp,
        c2.mtimer_enabled == c1.mtimer_enabled,
    ensures
        c2 == clint_step(c1, ClintOp::Tick { delta }),
{
}

/// The tick counter is monotonically non-decreasing under any interleaving
/// of hardware ticks, driver calls and interrupt handler runs: no operation
/// of this module ever moves `now()` backwards.
pub proof fn lemma_now_monotonic(c: ClintRegs, ops: Seq<ClintOp>)
    ensures
        clint_run(c, ops).mtime >= c.mtime,
    decreases ops.len(),
{
    if ops.len() > 0 {
        lemma_now_monotonic(c, ops.drop_last());
    }
}

/// No operation but a hardware tick changes the tick counter: between two
/// reads of `now()`, driver calls and interrupt handler runs alone leave the
/// observed time exactly where it was.
pub proof fn lemma_only_ticks_move_time(c: ClintRegs, ops: Seq<ClintOp>)
    requires
        forall|i: int| 0 <= i < ops.len() ==> !(ops[i] is Tick),
    ensures
        clint_run(c, ops).mtime == c.mtime,
    decreases ops.len(),
{
    if ops.len() > 0 {
        lemma_only_ticks_move_time(c, ops.drop_last());
    }
}

/// Hardware ticks leave the comparator and its enable bit alone.
pub proof fn lemma_ticks_preserve_comparator(c: ClintRegs, ops: Seq<ClintOp>)
    requires
        forall|i: int| 0 <= i < ops.len() ==> ops[i] is Tick,
    ensures
        clint_run(c, ops).mtimecmp == c.mtimecmp,
        clint_run(c, ops).mtimer_enabled == c.mtimer_enabled,
    decreases ops.len(),
{
    if ops.len() > 0 {
        lemma_ticks_preserve_comparator(c, ops.drop_last());
    }
}

/// After `set_alarm` arms the comparator at `timestamp`, the timer interrupt
/// cannot become pending — so the handler's reload cannot occur — while the
/// counter has not yet reached `timestamp`, no matter how many hardware
/// ticks pass.
pub proof fn lemma_no_fire_before_deadline(c: ClintRegs, ops: Seq<ClintOp>, timestamp: u64)
    requires
        c.mtimecmp == timestamp,
        forall|i: int| 0 <= i < ops.len() ==> ops[i] is Tick,
        clint_run(c, ops).mtime < timestamp,
    ensures
        !clint_run(c, ops).timer_interrupt_pending(),
{
    lemma_ticks_preserve_comparator(c, ops);
}

/// Whether an allocation from a table holding `count` alarms succeeds.
pub open spec fn alloc_succeeds(count: int) -> bool {
    count < ALARM_COUNT
}

/// The allocation counter after `k` further `allocate_alarm` calls.
pub open spec fn count_after_allocations(count: int, k: nat) -> int
    decreases k,
{
    if k == 0 {
        count
    } else {
        let c = count_after_allocations(count, (k - 1) as nat);
        if alloc_succeeds(c) {
            c + 1
        } else {
            c
        }
    }
}

/// The allocation counter after `k` calls is exactly `count + k`, capped at
/// the table capacity.
pub proof fn lemma_alloc_count(count: int, k: nat)
    requires
        0 <= count <= ALARM_COUNT,
    ensures
        count_after_allocations(count, k) == if count + k <= ALARM_COUNT {
            count + k
        } else {
            ALARM_COUNT as int
        },
    decreases k,
{
    if k > 0 {
        lemma_alloc_count(count, (k - 1) as nat);
    }
}

/// Of any sequence of `allocate_alarm` calls at most [`ALARM_COUNT`] succeed
/// (each success raises the counter by one and nothing lowers it), and once
/// the table is exhausted every later call fails.
pub proof fn lemma_alloc_at_most_capacity(count: int, k: nat)
    requires
        0 <= count <= ALARM_COUNT,
    ensures
        count_after_allocations(count, k) - count <= ALARM_COUNT,
        k + count >= ALARM_COUNT ==> !alloc_succeeds(count_after_allocations(count, k)),
{
    lemma_alloc_count(count, k);
}

/// The alarm timer driver: the allocation counter and the fixed-capacity
/// table of alarm slots. On the real machine this is a process-wide
/// singleton reached only through a critical-section scope; constructing it
/// once at the composition root and threading it explicitly makes that
/// single-owner discipline visible in the types.
#[derive(PartialEq, Eq, Debug)]
pub struct TimerDriver {
    /// How many slots have been handed out. Never exceeds [`ALARM_COUNT`]
    /// and never decreases: slots are not freed or reused.
    pub alarm_count: u8,
    /// The alarm slots; exactly [`ALARM_COUNT`] of them.
    pub alarms: Vec<AlarmState>,
}

impl TimerDriver {
    /// The table is full-sized and the counter never exceeds capacity.
    pub open spec fn wf(self) -> bool {
        self.alarms@.len() == ALARM_COUNT && self.alarm_count <= ALARM_COUNT
    }

    /// A handle is meaningful once it has been allocated.
    pub open spec fn valid_handle(self, alarm: AlarmHandle) -> bool {
        alarm.id < self.alarm_count
    }

    /// A fresh driver: nothing allocated, every slot disarmed with no
    /// callback.
    pub fn new() -> (r: TimerDriver)
        ensures
            r.wf(),
            r.alarm_count == 0,
            forall|i: int|
                0 <= i < ALARM_COUNT ==> r.alarms@[i] == (AlarmState {
                    timestamp: DISARMED,
                    callback: None,
                }),
    {
        let mut alarms: Vec<AlarmState> = Vec::new();
        while alarms.len() < ALARM_COUNT
            invariant
                alarms@.len() <= ALARM_COUNT,
                forall|i: int|
                    0 <= i < alarms@.len() ==> alarms@[i] == (AlarmState {
                        timestamp: DISARMED,
                        callback: None,
                    }),
            decreases ALARM_COUNT - alarms.len(),
        {
            alarms.push(AlarmState::new());
        }
        TimerDriver { alarm_count: 0, alarms }
    }

    /// The state of the slot a handle refers to.
    fn get_alarm(&self, alarm: AlarmHandle) -> (r: AlarmState)
        requires
            self.wf(),
            self.valid_handle(alarm),
        ensures
            r == self.alarms@[alarm.id as int],
    {
        self.alarms[alarm.id as usize]
    }

    /// The current time in ticks: a read of the hardware counter. Pure, no
    /// side effect, safe from any context.
    pub fn now(&self, clint: &ClintRegs) -> (r: u64)
        ensures
            r == clint.mtime,
    {
        clint.mtime
    }

    /// Hand out the next alarm slot if capacity remains, else none. The call
    /// succeeds exactly while fewer than [`ALARM_COUNT`] slots are out; a
    /// failure is permanent (nothing is ever freed) and must be surfaced to
    /// the caller, not retried. Earlier handles stay valid and their slots
    /// untouched. On the real machine the caller guarantees mutual
    /// exclusion; here the exclusive borrow does.
    pub fn allocate_alarm(&mut self) -> (r: Option<AlarmHandle>)
        requires
            old(self).wf(),
        ensures
            final(self).wf(),
            r is Some <==> alloc_succeeds(old(self).alarm_count as int),
            final(self).alarm_count as int == count_after_allocations(
                old(self).alarm_count as int,
                1,
            ),
            r is Some ==> r == Some(AlarmHandle { id: old(self).alarm_count })
                && final(self).valid_handle(r->0),
            r is None ==> final(self).alarm_count == old(self).alarm_count,
            final(self).alarms@ == old(self).alarms@,
            forall|h: AlarmHandle|
                old(self).valid_handle(h) ==> #[trigger] final(self).valid_handle(h),
    {
        proof {
            reveal_with_fuel(count_after_allocations, 2);
        }
        let id = self.alarm_count;
        if (id as usize) < ALARM_COUNT {
            self.alarm_count = id + 1;
            Some(AlarmHandle { id })
        } else {
            None
        }
    }

    /// Store the wake target invoked when the alarm fires. No immediate
    /// effect on hardware state; must be called before the first `set_alarm`
    /// on the handle.
    pub fn set_alarm_callback(&mut self, alarm: AlarmHandle, callback: WakeTarget)
        requires
            old(self).wf(),
            old(self).valid_handle(alarm),
        ensures
            final(self).wf(),
            final(self).alarm_count == old(self).alarm_count,
            final(self).alarms@ == old(self).alarms@.update(
                alarm.id as int,
                (AlarmState {
                    timestamp: old(self).alarms@[alarm.id as int].timestamp,
                    callback: Some(callback),
                }),
            ),
    {
        let mut slot = self.get_alarm(alarm);
        slot.callback = Some(callback);
        self.alarms[alarm.id as usize] = slot;
    }

    /// Arm the alarm: store `timestamp` as the slot's deadline, then compare
    /// against `now()`.
    ///
    /// If `timestamp` has already passed, the alarm will not fire: the
    /// comparator is disarmed, the deadline reset to the sentinel, and the
    /// call returns false — the caller, not the driver, acts on the expiry
    /// synchronously. Otherwise the comparator is programmed to `timestamp`,
    /// the timer interrupt enabled, and the call returns true. On the real
    /// machine the whole call is one critical section; the comparator and
    /// the slot are never observable in a mutually inconsistent state.
    pub fn set_alarm(&mut self, clint: &mut ClintRegs, alarm: AlarmHandle, timestamp: u64) -> (r:
        bool)
        requires
            old(self).wf(),
            old(self).valid_handle(alarm),
            old(self).alarms@[alarm.id as int].callback is Some,
        ensures
            final(self).wf(),
            final(self).alarm_count == old(self).alarm_count,
            r == (timestamp > old(clint).mtime),
            final(clint).mtime == old(clint).mtime,
            r ==> *final(clint) == clint_step(*old(clint), ClintOp::Arm { timestamp })
                && final(clint).mtimecmp == timestamp && final(clint).mtimer_enabled
                && final(self).alarms@ == old(self).alarms@.update(
                alarm.id as int,
                (AlarmState {
                    timestamp,
                    callback: old(self).alarms@[alarm.id as int].callback,
                }),
            ),
            !r ==> *final(clint) == clint_step(*old(clint), ClintOp::Disarm)
                && !final(clint).mtimer_enabled && final(clint).mtimecmp == old(clint).mtimecmp
                && final(self).alarms@ == old(self).alarms@.update(
                alarm.id as int,
                (AlarmState {
                    timestamp: DISARMED,
                    callback: old(self).alarms@[alarm.id as int].callback,
                }),
            ),
    {
        let mut slot = self.get_alarm(alarm);
        slot.timestamp = timestamp;
        self.alarms[alarm.id as usize] = slot;

        let t = self.now(clint);
        if timestamp <= t {
            // The deadline has already passed: the alarm will not fire.
            // Disarm the comparator and report the immediate expiry.
            clint.mtimer_enabled = false;

            slot.timestamp = DISARMED;
            self.alarms[alarm.id as usize] = slot;

            return false;
        }
        // Program the comparator and enable the timer interrupt.
        clint.mtimecmp = timestamp;
        clint.mtimer_enabled = true;
        true
    }
}

/// The machine timer interrupt handler: runs only while the comparator is
/// enabled and matched, completes in bounded time, and touches nothing but
/// the comparator, which it reloads by the fixed period — a periodic re-arm,
/// not a walk of the alarm table. The comparator stays armed until a
/// `set_alarm` call observes an already-past timestamp.
pub fn custom_machine_timer_handler(clint: &mut ClintRegs)
    requires
        old(clint).timer_interrupt_pending(),
        old(clint).mtimecmp + FREQUENCY_HZ <= u64::MAX,
    ensures
        *final(clint) == clint_step(*old(clint), ClintOp::Reload),
        final(clint).mtimecmp == old(clint).mtimecmp + FREQUENCY_HZ,
        final(clint).mtime == old(clint).mtime,
        final(clint).mtimer_enabled == old(clint).mtimer_enabled,
{
    clint.mtimecmp = clint.mtimecmp + FREQUENCY_HZ;
}

} // verus!
