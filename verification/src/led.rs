//! The status light: a run of flashes tells what the board is doing, or how often it failed.
use vstd::prelude::*;

use crate::shared::{self, Op, SharedByte};
use crate::status::{self, Fault, Phase};

verus! {

/// One round of the light: some flashes, then a pause.
#[derive(Clone, Copy, Debug, PartialEq, Eq, Structural)]
pub struct BlinkPlan {
    pub flashes: u8,
    /// How long the light stays on in each flash.
    pub on_ms: u64,
    /// How long it stays off after each flash.
    pub off_ms: u64,
    /// How long the pause after the last flash lasts; zero for none.
    pub pause_ms: u64,
}

/// What the light's task has to do.
#[derive(Clone, Copy, Debug, PartialEq, Eq, Structural)]
pub enum LedAction {
    High,
    Low,
    /// Let this many milliseconds pass.
    Wait(u64),
}

/// The most flashes in one round.
pub const MAX_FLASHES: u8 = 10;

/// `n`, but no more than the flashes of one round.
pub open spec fn capped(n: u8) -> u8 {
    if n < 10 {
        n
    } else {
        10
    }
}

/// The round that shows `state` and `errors`: while there are errors, as many quick flashes;
/// otherwise slower ones that tell the state.
pub open spec fn blink_plan(state: u8, errors: u8) -> BlinkPlan {
    if errors > 0 {
        BlinkPlan { flashes: capped(errors), on_ms: 50, off_ms: 50, pause_ms: 500 }
    } else if state == 0 {
        BlinkPlan { flashes: 1, on_ms: 100, off_ms: 900, pause_ms: 0 }
    } else if state == 1 {
        BlinkPlan { flashes: 2, on_ms: 100, off_ms: 100, pause_ms: 600 }
    } else if state == 2 {
        BlinkPlan { flashes: 3, on_ms: 100, off_ms: 100, pause_ms: 400 }
    } else {
        BlinkPlan { flashes: capped(state), on_ms: 100, off_ms: 100, pause_ms: 500 }
    }
}

/// What one flash of a round is.
pub open spec fn flash(plan: BlinkPlan) -> Seq<LedAction> {
    seq![LedAction::High, LedAction::Wait(plan.on_ms), LedAction::Low, LedAction::Wait(plan.off_ms)]
}

/// What `n` flashes of a round are.
pub open spec fn flashes(plan: BlinkPlan, n: nat) -> Seq<LedAction>
    decreases n,
{
    if n == 0 {
        seq![]
    } else {
        flash(plan) + flashes(plan, (n - 1) as nat)
    }
}

/// What the pause of a round is.
pub open spec fn pause(plan: BlinkPlan) -> Seq<LedAction> {
    if plan.pause_ms == 0 {
        seq![]
    } else {
        seq![LedAction::Wait(plan.pause_ms)]
    }
}

/// Everything the light does in one round.
pub open spec fn round(plan: BlinkPlan) -> Seq<LedAction> {
    flashes(plan, plan.flashes as nat) + pause(plan)
}

/// The milliseconds that pass while `actions` are done.
pub open spec fn duration(actions: Seq<LedAction>) -> nat
    decreases actions.len(),
{
    if actions.len() == 0 {
        0
    } else {
        duration(actions.drop_last()) + match actions.last() {
            LedAction::Wait(ms) => ms as nat,
            _ => 0,
        }
    }
}

/// Whether the light is on after `actions`, if it was off before them.
pub open spec fn lit_after(actions: Seq<LedAction>) -> bool
    decreases actions.len(),
{
    if actions.len() == 0 {
        false
    } else {
        match actions.last() {
            LedAction::High => true,
            LedAction::Low => false,
            LedAction::Wait(_) => lit_after(actions.drop_last()),
        }
    }
}

impl BlinkPlan {
    /// The round that shows `state` and `errors`.
    pub fn of(state: u8, errors: u8) -> (r: BlinkPlan)
        ensures
            r == blink_plan(state, errors),
            errors > 0 ==> r.on_ms == 50 && r.off_ms == 50 && r.pause_ms == 500,
            0 < errors <= 10 ==> r.flashes == errors,
            errors > 10 ==> r.flashes == 10,
            errors == 0 ==> r.on_ms == 100,
            errors == 0 && state == 0 ==> r.flashes == 1 && r.off_ms == 900 && r.pause_ms == 0,
            errors == 0 && state > 0 ==> r.off_ms == 100,
            errors == 0 && state == 1 ==> r.flashes == 2 && r.pause_ms == 600,
            errors == 0 && state == 2 ==> r.flashes == 3 && r.pause_ms == 400,
            errors == 0 && 3 <= state <= 10 ==> r.flashes == state,
            errors == 0 && state > 10 ==> r.flashes == 10,
            errors == 0 && state >= 3 ==> r.pause_ms == 500,
    {
        if errors > 0 {
            let count: u8 = if errors < MAX_FLASHES { errors } else { MAX_FLASHES };
            BlinkPlan { flashes: count, on_ms: 50, off_ms: 50, pause_ms: 500 }
        } else {
            match state {
                0 => BlinkPlan { flashes: 1, on_ms: 100, off_ms: 900, pause_ms: 0 },
                1 => BlinkPlan { flashes: 2, on_ms: 100, off_ms: 100, pause_ms: 600 },
                2 => BlinkPlan { flashes: 3, on_ms: 100, off_ms: 100, pause_ms: 400 },
                _ => {
                    let count: u8 = if state < MAX_FLASHES { state } else { MAX_FLASHES };
                    BlinkPlan { flashes: count, on_ms: 100, off_ms: 100, pause_ms: 500 }
                },
            }
        }
    }

    /// The round that shows the bytes that `state` and `errors` hold now. Each is read once, and
    /// nothing else is done to either.
    pub fn current(state: &mut SharedByte, errors: &mut SharedByte) -> (r: BlinkPlan)
        ensures
            final(state).cell() == old(state).cell(),
            final(errors).cell() == old(errors).cell(),
            exists|s: u8, e: u8|
                r == #[trigger] blink_plan(s, e) && final(state).log() == old(state).log().push(
                    Op::Load(s),
                ) && final(errors).log() == old(errors).log().push(Op::Load(e)),
    {
        let s: u8 = state.load();
        let e: u8 = errors.load();
        BlinkPlan::of(s, e)
    }
}

/// How far a flash has come.
#[derive(Clone, Copy, Debug, PartialEq, Eq, Structural)]
enum Part {
    /// No flash is under way.
    Between,
    /// The light has gone on.
    On,
    /// The light has been on long enough.
    Lit,
    /// The light has gone off.
    Off,
    /// The round is over.
    Over,
}

/// A round under way.
pub struct Blinker {
    plan: BlinkPlan,
    /// Flashes that have not begun.
    left: u8,
    part: Part,
}

impl View for Blinker {
    type V = Seq<LedAction>;

    /// What is left to do in the round.
    closed spec fn view(&self) -> Seq<LedAction> {
        let rest = flashes(self.plan, self.left as nat) + pause(self.plan);
        match self.part {
            Part::Between => rest,
            Part::On => flash(self.plan).skip(1) + rest,
            Part::Lit => flash(self.plan).skip(2) + rest,
            Part::Off => flash(self.plan).skip(3) + rest,
            Part::Over => seq![],
        }
    }
}

impl Blinker {
    /// Begins a round.
    pub fn new(plan: BlinkPlan) -> (r: Self)
        ensures
            r@ == round(plan),
    {
        Blinker { plan, left: plan.flashes, part: Part::Between }
    }

    /// The next thing to do, or `None` when the round is over.
    pub fn next(&mut self) -> (r: Option<LedAction>)
        ensures
            match r {
                Some(action) => old(self)@ == seq![action] + final(self)@,
                None => old(self)@.len() == 0 && final(self)@.len() == 0,
            },
    {
        match self.part {
            Part::Between => if self.left > 0 {
                self.left = self.left - 1;
                self.part = Part::On;
                assert(old(self)@ =~= seq![LedAction::High] + self@);
                Some(LedAction::High)
            } else {
                self.part = Part::Over;
                if self.plan.pause_ms > 0 {
                    assert(old(self)@ =~= seq![LedAction::Wait(self.plan.pause_ms)] + self@);
                    Some(LedAction::Wait(self.plan.pause_ms))
                } else {
                    None
                }
            },
            Part::On => {
                self.part = Part::Lit;
                assert(old(self)@ =~= seq![LedAction::Wait(self.plan.on_ms)] + self@);
                Some(LedAction::Wait(self.plan.on_ms))
            },
            Part::Lit => {
                self.part = Part::Off;
                assert(old(self)@ =~= seq![LedAction::Low] + self@);
                Some(LedAction::Low)
            },
            Part::Off => {
                self.part = Part::Between;
                assert(old(self)@ =~= seq![LedAction::Wait(self.plan.off_ms)] + self@);
                Some(LedAction::Wait(self.plan.off_ms))
            },
            Part::Over => None,
        }
    }
}

/// The task of the light, which shows round after round.
pub struct LedTask {
    blinker: Blinker,
}

impl View for LedTask {
    type V = Seq<LedAction>;

    /// What is left to do in the round under way.
    closed spec fn view(&self) -> Seq<LedAction> {
        self.blinker@
    }
}

/// A round with a flash begins with the light going on.
proof fn lemma_round_begins(plan: BlinkPlan)
    requires
        plan.flashes > 0,
    ensures
        round(plan).len() > 0,
        round(plan)[0] == LedAction::High,
{
}

impl LedTask {
    /// The task before its first round.
    pub fn new() -> (r: Self)
        ensures
            r@.len() == 0,
    {
        let blinker = Blinker::new(BlinkPlan { flashes: 0, on_ms: 0, off_ms: 0, pause_ms: 0 });
        LedTask { blinker }
    }

    /// The next thing to do: there always is one. When a round is over, the next shows what
    /// `state` and `errors` hold then. The two are read for that, and never written.
    pub fn next(&mut self, state: &mut SharedByte, errors: &mut SharedByte) -> (r: LedAction)
        ensures
            final(state).cell() == old(state).cell(),
            final(errors).cell() == old(errors).cell(),
            shared::only_read(old(state).log(), final(state).log()),
            shared::only_read(old(errors).log(), final(errors).log()),
            old(self)@.len() > 0 ==> {
                &&& old(self)@ == seq![r] + final(self)@
                &&& final(state).log() == old(state).log()
                &&& final(errors).log() == old(errors).log()
            },
            old(self)@.len() == 0 ==> exists|s: u8, e: u8| {
                &&& #[trigger] round(blink_plan(s, e)) == seq![r] + final(self)@
                &&& final(state).log() == old(state).log().push(Op::Load(s))
                &&& final(errors).log() == old(errors).log().push(Op::Load(e))
            },
    {
        proof {
            shared::lemma_read_once(old(state).log(), 0);
            shared::lemma_read_once(old(errors).log(), 0);
        }
        match self.blinker.next() {
            Some(action) => action,
            None => self.begin_round(state, errors),
        }
    }

    /// Begins a round that shows what `state` and `errors` hold now: the light goes on.
    fn begin_round(&mut self, state: &mut SharedByte, errors: &mut SharedByte) -> (r: LedAction)
        ensures
            final(state).cell() == old(state).cell(),
            final(errors).cell() == old(errors).cell(),
            shared::only_read(old(state).log(), final(state).log()),
            shared::only_read(old(errors).log(), final(errors).log()),
            exists|s: u8, e: u8| {
                &&& #[trigger] round(blink_plan(s, e)) == seq![r] + final(self)@
                &&& final(state).log() == old(state).log().push(Op::Load(s))
                &&& final(errors).log() == old(errors).log().push(Op::Load(e))
            },
    {
        let plan = BlinkPlan::current(state, errors);
        let ghost (s, e): (u8, u8) = choose|s: u8, e: u8|
            plan == #[trigger] blink_plan(s, e) && state.log() == old(state).log().push(
                Op::Load(s),
            ) && errors.log() == old(errors).log().push(Op::Load(e));
        proof {
            shared::lemma_read_once(old(state).log(), s);
            shared::lemma_read_once(old(errors).log(), e);
            lemma_round_begins(plan);
        }
        let mut blinker = Blinker::new(plan);
        let first = blinker.next();
        assert(first == Some(LedAction::High));
        self.blinker = blinker;
        assert(round(blink_plan(s, e)) == seq![LedAction::High] + self@);
        LedAction::High
    }
}

proof fn lemma_duration_add(a: Seq<LedAction>, b: Seq<LedAction>)
    ensures
        duration(a + b) == duration(a) + duration(b),
    decreases b.len(),
{
    if b.len() == 0 {
        assert(a + b =~= a);
    } else {
        assert((a + b).drop_last() =~= a + b.drop_last());
        lemma_duration_add(a, b.drop_last());
    }
}

proof fn lemma_flash(plan: BlinkPlan)
    ensures
        duration(flash(plan)) == plan.on_ms + plan.off_ms,
{
    let f = flash(plan);
    assert(f.drop_last() =~= seq![
        LedAction::High,
        LedAction::Wait(plan.on_ms),
        LedAction::Low,
    ]);
    assert(f.drop_last().drop_last() =~= seq![LedAction::High, LedAction::Wait(plan.on_ms)]);
    assert(f.drop_last().drop_last().drop_last() =~= seq![LedAction::High]);
    assert(f.drop_last().drop_last().drop_last().drop_last() =~= Seq::<LedAction>::empty());
    reveal_with_fuel(duration, 5);
}

proof fn lemma_flashes_duration(plan: BlinkPlan, n: nat)
    ensures
        duration(flashes(plan, n)) == n * (plan.on_ms + plan.off_ms),
    decreases n,
{
    if n > 0 {
        let m = (n - 1) as nat;
        lemma_flashes_duration(plan, m);
        lemma_flash(plan);
        lemma_duration_add(flash(plan), flashes(plan, m));
        let each: int = plan.on_ms + plan.off_ms;
        assert(n * each == each + m * each) by (nonlinear_arith)
            requires
                n == m + 1,
        ;
    } else {
        assert(n * (plan.on_ms + plan.off_ms) == 0) by (nonlinear_arith)
            requires
                n == 0,
        ;
    }
}

/// `flashes` read from its end.
proof fn lemma_flashes_last(plan: BlinkPlan, n: nat)
    requires
        n > 0,
    ensures
        flashes(plan, n) == flashes(plan, (n - 1) as nat) + flash(plan),
    decreases n,
{
    if n == 1 {
        reveal_with_fuel(flashes, 2);
        assert(flashes(plan, 1) =~= flashes(plan, 0) + flash(plan));
    } else {
        let m = (n - 1) as nat;
        lemma_flashes_last(plan, m);
        let k = (m - 1) as nat;
        assert(flash(plan) + (flashes(plan, k) + flash(plan)) =~= (flash(plan) + flashes(plan, k))
            + flash(plan));
    }
}

/// The lesser of a number and ten: it is one of the two, and exceeds neither.
pub proof fn law_capped(n: u8)
    ensures
        capped(n) <= n,
        capped(n) <= 10,
        capped(n) == n || capped(n) == 10,
{
}

/// Errors are counted out in quick flashes, one for each up to ten, with half a second between
/// the rounds.
pub proof fn law_errors_are_counted_out(state: u8, errors: u8)
    requires
        errors > 0,
    ensures
        errors <= 10 ==> blink_plan(state, errors).flashes == errors,
        errors > 10 ==> blink_plan(state, errors).flashes == 10,
        blink_plan(state, errors).on_ms == 50,
        blink_plan(state, errors).off_ms == 50,
        blink_plan(state, errors).pause_ms == 500,
{
}

/// Without errors the flashes are slow, a tenth of a second each. An idle board gives one a second;
/// the two waits give two and three, and take a second too; any other state gives as many as its
/// number, up to ten, with half a second between the rounds.
pub proof fn law_states_are_counted_out(state: u8)
    ensures
        blink_plan(state, 0).on_ms == 100,
        state == 0 ==> blink_plan(state, 0).flashes == 1 && blink_plan(state, 0).off_ms == 900
            && blink_plan(state, 0).pause_ms == 0,
        state > 0 ==> blink_plan(state, 0).off_ms == 100,
        state == 1 || state == 2 ==> blink_plan(state, 0).flashes == state + 1 && 200 * (state + 1)
            + blink_plan(state, 0).pause_ms == 1000,
        3 <= state <= 10 ==> blink_plan(state, 0).flashes == state,
        state > 10 ==> blink_plan(state, 0).flashes == 10,
        state >= 3 ==> blink_plan(state, 0).pause_ms == 500,
{
}

proof fn lemma_flashes_at(plan: BlinkPlan, n: nat)
    ensures
        flashes(plan, n).len() == 4 * n,
        forall|k: int|
            0 <= k < n ==> (#[trigger] flashes(plan, n)[4 * k]) is High && flashes(plan, n)[4 * k
                + 1] == LedAction::Wait(plan.on_ms) && flashes(plan, n)[4 * k + 2] is Low
                && flashes(plan, n)[4 * k + 3] == LedAction::Wait(plan.off_ms),
    decreases n,
{
    if n > 0 {
        let m = (n - 1) as nat;
        lemma_flashes_at(plan, m);
        let rest = flashes(plan, m);
        assert forall|k: int| 0 <= k < n implies (#[trigger] flashes(plan, n)[4 * k]) is High
            && flashes(plan, n)[4 * k + 1] == LedAction::Wait(plan.on_ms) && flashes(plan, n)[4 * k
            + 2] is Low && flashes(plan, n)[4 * k + 3] == LedAction::Wait(plan.off_ms) by {
            if k > 0 {
                assert(rest[4 * (k - 1)] is High);
                assert(flashes(plan, n)[4 * k] == rest[4 * (k - 1)]);
            }
        }
    }
}

/// A round is what the plan says: each flash goes on, waits, goes off and waits, and a pause that
/// is not of no length ends the round. There is nothing else in it.
pub proof fn law_round_actions(plan: BlinkPlan)
    ensures
        round(plan).len() == 4 * plan.flashes + if plan.pause_ms == 0 {
            0int
        } else {
            1int
        },
        forall|k: int|
            0 <= k < plan.flashes ==> (#[trigger] round(plan)[4 * k]) is High && round(plan)[4 * k
                + 1] == LedAction::Wait(plan.on_ms) && round(plan)[4 * k + 2] is Low && round(
                plan,
            )[4 * k + 3] == LedAction::Wait(plan.off_ms),
        plan.pause_ms > 0 ==> round(plan).last() == LedAction::Wait(plan.pause_ms),
{
    let n = plan.flashes as nat;
    lemma_flashes_at(plan, n);
    assert forall|k: int| 0 <= k < n implies (#[trigger] round(plan)[4 * k]) is High && round(
        plan,
    )[4 * k + 1] == LedAction::Wait(plan.on_ms) && round(plan)[4 * k + 2] is Low && round(
        plan,
    )[4 * k + 3] == LedAction::Wait(plan.off_ms) by {
        assert(flashes(plan, n)[4 * k] is High);
        assert(round(plan)[4 * k] == flashes(plan, n)[4 * k]);
    }
}

/// A round lasts as long as its flashes and its pause together.
pub proof fn law_round_duration(plan: BlinkPlan)
    ensures
        duration(round(plan)) == plan.flashes * (plan.on_ms + plan.off_ms) + plan.pause_ms,
{
    lemma_flashes_duration(plan, plan.flashes as nat);
    lemma_duration_add(flashes(plan, plan.flashes as nat), pause(plan));
    assert(pause(plan).len() > 0 ==> pause(plan).drop_last() =~= Seq::<LedAction>::empty());
    reveal_with_fuel(duration, 2);
}

/// A round leaves the light off.
pub proof fn law_round_ends_dark(plan: BlinkPlan)
    ensures
        !lit_after(round(plan)),
{
    let all = flashes(plan, plan.flashes as nat);
    if plan.flashes > 0 {
        lemma_flashes_last(plan, plan.flashes as nat);
        assert(all.last() == LedAction::Wait(plan.off_ms));
        assert(all.drop_last().last() == LedAction::Low);
    }
    assert(!lit_after(all)) by {
        reveal_with_fuel(lit_after, 3);
    }
    if plan.pause_ms == 0 {
        assert(round(plan) =~= all);
    } else {
        assert(round(plan).drop_last() =~= all);
    }
}

/// The light flashes at least once a round, and no more than ten times.
pub proof fn law_flash_count(state: u8, errors: u8)
    ensures
        1 <= blink_plan(state, errors).flashes <= 10,
{
}

/// Errors come first: with any, the flashes are quick and the state does not show; the flashes
/// are quick for no other reason.
pub proof fn law_errors_first(state1: u8, state2: u8, errors: u8)
    ensures
        errors > 0 ==> blink_plan(state1, errors) == blink_plan(state2, errors),
        errors > 0 <==> blink_plan(state1, errors).on_ms == 50,
{
}

/// Every phase has a look of its own, which no error count has.
pub proof fn law_phases_look_different(a: Phase, b: Phase, state: u8, errors: u8)
    ensures
        blink_plan(status::phase_code(a), 0) == blink_plan(status::phase_code(b), 0) <==> a == b,
        errors > 0 ==> blink_plan(status::phase_code(a), 0) != blink_plan(state, errors),
{
}

/// An idle board and one that waits for a buffer take a second for each round: one, two or three
/// flashes. Any other phase shows as many flashes as its number says.
pub proof fn law_phase_rounds(phase: Phase)
    ensures
        phase is Idle || phase is UiWaiting || phase is I2cWaiting ==> {
            &&& duration(round(blink_plan(status::phase_code(phase), 0))) == 1000
            &&& blink_plan(status::phase_code(phase), 0).flashes == status::phase_code(phase) + 1
        },
        phase is Flushing || phase is Scanning || phase is Drawing ==> blink_plan(
            status::phase_code(phase),
            0,
        ).flashes == status::phase_code(phase),
{
    let plan = blink_plan(status::phase_code(phase), 0);
    law_round_duration(plan);
    match phase {
        Phase::Idle => assert(plan.flashes * (plan.on_ms + plan.off_ms) == 1 * (100 + 900)),
        Phase::UiWaiting => assert(plan.flashes * (plan.on_ms + plan.off_ms) == 2 * (100 + 100)),
        Phase::I2cWaiting => assert(plan.flashes * (plan.on_ms + plan.off_ms) == 3 * (100 + 100)),
        _ => (),
    }
}

/// Every fault shows as quick flashes.
pub proof fn law_faults_show(state: u8, fault: Fault)
    ensures
        blink_plan(state, status::fault_code(fault)).on_ms == 50,
        blink_plan(state, status::fault_code(fault)).flashes == capped(status::fault_code(fault)),
{
}

/// A failure that is counted shows as quick flashes, one for each failure so far up to ten. The
/// exception is a full counter, which starts again at none.
pub proof fn law_counted_failures_show(state: u8, count: u8)
    requires
        count < 255,
    ensures
        blink_plan(state, status::count_after(count)) == (BlinkPlan {
            flashes: capped((count + 1) as u8),
            on_ms: 50,
            off_ms: 50,
            pause_ms: 500,
        }),
{
}

} // verus!
