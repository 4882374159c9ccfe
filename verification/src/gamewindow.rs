//! The game session: one VM instance per authored object, and the
//! per-frame schedule.
//!
//! Starting a session is fail-fast: objects start in project order and the
//! first failure aborts the whole start with that object's diagnostic;
//! later objects are never attempted.  A tick writes the input snapshot
//! ([`ZVMState::set_keys`]), runs every instance in session order
//! collecting (never dying on) their diagnostics, and drains the shared
//! command buffer as the frame's output.  Because the snapshot is written
//! once, before the draw pass, every script observes the same snapshot
//! within one tick.

use crate::cart::{Cart, EditorObject};
use crate::diagnostics::Diagnostic;
use crate::zvm::{
    frame_fault_diag, outcome_functions, start_fault_diag, FrameOutcome, StartOutcome, ZVM,
    ZVMState,
};
use vstd::prelude::*;

verus! {

/// One scripted object of the running session.
#[derive(Debug)]
pub struct GameObject {
    pub vm: ZVM,
}

/// A running session: its instances, in project order.
#[derive(Debug)]
pub struct Game {
    pub objects: Vec<GameObject>,
}

/// The player's window state: whether it is open, and the session it is
/// running, if any.
#[derive(Debug)]
pub struct GameWindow {
    pub enabled: bool,
    pub game: Option<Game>,
}

impl Default for GameWindow {
    fn default() -> (w: Self)
        ensures
            !w.enabled,
            w.game is None,
    {
        GameWindow { enabled: false, game: None }
    }
}

/// The outcome list of a fail-fast start attempt: one outcome per object
/// the engine was asked to start, in project order, every one but the last
/// ready; the list stops short of the project only at a failure.
pub open spec fn failfast_trace(objects: Seq<EditorObject>, outcomes: Seq<StartOutcome>) -> bool {
    &&& outcomes.len() <= objects.len()
    &&& forall|i: int| 0 <= i < outcomes.len() - 1 ==> (#[trigger] outcomes[i]) is Ready
    &&& (outcomes.len() < objects.len() ==> outcomes.len() > 0 && !(outcomes.last() is Ready))
}

impl GameWindow {
    /// Builds the session from the engine's start reports, enforcing the
    /// fail-fast policy: the first object that failed to start aborts the
    /// whole session start and surfaces that object's diagnostic.  On
    /// success there is one instance per object, in project order, each
    /// holding its object's source and function table.  Either way the
    /// shared buffer is emptied: whatever module init recorded ran before
    /// any frame and is not part of one.
    pub fn startgame(cart: &Cart, state: &mut ZVMState, outcomes: Vec<StartOutcome>) -> (r: Result<
        Game,
        Diagnostic,
    >)
        requires
            failfast_trace(cart.objects@, outcomes@),
        ensures
            final(state).buffer@ == Seq::<crate::zvm::ZEvent>::empty(),
            final(state).keys == old(state).keys,
            match r {
                Ok(game) => {
                    &&& outcomes@.len() == cart.objects@.len()
                    &&& forall|i: int|
                        0 <= i < outcomes@.len() ==> (#[trigger] outcomes@[i]) is Ready
                    &&& game.objects@.len() == cart.objects@.len()
                    &&& forall|i: int|
                        0 <= i < game.objects@.len() ==> (#[trigger] game.objects@[i]).vm.contents@
                            == cart.objects@[i].script@ && game.objects@[i].vm.functions
                            == outcome_functions(outcomes@[i])
                },
                Err(d) => {
                    &&& outcomes@.len() > 0
                    &&& !(outcomes@.last() is Ready)
                    &&& d == start_fault_diag(outcomes@.last())
                },
            },
    {
        state.clear_buffer();
        let ghost all = outcomes@;
        let mut rest = outcomes;
        let total = rest.len();
        let mut started: Vec<GameObject> = Vec::new();
        let mut i: usize = 0;
        while rest.len() > 0
            invariant
                all == outcomes@,
                all.len() == total,
                i + rest@.len() == all.len(),
                state.keys == old(state).keys,
                rest@ == all.subrange(i as int, all.len() as int),
                failfast_trace(cart.objects@, all),
                started@.len() == i,
                state.buffer@ == Seq::<crate::zvm::ZEvent>::empty(),
                forall|j: int|
                    0 <= j < i ==> (#[trigger] all[j]) is Ready,
                forall|j: int|
                    0 <= j < i ==> (#[trigger] started@[j]).vm.contents@
                        == cart.objects@[j].script@ && started@[j].vm.functions
                        == outcome_functions(all[j]),
            decreases rest@.len(),
        {
            let outcome = rest.remove(0);
            proof {
                assert(outcome == all[i as int]);
                assert(rest@ =~= all.subrange(i + 1, all.len() as int));
            }
            let script = cart.objects[i].script.clone();
            match ZVM::start(script, outcome) {
                Ok(vm) => {
                    started.push(GameObject { vm });
                },
                Err(d) => {
                    proof {
                        assert(!(all[i as int] is Ready));
                        assert(i == all.len() - 1);
                        assert(all.last() == all[i as int]);
                    }
                    return Err(d);
                },
            }
            i = i + 1;
        }
        proof {
            if all.len() < cart.objects@.len() {
                assert(all.last() == all[all.len() - 1]);
                assert(all[all.len() - 1] is Ready);
            }
        }
        Ok(Game { objects: started })
    }
}

/// The diagnostics of one tick: each faulted frame's diagnostic, in
/// session order; skipped and completed frames contribute nothing.
pub open spec fn spec_frame_diags(outcomes: Seq<FrameOutcome>) -> Seq<Diagnostic>
    decreases outcomes.len(),
{
    if outcomes.len() == 0 {
        Seq::empty()
    } else {
        spec_frame_diags(outcomes.drop_last()) + (match outcomes.last() {
            FrameOutcome::Skipped => Seq::<Diagnostic>::empty(),
            FrameOutcome::Completed => Seq::<Diagnostic>::empty(),
            _ => seq![frame_fault_diag(outcomes.last())],
        })
    }
}

impl Game {
    /// One tick's bookkeeping over the engine's frame reports, one per
    /// instance in session order: every faulted frame's diagnostic is
    /// collected, none is fatal to the tick, and every instance stays
    /// usable for the next frame.
    pub fn tick_report(&self, outcomes: Vec<FrameOutcome>) -> (diags: Vec<Diagnostic>)
        requires
            outcomes@.len() == self.objects@.len(),
            forall|i: int|
                0 <= i < outcomes@.len() ==> (((#[trigger] outcomes@[i]) is Skipped) <==> !self
                    .objects@[i].vm.spec_has_draw()),
        ensures
            diags@ == spec_frame_diags(outcomes@),
    {
        let ghost all = outcomes@;
        let mut rest = outcomes;
        let total = rest.len();
        let mut diags: Vec<Diagnostic> = Vec::new();
        let mut i: usize = 0;
        while rest.len() > 0
            invariant
                all == outcomes@,
                all.len() == total,
                i + rest@.len() == all.len(),
                rest@ == all.subrange(i as int, all.len() as int),
                all.len() == self.objects@.len(),
                forall|j: int|
                    0 <= j < all.len() ==> (((#[trigger] all[j]) is Skipped) <==> !self
                        .objects@[j].vm.spec_has_draw()),
                diags@ == spec_frame_diags(all.take(i as int)),
            decreases rest@.len(),
        {
            let outcome = rest.remove(0);
            proof {
                assert(outcome == all[i as int]);
                assert(rest@ =~= all.subrange(i + 1, all.len() as int));
                assert(all.take(i + 1).drop_last() =~= all.take(i as int));
                assert(all.take(i + 1).last() == all[i as int]);
            }
            match self.objects[i].vm.draw(outcome) {
                Ok(_) => {
                    proof {
                        assert(diags@ =~= spec_frame_diags(all.take(i + 1)));
                    }
                },
                Err(d) => {
                    diags.push(d);
                    proof {
                        assert(diags@ =~= spec_frame_diags(all.take(i + 1)));
                    }
                },
            }
            i = i + 1;
        }
        proof {
            assert(all.take(all.len() as int) =~= all);
        }
        diags
    }

}

impl GameWindow {
    /// Session teardown: drops every instance (their one terminal
    /// transition).  Coarse-grained only: it happens between frames,
    /// never inside one.
    pub fn stop(&mut self)
        ensures
            final(self).game is None,
            final(self).enabled == old(self).enabled,
    {
        self.game = None;
    }
}

} // verus!
