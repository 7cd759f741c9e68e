//! Laws of the input engine, stated over the effect of key events.

use vstd::prelude::*;

use crate::command::Execute;
use crate::keys::{action_of, Action, KeyEvent};
use crate::renderer::{
    completed, cursor_in_bounds, effect, initial_state, lemma_refined_push, refined, survivor, AppView,
    Effect, NextView,
    StateView,
};

verus! {

/// Every key that edits keeps the cursor within the command text, and so
/// does applying a completion; a command that finishes leaves the initial
/// state, whose cursor is at the start of an empty text.
pub proof fn lemma_cursor_stays_in_bounds<T: Execute>(exec: T, v: AppView, k: KeyEvent)
    requires
        cursor_in_bounds(v.state),
    ensures
        match effect(exec, v, k) {
            Effect::Settle(w, _) => cursor_in_bounds(w.state),
            _ => true,
        },
        forall|fixed: Seq<char>, candidates: Seq<Seq<char>>|
            cursor_in_bounds(#[trigger] completed(v.state, fixed, candidates)),
        cursor_in_bounds(initial_state()),
{
}

/// Typing a character while candidates are on offer keeps exactly those that
/// began with that character, each without it; none is added.
pub proof fn lemma_typing_refines_candidates(candidates: Seq<Seq<char>>, c: char)
    ensures
        forall|t: Seq<char>|
            #[trigger] refined(candidates, c).contains(t) <==> candidates.contains(seq![c] + t),
    decreases candidates.len(),
{
    if candidates.len() == 0 {
        assert(refined(candidates, c) =~= Seq::<Seq<char>>::empty());
        assert forall|t: Seq<char>| !candidates.contains(seq![c] + t) by {}
    } else {
        let init = candidates.drop_last();
        let last = candidates.last();
        lemma_typing_refines_candidates(init, c);
        assert(init.push(last) =~= candidates);
        lemma_refined_push(init, last, c);
        assert forall|t: Seq<char>|
            #[trigger] refined(candidates, c).contains(t) <==> candidates.contains(
                seq![c] + t,
            ) by {
            let x = seq![c] + t;
            assert(candidates.contains(x) <==> (init.contains(x) || last == x)) by {
                if candidates.contains(x) {
                    let i = choose|i: int| 0 <= i < candidates.len() && candidates[i] == x;
                    if i < init.len() {
                        assert(init[i] == x);
                    }
                }
                if init.contains(x) {
                    let i = choose|i: int| 0 <= i < init.len() && init[i] == x;
                    assert(candidates[i] == x);
                }
                if last == x {
                    assert(candidates[candidates.len() - 1] == x);
                }
            }
            let r0 = refined(init, c);
            match survivor(c, last) {
                Some(u) => {
                    assert(last =~= seq![c] + u);
                    assert(refined(candidates, c) == r0.push(u));
                    assert(refined(candidates, c).contains(t) <==> (r0.contains(t) || u == t)) by {
                        if refined(candidates, c).contains(t) {
                            let i = choose|i: int|
                                0 <= i < refined(candidates, c).len() && refined(candidates, c)[i]
                                    == t;
                            if i < r0.len() {
                                assert(r0[i] == t);
                            }
                        }
                        if r0.contains(t) {
                            let i = choose|i: int| 0 <= i < r0.len() && r0[i] == t;
                            assert(refined(candidates, c)[i] == t);
                        }
                        if u == t {
                            assert(refined(candidates, c)[r0.len() as int] == t);
                        }
                    }
                    if last == x {
                        assert(x.drop_first() =~= t);
                    }
                },
                None => {
                    assert(refined(candidates, c) =~= r0);
                    if last == x {
                        assert(x[0] == c);
                    }
                },
            }
        }
    }
}

/// Enter on a command that needs no input hands the command text, with no
/// input lines, to the executor: the same hand-over as finishing that command
/// directly with no input.
pub proof fn lemma_submit_without_input<T: Execute>(exec: T, v: AppView, k: KeyEvent)
    requires
        action_of(k) == Action::Submit,
        v.state is Idle,
        !exec.prepare_spec(v.state->Idle_buffer).stdin_required,
    ensures
        effect(exec, v, k) == Effect::Finalize(v.state->Idle_buffer, None),
{
}

/// Ctrl+L empties the history and leaves the input state alone; pressing it
/// again changes nothing more.
pub proof fn lemma_clear_history_idempotent<T: Execute>(exec: T, v: AppView, k: KeyEvent)
    requires
        action_of(k) == Action::ClearHistory,
    ensures
        ({
            let w = AppView { state: v.state, history: Seq::empty() };
            &&& effect(exec, v, k) == Effect::Settle(w, NextView::Continue)
            &&& effect(exec, w, k) == Effect::Settle(w, NextView::Continue)
        }),
{
}

/// Backspace that empties the only input line leaves the command collecting
/// input with no lines; Ctrl+C or Ctrl+D then hands it an empty sequence of
/// lines, not an absent one.
pub proof fn lemma_emptied_input_is_kept<T: Execute>(
    exec: T,
    v: AppView,
    line: Seq<char>,
    backspace: KeyEvent,
    interrupt: KeyEvent,
)
    requires
        v.state is Running,
        v.state->Running_lines == seq![line],
        line.len() == 1,
        action_of(backspace) == Action::Backspace,
        action_of(interrupt) == Action::Interrupt,
    ensures
        ({
            let prepare = v.state->Running_prepare;
            let w = AppView {
                state: StateView::Running { prepare, lines: Seq::empty() },
                history: v.history,
            };
            &&& effect(exec, v, backspace) == Effect::Settle(w, NextView::Continue)
            &&& effect(exec, w, interrupt) == Effect::Finalize(
                prepare.command,
                Some(Seq::empty()),
            )
        }),
{
    assert(seq![line].drop_last() =~= Seq::<Seq<char>>::empty());
}

} // verus!

verus! {

/// The session after the keys `keys`, each taking effect at once; the run
/// stops before the first key that calls the executor.
pub open spec fn after_keys<T: Execute>(exec: T, v: AppView, keys: Seq<KeyEvent>) -> AppView
    decreases keys.len(),
{
    if keys.len() == 0 {
        v
    } else {
        match effect(exec, v, keys[0]) {
            Effect::Settle(w, _) => after_keys(exec, w, keys.drop_first()),
            _ => v,
        }
    }
}

/// Whether candidates are on offer in `s`.
pub open spec fn offers(s: StateView) -> bool {
    s is Idle && s->Idle_completions is Some
}

/// Candidates offered in `s` descend from `offered`, the candidates that were
/// offered for the command text `base`: the text still begins with `base`,
/// the cursor is at its end, and each candidate, after what was typed since,
/// was one of `offered`.
pub open spec fn descends(s: StateView, base: Seq<char>, offered: Seq<Seq<char>>) -> bool {
    offers(s) ==> {
        let buffer = s->Idle_buffer;
        &&& s->Idle_cursor == buffer.len()
        &&& base.len() <= buffer.len()
        &&& buffer.take(base.len() as int) == base
        &&& forall|t: Seq<char>|
            #[trigger] s->Idle_completions->Some_0.contains(t) ==> offered.contains(
                buffer.skip(base.len() as int) + t,
            )
    }
}

proof fn lemma_step_narrows<T: Execute>(
    exec: T,
    v: AppView,
    k: KeyEvent,
    base: Seq<char>,
    offered: Seq<Seq<char>>,
)
    requires
        action_of(k) != Action::Complete,
        descends(v.state, base, offered),
    ensures
        match effect(exec, v, k) {
            Effect::Settle(w, _) => {
                &&& descends(w.state, base, offered)
                &&& !offers(v.state) ==> !offers(w.state)
            },
            _ => true,
        },
{
    if let Action::Insert(c) = action_of(k) {
        if offers(v.state) {
            let buffer = v.state->Idle_buffer;
            let cs = v.state->Idle_completions->Some_0;
            let w = crate::renderer::typed(v.state, c);
            let nb = buffer.insert(buffer.len() as int, c);
            assert(nb =~= buffer.push(c));
            assert(nb.take(base.len() as int) =~= buffer.take(base.len() as int));
            lemma_typing_refines_candidates(cs, c);
            assert forall|t: Seq<char>| #[trigger]
                w->Idle_completions->Some_0.contains(t) implies offered.contains(
                nb.skip(base.len() as int) + t,
            ) by {
                assert(cs.contains(seq![c] + t));
                assert(buffer.skip(base.len() as int) + (seq![c] + t) =~= nb.skip(
                    base.len() as int,
                ) + t);
            }
        }
    }
}

/// Keys other than Tab never bring candidates where none were offered, and
/// candidates offered for a text `base` only narrow: each one left, after
/// the characters typed since, was among those first offered; none returns.
pub proof fn lemma_candidates_only_narrow<T: Execute>(
    exec: T,
    v: AppView,
    keys: Seq<KeyEvent>,
    base: Seq<char>,
    offered: Seq<Seq<char>>,
)
    requires
        forall|i: int| 0 <= i < keys.len() ==> action_of(#[trigger] keys[i]) != Action::Complete,
        descends(v.state, base, offered),
    ensures
        descends(after_keys(exec, v, keys).state, base, offered),
        !offers(v.state) ==> !offers(after_keys(exec, v, keys).state),
    decreases keys.len(),
{
    if keys.len() > 0 {
        lemma_step_narrows(exec, v, keys[0], base, offered);
        match effect(exec, v, keys[0]) {
            Effect::Settle(w, _) => {
                assert forall|i: int| 0 <= i < keys.drop_first().len() implies action_of(
                    #[trigger] keys.drop_first()[i],
                ) != Action::Complete by {
                    assert(keys.drop_first()[i] == keys[i + 1]);
                }
                lemma_candidates_only_narrow(exec, w, keys.drop_first(), base, offered);
            },
            _ => {},
        }
    }
}

/// Candidates just offered for the text they complete descend from
/// themselves.
pub proof fn lemma_offer_descends(buffer: Seq<char>, offered: Seq<Seq<char>>)
    ensures
        descends(
            StateView::Idle { buffer, cursor: buffer.len(), completions: Some(offered) },
            buffer,
            offered,
        ),
{
    assert(buffer.take(buffer.len() as int) =~= buffer);
    assert forall|t: Seq<char>| #[trigger] offered.contains(t) implies offered.contains(
        buffer.skip(buffer.len() as int) + t,
    ) by {
        assert(buffer.skip(buffer.len() as int) + t =~= t);
    }
}

} // verus!
