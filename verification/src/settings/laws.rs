//! What holds of the manager's operations, whatever the OS answers.
//!
//! An operation is followed from its first step through the outcomes that the
//! OS gives to its calls, one outcome for each call, in order.

use super::error::{AutoStartStep, SettingsFault};
use super::manager::{
    auto_start_step, initial_step, resumed, shortcut_step, switch_call, switch_step, OsCall,
    StepView,
};
use crate::shortcuts::keys::KeyCombination;
use crate::shortcuts::parser::{parsed, stands_for};
use vstd::prelude::*;

verus! {

/// The outcome of one call to the OS: the answer, or why it failed.
pub type Outcome = Result<bool, Seq<char>>;

/// What an operation has done once the OS has answered its calls.
pub struct Trace {
    /// The calls made, in order.
    pub calls: Seq<OsCall>,
    /// The combination that the manager holds as registered at the end.
    pub current: Option<KeyCombination>,
    /// The result of the operation; `None` while it waits for an outcome
    /// that `outcomes` does not hold.
    pub result: Option<Result<(), SettingsFault>>,
}

/// The trace of the operation that stands at `step`, in a manager that holds
/// `current`, when the OS answers its calls with `outcomes`.
pub open spec fn run(
    current: Option<KeyCombination>,
    step: StepView,
    outcomes: Seq<Outcome>,
) -> Trace
    decreases outcomes.len(),
{
    match step {
        StepView::Done(result) => Trace { calls: Seq::empty(), current, result: Some(result) },
        StepView::Call { call, pending } => if outcomes.len() == 0 {
            Trace { calls: seq![call], current, result: None }
        } else {
            let (held, next) = resumed(current, pending, outcomes.first());
            let rest = run(held, next, outcomes.drop_first());
            Trace { calls: seq![call] + rest.calls, current: rest.current, result: rest.result }
        },
    }
}

/// The trace of applying the shortcut string `text`.
pub open spec fn apply_shortcut_trace(
    current: Option<KeyCombination>,
    text: Seq<char>,
    outcomes: Seq<Outcome>,
) -> Trace {
    run(current, shortcut_step(current, text), outcomes)
}

/// The trace of applying a settings document that wants auto-start in the
/// state `wanted` and holds the shortcut string `text`.
pub open spec fn apply_trace(
    current: Option<KeyCombination>,
    wanted: bool,
    text: Seq<char>,
    outcomes: Seq<Outcome>,
) -> Trace {
    run(current, auto_start_step(wanted, Some(text)), outcomes)
}

/// Whether `call` is made to the hotkey registrar.
pub open spec fn is_hotkey_call(call: OsCall) -> bool {
    call is Register || call is Unregister
}

/// A shortcut string that cannot be parsed is refused before any call is
/// made, and the manager keeps what it held.
pub proof fn lemma_unparsed_shortcut_makes_no_call(
    current: Option<KeyCombination>,
    text: Seq<char>,
    outcomes: Seq<Outcome>,
)
    requires
        parsed(text) is Err,
    ensures
        apply_shortcut_trace(current, text, outcomes) == (Trace {
            calls: Seq::empty(),
            current,
            result: Some(Err(SettingsFault::Parse(parsed(text)->Err_0))),
        }),
        run(current, initial_step(text), outcomes) == apply_shortcut_trace(
            current,
            text,
            outcomes,
        ),
{
}

/// Applying the combination that is registered already makes no call and
/// succeeds.
pub proof fn lemma_same_shortcut_makes_no_call(
    fresh: KeyCombination,
    text: Seq<char>,
    outcomes: Seq<Outcome>,
)
    requires
        stands_for(text, fresh),
    ensures
        apply_shortcut_trace(Some(fresh), text, outcomes) == (Trace {
            calls: Seq::empty(),
            current: Some(fresh),
            result: Some(Ok(())),
        }),
{
}

/// Applying a combination while none is registered makes one call, which
/// registers it. The manager holds it afterwards if and only if that call
/// succeeded.
pub proof fn lemma_first_shortcut(
    fresh: KeyCombination,
    text: Seq<char>,
    outcomes: Seq<Outcome>,
)
    requires
        stands_for(text, fresh),
        outcomes.len() >= 1,
    ensures
        apply_shortcut_trace(None, text, outcomes) == (Trace {
            calls: seq![OsCall::Register(fresh)],
            current: match outcomes[0] {
                Ok(_) => Some(fresh),
                Err(_) => None,
            },
            result: Some(
                match outcomes[0] {
                    Ok(_) => Ok(()),
                    Err(reason) => Err(SettingsFault::Registration { shortcut: text, reason }),
                },
            ),
        }),
{
    reveal_with_fuel(run, 3);
    let trace = apply_shortcut_trace(None, text, outcomes);
    assert(trace.calls =~= seq![OsCall::Register(fresh)]);
}

/// Applying a combination while another is registered makes two calls: it
/// unregisters the other, then registers the fresh one. Whether the first
/// call succeeded makes no difference. The manager holds the fresh
/// combination afterwards if the second call succeeded, and the other one
/// still if it failed.
pub proof fn lemma_changed_shortcut(
    stale: KeyCombination,
    fresh: KeyCombination,
    text: Seq<char>,
    outcomes: Seq<Outcome>,
)
    requires
        stands_for(text, fresh),
        stale != fresh,
        outcomes.len() >= 2,
    ensures
        apply_shortcut_trace(Some(stale), text, outcomes) == (Trace {
            calls: seq![OsCall::Unregister(stale), OsCall::Register(fresh)],
            current: match outcomes[1] {
                Ok(_) => Some(fresh),
                Err(_) => Some(stale),
            },
            result: Some(
                match outcomes[1] {
                    Ok(_) => Ok(()),
                    Err(reason) => Err(SettingsFault::Registration { shortcut: text, reason }),
                },
            ),
        }),
{
    reveal_with_fuel(run, 4);
    let trace = apply_shortcut_trace(Some(stale), text, outcomes);
    assert(outcomes.drop_first().first() == outcomes[1]);
    assert(trace.calls =~= seq![OsCall::Unregister(stale), OsCall::Register(fresh)]);
}

/// The calls that applying the combination `fresh` makes while `current` is
/// registered: none where `fresh` is registered already; else one that
/// registers it, after one that unregisters what was registered before.
pub open spec fn shortcut_calls(current: Option<KeyCombination>, fresh: KeyCombination) -> Seq<
    OsCall,
> {
    match current {
        Some(stale) => if stale == fresh {
            Seq::empty()
        } else {
            seq![OsCall::Unregister(stale), OsCall::Register(fresh)]
        },
        None => seq![OsCall::Register(fresh)],
    }
}

/// Applying a shortcut string that was applied with success just before
/// makes no call: whatever was registered before the first time, and
/// whatever the OS would answer. Over both times the combination is
/// registered once, unless it was registered already, and nothing is
/// unregistered the second time.
pub proof fn lemma_apply_shortcut_twice(
    current: Option<KeyCombination>,
    text: Seq<char>,
    outcomes: Seq<Outcome>,
    later: Seq<Outcome>,
)
    requires
        apply_shortcut_trace(current, text, outcomes).result == Some(
            Ok::<(), SettingsFault>(()),
        ),
    ensures
        parsed(text) is Ok,
        apply_shortcut_trace(current, text, outcomes).calls == shortcut_calls(
            current,
            parsed(text)->Ok_0,
        ),
        apply_shortcut_trace(current, text, outcomes).current == Some(parsed(text)->Ok_0),
        apply_shortcut_trace(Some(parsed(text)->Ok_0), text, later) == (Trace {
            calls: Seq::empty(),
            current: Some(parsed(text)->Ok_0),
            result: Some(Ok(())),
        }),
{
    reveal_with_fuel(run, 4);
    let first = apply_shortcut_trace(current, text, outcomes);
    if outcomes.len() >= 2 {
        assert(outcomes.drop_first().first() == outcomes[1]);
    }
    assert(first.calls =~= shortcut_calls(current, parsed(text)->Ok_0));
}

/// Registering a shortcut at process start makes one call, which registers
/// it; nothing is unregistered, whatever the manager held. The manager holds
/// the combination afterwards if that call succeeded, and what it held
/// before if it failed.
pub proof fn lemma_initial_shortcut(
    current: Option<KeyCombination>,
    fresh: KeyCombination,
    text: Seq<char>,
    outcomes: Seq<Outcome>,
)
    requires
        stands_for(text, fresh),
        outcomes.len() >= 1,
    ensures
        run(current, initial_step(text), outcomes) == (Trace {
            calls: seq![OsCall::Register(fresh)],
            current: match outcomes[0] {
                Ok(_) => Some(fresh),
                Err(_) => current,
            },
            result: Some(
                match outcomes[0] {
                    Ok(_) => Ok(()),
                    Err(reason) => Err(SettingsFault::Registration { shortcut: text, reason }),
                },
            ),
        }),
{
    reveal_with_fuel(run, 3);
    let trace = run(current, initial_step(text), outcomes);
    assert(trace.calls =~= seq![OsCall::Register(fresh)]);
}

/// Bringing auto-start to the state it is in already makes no call after
/// the query, and succeeds.
pub proof fn lemma_auto_start_in_place(
    current: Option<KeyCombination>,
    wanted: bool,
    outcomes: Seq<Outcome>,
)
    requires
        outcomes.len() >= 1,
        outcomes[0] == Ok::<bool, Seq<char>>(wanted),
    ensures
        run(current, auto_start_step(wanted, None), outcomes) == (Trace {
            calls: seq![OsCall::QueryAutoStart],
            current,
            result: Some(Ok(())),
        }),
{
    reveal_with_fuel(run, 3);
    let trace = run(current, auto_start_step(wanted, None), outcomes);
    assert(trace.calls =~= seq![OsCall::QueryAutoStart]);
}

/// Bringing auto-start to the other state makes one call after the query:
/// it enables auto-start where that is wanted, and disables it where not.
/// The result is that of this call.
pub proof fn lemma_auto_start_switched(
    current: Option<KeyCombination>,
    wanted: bool,
    outcomes: Seq<Outcome>,
)
    requires
        outcomes.len() >= 2,
        outcomes[0] == Ok::<bool, Seq<char>>(!wanted),
    ensures
        run(current, auto_start_step(wanted, None), outcomes) == (Trace {
            calls: seq![OsCall::QueryAutoStart, switch_call(wanted)],
            current,
            result: Some(
                match outcomes[1] {
                    Ok(_) => Ok(()),
                    Err(reason) => Err(
                        SettingsFault::AutoStart { step: switch_step(wanted), reason },
                    ),
                },
            ),
        }),
{
    reveal_with_fuel(run, 4);
    let trace = run(current, auto_start_step(wanted, None), outcomes);
    assert(outcomes.drop_first().first() == outcomes[1]);
    assert(trace.calls =~= seq![OsCall::QueryAutoStart, switch_call(wanted)]);
}

/// When the status of auto-start cannot be had, the operation ends with
/// that failure and no further call.
pub proof fn lemma_auto_start_unknown(
    current: Option<KeyCombination>,
    wanted: bool,
    shortcut: Option<Seq<char>>,
    outcomes: Seq<Outcome>,
)
    requires
        outcomes.len() >= 1,
        outcomes[0] is Err,
    ensures
        run(current, auto_start_step(wanted, shortcut), outcomes) == (Trace {
            calls: seq![OsCall::QueryAutoStart],
            current,
            result: Some(
                Err(
                    SettingsFault::AutoStart {
                        step: AutoStartStep::Status,
                        reason: outcomes[0]->Err_0,
                    },
                ),
            ),
        }),
{
    reveal_with_fuel(run, 3);
    let trace = run(current, auto_start_step(wanted, shortcut), outcomes);
    assert(trace.calls =~= seq![OsCall::QueryAutoStart]);
}

/// Applying a document whose auto-start step fails ends with that failure:
/// no call goes to the hotkey registrar, and the manager keeps what it held.
pub proof fn lemma_apply_stops_at_auto_start(
    current: Option<KeyCombination>,
    wanted: bool,
    text: Seq<char>,
    outcomes: Seq<Outcome>,
)
    requires
        outcomes.len() >= 2,
        outcomes[0] is Err || (outcomes[0] == Ok::<bool, Seq<char>>(!wanted) && outcomes[1] is Err),
    ensures
        ({
            let trace = apply_trace(current, wanted, text, outcomes);
            &&& trace.result is Some
            &&& trace.result->0 is Err
            &&& trace.result->0->Err_0 is AutoStart
            &&& trace.current == current
            &&& forall|i: int| 0 <= i < trace.calls.len() ==> !is_hotkey_call(trace.calls[i])
        }),
{
    reveal_with_fuel(run, 4);
    assert(outcomes.drop_first().first() == outcomes[1]);
}

/// Applying a document whose auto-start step succeeds goes on to apply its
/// shortcut: the calls are those of the auto-start step, then those of the
/// shortcut, and the result is that of the shortcut.
pub proof fn lemma_apply_goes_on_to_shortcut(
    current: Option<KeyCombination>,
    wanted: bool,
    text: Seq<char>,
    outcomes: Seq<Outcome>,
)
    requires
        outcomes.len() >= 2,
        outcomes[0] is Ok,
        outcomes[0]->Ok_0 != wanted ==> outcomes[1] is Ok,
    ensures
        ({
            let trace = apply_trace(current, wanted, text, outcomes);
            if outcomes[0]->Ok_0 == wanted {
                let shortcut = apply_shortcut_trace(current, text, outcomes.skip(1));
                &&& trace.calls == seq![OsCall::QueryAutoStart] + shortcut.calls
                &&& trace.current == shortcut.current
                &&& trace.result == shortcut.result
            } else {
                let shortcut = apply_shortcut_trace(current, text, outcomes.skip(2));
                &&& trace.calls == seq![OsCall::QueryAutoStart, switch_call(wanted)]
                    + shortcut.calls
                &&& trace.current == shortcut.current
                &&& trace.result == shortcut.result
            }
        }),
{
    reveal_with_fuel(run, 3);
    let trace = apply_trace(current, wanted, text, outcomes);
    assert(outcomes.drop_first() =~= outcomes.skip(1));
    assert(outcomes.drop_first().first() == outcomes[1]);
    assert(outcomes.drop_first().drop_first() =~= outcomes.skip(2));
    if outcomes[0]->Ok_0 == wanted {
        let shortcut = apply_shortcut_trace(current, text, outcomes.skip(1));
        assert(trace.calls =~= seq![OsCall::QueryAutoStart] + shortcut.calls);
    } else {
        let shortcut = apply_shortcut_trace(current, text, outcomes.skip(2));
        assert(trace.calls =~= seq![OsCall::QueryAutoStart, switch_call(wanted)]
            + shortcut.calls);
    }
}

/// No step takes a registered combination away: a manager that holds one
/// holds one after every step.
pub proof fn lemma_stays_registered(
    current: Option<KeyCombination>,
    pending: super::manager::PendingView,
    outcome: Outcome,
)
    requires
        current is Some,
    ensures
        resumed(current, pending, outcome).0 is Some,
{
}

/// Every operation is over after four calls at most.
pub proof fn lemma_operations_end(
    current: Option<KeyCombination>,
    wanted: bool,
    text: Seq<char>,
    outcomes: Seq<Outcome>,
)
    requires
        outcomes.len() >= 4,
    ensures
        apply_trace(current, wanted, text, outcomes).result is Some,
        apply_trace(current, wanted, text, outcomes).calls.len() <= 4,
        apply_shortcut_trace(current, text, outcomes).result is Some,
        apply_shortcut_trace(current, text, outcomes).calls.len() <= 2,
        run(current, initial_step(text), outcomes).result is Some,
        run(current, initial_step(text), outcomes).calls.len() <= 1,
        run(current, auto_start_step(wanted, None), outcomes).result is Some,
        run(current, auto_start_step(wanted, None), outcomes).calls.len() <= 2,
{
    reveal_with_fuel(run, 6);
}

/// Applying a shortcut string changes what the manager holds exactly when
/// it ends in success, and then to the combination that the string stands
/// for. The only combination that is ever unregistered is the one held
/// before, and the only one that is ever registered is the fresh one, which
/// holds a modifier.
pub proof fn lemma_shortcut_held_on_success(
    current: Option<KeyCombination>,
    text: Seq<char>,
    outcomes: Seq<Outcome>,
)
    ensures
        ({
            let trace = apply_shortcut_trace(current, text, outcomes);
            &&& trace.result == Some(Ok::<(), SettingsFault>(())) ==> parsed(text) is Ok
                && trace.current == Some(parsed(text)->Ok_0)
            &&& trace.result != Some(Ok::<(), SettingsFault>(())) ==> trace.current == current
            &&& forall|i: int|
                0 <= i < trace.calls.len() ==> match #[trigger] trace.calls[i] {
                    OsCall::Unregister(stale) => i == 0 && current == Some(stale),
                    OsCall::Register(fresh) => i == trace.calls.len() - 1 && stands_for(
                        text,
                        fresh,
                    ) && fresh.well_formed(),
                    _ => false,
                }
        }),
{
    reveal_with_fuel(run, 4);
    if outcomes.len() >= 2 {
        assert(outcomes.drop_first().first() == outcomes[1]);
    }
}

/// What the manager holds once the shortcut strings `texts` have been
/// applied one after another, each operation to its end before the next
/// begins. `outcomes` holds, for each operation, what the OS answered to its
/// calls.
pub open spec fn held_after(
    current: Option<KeyCombination>,
    texts: Seq<Seq<char>>,
    outcomes: Seq<Seq<Outcome>>,
) -> Option<KeyCombination>
    decreases texts.len(),
{
    if texts.len() == 0 || outcomes.len() == 0 {
        current
    } else {
        apply_shortcut_trace(
            held_after(current, texts.drop_last(), outcomes.drop_last()),
            texts.last(),
            outcomes.last(),
        ).current
    }
}

/// Whether the operation at `k` of a sequence as in [`held_after`] ended in
/// success.
pub open spec fn succeeded_at(
    current: Option<KeyCombination>,
    texts: Seq<Seq<char>>,
    outcomes: Seq<Seq<Outcome>>,
    k: int,
) -> bool {
    apply_shortcut_trace(
        held_after(current, texts.take(k), outcomes.take(k)),
        texts[k],
        outcomes[k],
    ).result == Some(Ok::<(), SettingsFault>(()))
}

/// After any number of operations, one after another, the manager holds the
/// combination of the last one that ended in success.
pub proof fn lemma_last_success_is_held(
    current: Option<KeyCombination>,
    texts: Seq<Seq<char>>,
    outcomes: Seq<Seq<Outcome>>,
    k: int,
)
    requires
        texts.len() == outcomes.len(),
        0 <= k < texts.len(),
        succeeded_at(current, texts, outcomes, k),
        forall|j: int| k < j < texts.len() ==> !succeeded_at(current, texts, outcomes, j),
    ensures
        parsed(texts[k]) is Ok,
        held_after(current, texts, outcomes) == Some(parsed(texts[k])->Ok_0),
    decreases texts.len(),
{
    let n = texts.len() - 1;
    let before = held_after(current, texts.drop_last(), outcomes.drop_last());
    assert(texts.take(n) =~= texts.drop_last());
    assert(outcomes.take(n) =~= outcomes.drop_last());
    lemma_shortcut_held_on_success(before, texts.last(), outcomes.last());
    if k < n {
        assert(!succeeded_at(current, texts, outcomes, n));
        assert(texts.drop_last().take(k) =~= texts.take(k));
        assert(outcomes.drop_last().take(k) =~= outcomes.take(k));
        assert forall|j: int| k < j < n implies !succeeded_at(
            current,
            texts.drop_last(),
            outcomes.drop_last(),
            j,
        ) by {
            assert(!succeeded_at(current, texts, outcomes, j));
            assert(texts.drop_last().take(j) =~= texts.take(j));
            assert(outcomes.drop_last().take(j) =~= outcomes.take(j));
        }
        lemma_last_success_is_held(current, texts.drop_last(), outcomes.drop_last(), k);
    }
}

/// Where no operation of a sequence ended in success, the manager holds what
/// it held before.
pub proof fn lemma_no_success_keeps_held(
    current: Option<KeyCombination>,
    texts: Seq<Seq<char>>,
    outcomes: Seq<Seq<Outcome>>,
)
    requires
        texts.len() == outcomes.len(),
        forall|j: int| 0 <= j < texts.len() ==> !succeeded_at(current, texts, outcomes, j),
    ensures
        held_after(current, texts, outcomes) == current,
    decreases texts.len(),
{
    if texts.len() > 0 {
        let n = texts.len() - 1;
        let before = held_after(current, texts.drop_last(), outcomes.drop_last());
        assert(texts.take(n) =~= texts.drop_last());
        assert(outcomes.take(n) =~= outcomes.drop_last());
        assert(!succeeded_at(current, texts, outcomes, n));
        lemma_shortcut_held_on_success(before, texts.last(), outcomes.last());
        assert forall|j: int| 0 <= j < n implies !succeeded_at(
            current,
            texts.drop_last(),
            outcomes.drop_last(),
            j,
        ) by {
            assert(!succeeded_at(current, texts, outcomes, j));
            assert(texts.drop_last().take(j) =~= texts.take(j));
            assert(outcomes.drop_last().take(j) =~= outcomes.take(j));
        }
        lemma_no_success_keeps_held(current, texts.drop_last(), outcomes.drop_last());
    }
}

} // verus!
