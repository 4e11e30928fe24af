//! What holds of every run: the laws that the step function's contract gives
//! when steps are put together.

use vstd::prelude::*;
use crate::algorithm::{decoded, recognized};
use crate::catalog::{ImportCall, System};
use crate::config::ConfigurationError;
use crate::history::{
    after, imports_of, lemma_in_two_parts, lemma_one_more, lemma_projections_in_two_parts,
    notices_of, trace,
};
use crate::orchestrator::{advance, start, text_of, Action, Event, Phase, RunError, RunView};

verus! {

/// The answers that one system's visit takes: its header, the notification,
/// and the import's outcome.
pub open spec fn visit<H, E>(header: Option<H>, outcome: Result<(), E>) -> Seq<Event<H, E>> {
    seq![Event::Header(Ok(header)), Event::Notified, Event::Imported(outcome)]
}

/// The answers of successful visits to the systems at `from` up to, not
/// including, `to`, where the system at `i` has the header `headers[i]`.
pub open spec fn visits<H, E>(headers: Seq<Option<H>>, from: int, to: int) -> Seq<Event<H, E>>
    decreases to - from,
{
    if to <= from {
        Seq::empty()
    } else {
        visits(headers, from, to - 1) + visit(headers[to - 1], Ok(()))
    }
}

/// The run once the systems before `to` have been imported.
pub open spec fn walked<H>(run: RunView<H>, to: int) -> RunView<H> {
    RunView {
        cursor: to as nat,
        held: None,
        phase: if to < run.systems.len() {
            Phase::AwaitHeader
        } else {
            Phase::Done
        },
        ..run
    }
}

/// The action that follows the successful import of the system before `to`.
pub open spec fn onward<H, E>(run: RunView<H>, to: int) -> Action<H, E> {
    if to < run.systems.len() {
        Action::FetchHeader(run.systems[to])
    } else {
        Action::Finish(Ok(()))
    }
}

/// A run that is over stays over: whatever it is told, it answers that the
/// event was out of turn, and it changes nothing.
pub proof fn law_done_is_final<H, E>(run: RunView<H>, event: Event<H, E>)
    requires
        run.phase == Phase::Done,
    ensures
        advance(run, event) == (run, Action::<H, E>::Finish(Err(RunError::Protocol))),
{
}

/// After its end a run notifies nobody and imports nothing, however many
/// events follow.
pub proof fn law_ended_run_is_silent<H, E>(run: RunView<H>, events: Seq<Event<H, E>>)
    requires
        run.phase == Phase::Done,
    ensures
        after(run, events) == run,
        trace(run, events) == Seq::new(
            events.len(),
            |i: int| Action::<H, E>::Finish(Err(RunError::Protocol)),
        ),
        imports_of(trace(run, events)) == Seq::<ImportCall<H>>::empty(),
        notices_of(trace(run, events)) == Seq::<System>::empty(),
    decreases events.len(),
{
    if events.len() > 0 {
        law_ended_run_is_silent(run, events.drop_last());
        law_done_is_final(run, events.last());
        assert(trace(run, events).drop_last() =~= trace(run, events.drop_last()));
    }
}

/// What a run has settled never changes: the paths and the options from the
/// beginning, the algorithm once resolved, the snapshot of the systems once
/// taken. The cursor never goes back and moves one system at a time. Every
/// import call is for the system under the cursor, with the run's algorithm
/// and options, and every notice and header lookup is for a system of the
/// snapshot.
pub proof fn law_settled_values_stay<H, E>(run: RunView<H>, event: Event<H, E>)
    requires
        run.wf(),
    ensures
        ({
            let (next, action) = advance(run, event);
            &&& next.wf()
            &&& next.paths == run.paths
            &&& next.options == run.options
            &&& run.algorithm is Some ==> next.algorithm == run.algorithm
            &&& run.phase != Phase::AwaitSystems ==> next.systems == run.systems
            &&& run.visiting() ==> run.cursor <= next.cursor <= run.cursor + 1
            &&& next.cursor == run.cursor + 1 ==> (event matches Event::Imported(Ok(_)))
            &&& action != Action::<H, E>::LookupSetting
            &&& action is Import ==> action == Action::<H, E>::Import(
                run.call(run.cursor as int, run.held),
            ) && run.visiting()
            &&& action is Notify ==> action == Action::<H, E>::Notify(
                run.systems[run.cursor as int],
            ) && run.visiting()
            &&& action is FetchHeader ==> next.visiting() && action == Action::<
                H,
                E,
            >::FetchHeader(next.systems[next.cursor as int])
        }),
{
}

/// One visit, step by step. The header is looked up before anything is
/// announced; the notice comes before the import; an absent header goes to
/// the engine as `None` and is no error. After a success the run moves on to
/// the next system or, after the last, ends well. After a failure it ends at
/// once with the engine's error.
pub proof fn law_one_visit<H, E>(run: RunView<H>, header: Option<H>, outcome: Result<(), E>)
    requires
        run.wf(),
        run.phase == Phase::AwaitHeader,
    ensures
        trace(run, visit(header, outcome)) == seq![
            Action::Notify(run.systems[run.cursor as int]),
            Action::Import(run.call(run.cursor as int, header)),
            match outcome {
                Ok(_) => onward(run, run.cursor as int + 1),
                Err(error) => Action::Finish(Err(RunError::Import(error))),
            },
        ],
        after(run, visit(header, outcome)) == match outcome {
            Ok(_) => walked(run, run.cursor as int + 1),
            Err(error) => RunView { held: None, phase: Phase::Done, ..run },
        },
{
    let none = Seq::<Event<H, E>>::empty();
    let e0 = Event::<H, E>::Header(Ok(header));
    let e1 = Event::<H, E>::Notified;
    let e2 = Event::<H, E>::Imported(outcome);
    lemma_one_more(run, none, e0);
    lemma_one_more(run, none.push(e0), e1);
    lemma_one_more(run, none.push(e0).push(e1), e2);
    assert(visit(header, outcome) =~= none.push(e0).push(e1).push(e2));
}

/// What reaches the engine and the observer in one visit: one call, one
/// notice.
proof fn lemma_visit_projections<H, E>(system: System, call: ImportCall<H>, last: Action<H, E>)
    requires
        !(last is Import),
        !(last is Notify),
    ensures
        imports_of(seq![Action::<H, E>::Notify(system), Action::Import(call), last]) == seq![call],
        notices_of(seq![Action::<H, E>::Notify(system), Action::Import(call), last]) == seq![
            system,
        ],
{
    let a0 = Action::<H, E>::Notify(system);
    let a1 = Action::<H, E>::Import(call);
    let three = seq![a0, a1, last];
    let two = seq![a0, a1];
    let one = seq![a0];
    assert(three.drop_last() =~= two);
    assert(two.drop_last() =~= one);
    let none = Seq::<Action<H, E>>::empty();
    assert(one.drop_last() =~= none);
    assert(imports_of(none) =~= Seq::<ImportCall<H>>::empty());
    assert(notices_of(none) =~= Seq::<System>::empty());
    assert(imports_of(one) =~= Seq::<ImportCall<H>>::empty());
    assert(notices_of(one) =~= seq![system]);
    assert(imports_of(two) =~= seq![call]);
    assert(notices_of(two) =~= seq![system]);
}

/// Successful visits, one after another: the systems from `from` up to `to`
/// are announced and imported in the snapshot's order, each once, each with
/// its own header, and the run is then where `walked` says.
pub proof fn law_visits_in_order<H, E>(run: RunView<H>, headers: Seq<Option<H>>, from: int, to: int)
    requires
        run.wf(),
        run.phase == Phase::AwaitHeader,
        run.cursor == from,
        from <= to <= run.systems.len(),
        headers.len() == run.systems.len(),
    ensures
        to > from ==> after(run, visits::<H, E>(headers, from, to)) == walked(run, to),
        to > from ==> trace(run, visits::<H, E>(headers, from, to)).last() == onward::<H, E>(
            run,
            to,
        ),
        trace(run, visits::<H, E>(headers, from, to)).len() == 3 * (to - from),
        imports_of(trace(run, visits::<H, E>(headers, from, to))) == Seq::new(
            (to - from) as nat,
            |j: int| run.call(from + j, headers[from + j]),
        ),
        notices_of(trace(run, visits::<H, E>(headers, from, to))) == run.systems.subrange(
            from,
            to,
        ),
    decreases to - from,
{
    if to > from {
        let earlier = visits::<H, E>(headers, from, to - 1);
        let last = visit::<H, E>(headers[to - 1], Ok(()));
        law_visits_in_order::<H, E>(run, headers, from, to - 1);
        let mid = after(run, earlier);
        law_one_visit::<H, E>(mid, headers[to - 1], Ok(()));
        lemma_in_two_parts(run, earlier, last);
        lemma_projections_in_two_parts(trace(run, earlier), trace(mid, last));
        lemma_visit_projections::<H, E>(
            run.systems[to - 1],
            run.call(to - 1, headers[to - 1]),
            onward::<H, E>(mid, to),
        );
        assert(trace(mid, last) == seq![
            Action::<H, E>::Notify(run.systems[to - 1]),
            Action::Import(run.call(to - 1, headers[to - 1])),
            onward::<H, E>(mid, to),
        ]);
    }
}

/// Successful visits up to the system at `at`, whose import fails: the
/// systems from `from` up to and including `at` are announced and attempted,
/// in order, and the run ends with the engine's error. No later system is
/// touched.
pub proof fn law_visits_end_at_failed_import<H, E>(
    run: RunView<H>,
    headers: Seq<Option<H>>,
    from: int,
    at: int,
    error: E,
)
    requires
        run.wf(),
        run.phase == Phase::AwaitHeader,
        run.cursor == from,
        from <= at < run.systems.len(),
        headers.len() == run.systems.len(),
    ensures
        ({
            let events = visits::<H, E>(headers, from, at) + visit(headers[at], Err(error));
            &&& after(run, events).phase == Phase::Done
            &&& trace(run, events).last() == Action::<H, E>::Finish(
                Err(RunError::Import(error)),
            )
            &&& imports_of(trace(run, events)) == Seq::new(
                (at + 1 - from) as nat,
                |j: int| run.call(from + j, headers[from + j]),
            )
            &&& notices_of(trace(run, events)) == run.systems.subrange(from, at + 1)
        }),
{
    let earlier = visits::<H, E>(headers, from, at);
    let last = visit::<H, E>(headers[at], Err(error));
    law_visits_in_order::<H, E>(run, headers, from, at);
    let mid = after(run, earlier);
    law_one_visit::<H, E>(mid, headers[at], Err(error));
    lemma_in_two_parts(run, earlier, last);
    lemma_projections_in_two_parts(trace(run, earlier), trace(mid, last));
    lemma_visit_projections::<H, E>(
        run.systems[at],
        run.call(at, headers[at]),
        Action::Finish(Err(RunError::Import(error))),
    );
    assert(trace(mid, last) == seq![
        Action::<H, E>::Notify(run.systems[at]),
        Action::Import(run.call(at, headers[at])),
        Action::Finish(Err(RunError::Import(error))),
    ]);
}

/// The answers of a whole run in which nothing fails: the snapshot of the
/// systems, then one successful visit for each of them.
pub open spec fn smooth_answers<H, E>(systems: Vec<System>, headers: Seq<Option<H>>) -> Seq<
    Event<H, E>,
> {
    seq![Event::Systems(Ok(systems))] + visits(headers, 0, systems@.len() as int)
}

/// The answers of a whole run in which the import of the system at `at` is
/// the first thing to fail.
pub open spec fn answers_with_failed_import<H, E>(
    systems: Vec<System>,
    headers: Seq<Option<H>>,
    at: int,
    error: E,
) -> Seq<Event<H, E>> {
    seq![Event::Systems(Ok(systems))] + (visits(headers, 0, at) + visit(headers[at], Err(error)))
}

/// The import call that a run owes the system at `index` of the snapshot.
pub open spec fn owed<H>(
    run: RunView<H>,
    systems: Seq<System>,
    headers: Seq<Option<H>>,
    index: int,
) -> ImportCall<H> {
    ImportCall {
        system: systems[index],
        header: headers[index],
        algorithm: run.algorithm->0,
        no_trash: run.options.no_trash,
    }
}

/// The first answer of a run that waits for the systems, and what it leaves.
proof fn lemma_snapshot<H, E>(run: RunView<H>, systems: Vec<System>)
    requires
        run.wf(),
        run.phase == Phase::AwaitSystems,
    ensures
        ({
            let first = seq![Event::<H, E>::Systems(Ok(systems))];
            &&& after(run, first) == advance(run, first[0]).0
            &&& trace(run, first) == seq![advance(run, first[0]).1]
            &&& imports_of(trace(run, first)) == Seq::<ImportCall<H>>::empty()
            &&& notices_of(trace(run, first)) == Seq::<System>::empty()
        }),
{
    let event = Event::<H, E>::Systems(Ok(systems));
    let none = Seq::<Event<H, E>>::empty();
    lemma_one_more(run, none, event);
    let only = seq![advance(run, event).1];
    assert(imports_of(only.drop_last()) =~= Seq::<ImportCall<H>>::empty());
    assert(notices_of(only.drop_last()) =~= Seq::<System>::empty());
}

/// A run in which every lookup and every import succeeds invokes the import
/// engine once for each system, in the catalog's order, each time with that
/// system, its header, the run's algorithm and the run's options; it
/// announces each system once, in the same order; and it ends well.
pub proof fn law_every_system_is_imported_in_order<H, E>(
    run: RunView<H>,
    systems: Vec<System>,
    headers: Seq<Option<H>>,
)
    requires
        run.wf(),
        run.phase == Phase::AwaitSystems,
        headers.len() == systems@.len(),
    ensures
        ({
            let actions = trace(run, smooth_answers::<H, E>(systems, headers));
            &&& actions.len() == 1 + 3 * systems@.len()
            &&& actions.last() == Action::<H, E>::Finish(Ok(()))
            &&& after(run, smooth_answers::<H, E>(systems, headers)).phase == Phase::Done
            &&& imports_of(actions) == Seq::new(
                systems@.len(),
                |j: int| owed(run, systems@, headers, j),
            )
            &&& notices_of(actions) == systems@
        }),
{
    let first = seq![Event::<H, E>::Systems(Ok(systems))];
    let count = systems@.len() as int;
    let rest = visits::<H, E>(headers, 0, count);
    lemma_snapshot::<H, E>(run, systems);
    let mid = after(run, first);
    lemma_in_two_parts(run, first, rest);
    lemma_projections_in_two_parts(trace(run, first), trace(mid, rest));
    if count > 0 {
        law_visits_in_order::<H, E>(mid, headers, 0, count);
    }
}

/// A run in which the import of one system fails attempts that system and
/// those before it, in order, and no other; it announces exactly those; and
/// it returns the engine's error.
pub proof fn law_failed_import_ends_the_run<H, E>(
    run: RunView<H>,
    systems: Vec<System>,
    headers: Seq<Option<H>>,
    at: int,
    error: E,
)
    requires
        run.wf(),
        run.phase == Phase::AwaitSystems,
        headers.len() == systems@.len(),
        0 <= at < systems@.len(),
    ensures
        ({
            let events = answers_with_failed_import::<H, E>(systems, headers, at, error);
            let actions = trace(run, events);
            &&& actions.last() == Action::<H, E>::Finish(Err(RunError::Import(error)))
            &&& after(run, events).phase == Phase::Done
            &&& imports_of(actions) == Seq::new(
                (at + 1) as nat,
                |j: int| owed(run, systems@, headers, j),
            )
            &&& notices_of(actions) == systems@.subrange(0, at + 1)
        }),
{
    let first = seq![Event::<H, E>::Systems(Ok(systems))];
    let rest = visits::<H, E>(headers, 0, at) + visit(headers[at], Err(error));
    lemma_snapshot::<H, E>(run, systems);
    let mid = after(run, first);
    lemma_in_two_parts(run, first, rest);
    lemma_projections_in_two_parts(trace(run, first), trace(mid, rest));
    law_visits_end_at_failed_import::<H, E>(mid, headers, 0, at, error);
}

/// Through any sequence of events a run keeps its paths and its options,
/// and, once it has one, its algorithm.
pub proof fn law_configuration_is_fixed<H, E>(run: RunView<H>, events: Seq<Event<H, E>>)
    requires
        run.wf(),
    ensures
        after(run, events).wf(),
        after(run, events).paths == run.paths,
        after(run, events).options == run.options,
        run.algorithm is Some ==> after(run, events).algorithm == run.algorithm,
    decreases events.len(),
{
    if events.len() > 0 {
        law_configuration_is_fixed(run, events.drop_last());
        law_settled_values_stay(after(run, events.drop_last()), events.last());
    }
}

/// An override that names an algorithm settles it before the first event:
/// the run asks for the systems at once, never for the persisted setting, and
/// whatever it is told later, a persisted value included, the algorithm
/// stays the override's.
pub proof fn law_override_wins<H, E>(
    paths: Seq<std::path::PathBuf>,
    explicit: Seq<char>,
    no_trash: bool,
    events: Seq<Event<H, E>>,
)
    requires
        recognized(explicit) is Some,
    ensures
        start::<H, E>(paths, Some(explicit), no_trash).1 == Action::<H, E>::ListSystems,
        start::<H, E>(paths, Some(explicit), no_trash).0.wf(),
        start::<H, E>(paths, Some(explicit), no_trash).0.phase == Phase::AwaitSystems,
        after(start::<H, E>(paths, Some(explicit), no_trash).0, events).algorithm == recognized(
            explicit,
        ),
{
    law_configuration_is_fixed(start::<H, E>(paths, Some(explicit), no_trash).0, events);
}

/// Without a usable override the run asks for the persisted setting first,
/// and a persisted value that names an algorithm becomes the run's, for good.
pub proof fn law_persisted_setting_is_the_default<H, E>(
    paths: Seq<std::path::PathBuf>,
    explicit: Option<Seq<char>>,
    no_trash: bool,
    value: Option<String>,
    events: Seq<Event<H, E>>,
)
    requires
        decoded(explicit) is None,
        decoded(text_of(value)) is Some,
    ensures
        ({
            let (run, first) = start::<H, E>(paths, explicit, no_trash);
            let (next, action) = advance(run, Event::<H, E>::Setting(Ok(value)));
            &&& first == Action::<H, E>::LookupSetting
            &&& action == Action::<H, E>::ListSystems
            &&& next.wf()
            &&& next.phase == Phase::AwaitSystems
            &&& next.algorithm == decoded(text_of(value))
            &&& after(next, events).algorithm == decoded(text_of(value))
        }),
{
    let run = start::<H, E>(paths, explicit, no_trash).0;
    let next = advance(run, Event::<H, E>::Setting(Ok(value))).0;
    law_configuration_is_fixed(next, events);
}

/// Where neither the override nor the persisted setting names an algorithm
/// the run ends with the configuration error, and neither the catalog nor
/// the import engine is ever called: every action from then on only reports
/// the end.
pub proof fn law_unresolved_run_touches_nothing<H, E>(
    paths: Seq<std::path::PathBuf>,
    explicit: Option<Seq<char>>,
    no_trash: bool,
    value: Option<String>,
    later: Seq<Event<H, E>>,
)
    requires
        decoded(explicit) is None,
        decoded(text_of(value)) is None,
    ensures
        ({
            let (run, first) = start::<H, E>(paths, explicit, no_trash);
            let (next, action) = advance(run, Event::<H, E>::Setting(Ok(value)));
            &&& first == Action::<H, E>::LookupSetting
            &&& action == Action::<H, E>::Finish(
                Err(RunError::Configuration(ConfigurationError)),
            )
            &&& next.phase == Phase::Done
            &&& forall|i: int| 0 <= i < later.len() ==> #[trigger] trace(next, later)[i] is Finish
            &&& imports_of(trace(next, later)) == Seq::<ImportCall<H>>::empty()
            &&& notices_of(trace(next, later)) == Seq::<System>::empty()
        }),
{
    let run = start::<H, E>(paths, explicit, no_trash).0;
    let next = advance(run, Event::<H, E>::Setting(Ok(value))).0;
    law_ended_run_is_silent(next, later);
}

/// A system without a header is imported like any other: the lookup's
/// `None` ends nothing, the system is announced, and the engine is called
/// with no header.
pub proof fn law_absent_header_is_no_error<H, E>(run: RunView<H>)
    requires
        run.wf(),
        run.phase == Phase::AwaitHeader,
    ensures
        ({
            let (noticed, notice) = advance(run, Event::<H, E>::Header(Ok(None)));
            let (importing, import) = advance(noticed, Event::<H, E>::Notified);
            &&& notice == Action::<H, E>::Notify(run.systems[run.cursor as int])
            &&& import == Action::<H, E>::Import(run.call(run.cursor as int, None))
            &&& importing.phase == Phase::AwaitImport
        }),
{
}

/// A collaborator's failure ends the run at once, and its error is returned
/// as it came: a failed lookup as a catalog error, a failed import as an
/// import error.
pub proof fn law_first_failure_is_returned<H, E>(run: RunView<H>, error: E)
    ensures
        run.phase == Phase::AwaitSetting ==> advance(run, Event::<H, E>::Setting(Err(error))) == (
            run.ended(),
            Action::<H, E>::Finish(Err(RunError::Catalog(error))),
        ),
        run.phase == Phase::AwaitSystems ==> advance(run, Event::<H, E>::Systems(Err(error))) == (
            run.ended(),
            Action::<H, E>::Finish(Err(RunError::Catalog(error))),
        ),
        run.phase == Phase::AwaitHeader ==> advance(run, Event::<H, E>::Header(Err(error))) == (
            run.ended(),
            Action::<H, E>::Finish(Err(RunError::Catalog(error))),
        ),
        run.phase == Phase::AwaitImport ==> advance(run, Event::<H, E>::Imported(Err(error))) == (
            run.ended(),
            Action::<H, E>::Finish(Err(RunError::Import(error))),
        ),
{
}

/// Two answers that say the same thing: the same setting text, the same
/// systems in the same order, or else the same event.
pub open spec fn same_answer<H, E>(one: Event<H, E>, other: Event<H, E>) -> bool {
    match (one, other) {
        (Event::Setting(Ok(a)), Event::Setting(Ok(b))) => text_of(a) == text_of(b),
        (Event::Systems(Ok(a)), Event::Systems(Ok(b))) => a@ == b@,
        (Event::Imported(Ok(_)), Event::Imported(Ok(_))) => true,
        _ => one == other,
    }
}

/// A run carries nothing over from an earlier one: begun from the same
/// state and given the same answers, it takes the same actions, so it invokes
/// the import engine with the same arguments in the same order.
pub proof fn law_same_answers_same_actions<H, E>(
    run: RunView<H>,
    one: Seq<Event<H, E>>,
    other: Seq<Event<H, E>>,
)
    requires
        one.len() == other.len(),
        forall|i: int| 0 <= i < one.len() ==> same_answer(#[trigger] one[i], other[i]),
    ensures
        after(run, one) == after(run, other),
        trace(run, one) == trace(run, other),
        imports_of(trace(run, one)) == imports_of(trace(run, other)),
        notices_of(trace(run, one)) == notices_of(trace(run, other)),
    decreases one.len(),
{
    if one.len() > 0 {
        law_same_answers_same_actions(run, one.drop_last(), other.drop_last());
        let before = after(run, one.drop_last());
    }
}

/// Begun twice from the same paths, override and flag, and given the same
/// answers, a run is the same run twice: the same first action, the same
/// actions after it, the same import calls over the same paths.
pub proof fn law_repeated_run_repeats_itself<H, E>(
    paths: Seq<std::path::PathBuf>,
    explicit: Option<Seq<char>>,
    no_trash: bool,
    one: Seq<Event<H, E>>,
    other: Seq<Event<H, E>>,
)
    requires
        one.len() == other.len(),
        forall|i: int| 0 <= i < one.len() ==> same_answer(#[trigger] one[i], other[i]),
    ensures
        ({
            let run = start::<H, E>(paths, explicit, no_trash).0;
            &&& imports_of(trace(run, one)) == imports_of(trace(run, other))
            &&& notices_of(trace(run, one)) == notices_of(trace(run, other))
            &&& after(run, one).paths == paths
            &&& after(run, other).paths == paths
        }),
{
    let run = start::<H, E>(paths, explicit, no_trash).0;
    law_same_answers_same_actions(run, one, other);
    law_configuration_is_fixed(run, one);
    law_configuration_is_fixed(run, other);
}

} // verus!
