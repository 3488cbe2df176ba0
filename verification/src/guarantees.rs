//! What holds of every startup, whatever the host's work brings.

use crate::config::{
    chosen_max_age, chosen_sheet_path, default_sheet_path, SettingView, DEFAULT_MAX_AGE,
};
use crate::error::{
    compile_lead, compile_message_ends_in_diagnostic, holds_at, message_of, not_found_lead,
    not_found_message_names_path, StartupErrorView,
};
use crate::ignition::{next, pending, progress, retrieved, run, ActionView, EventView, Phase};
use crate::sheet::SassSheetView;
use vstd::prelude::*;

verus! {

/// The events of a whole startup, in the order in which the work is due.
pub open spec fn startup_events(
    path: SettingView<Seq<char>>,
    normalized: Result<Seq<char>, Seq<char>>,
    compiled: Result<Seq<char>, Seq<char>>,
    max_age: SettingView<u32>,
) -> Seq<EventView> {
    seq![
        EventView::SheetPath(path),
        EventView::Normalized(normalized),
        EventView::Compiled(compiled),
        EventView::MaxAge(max_age),
    ]
}

/// What a startup comes to, given what the configuration holds and what the
/// file system and the compiler answer: the sheet, or the first failure on
/// the way.
pub open spec fn ignited(
    path: SettingView<Seq<char>>,
    normalized: Result<Seq<char>, Seq<char>>,
    compiled: Result<Seq<char>, Seq<char>>,
    max_age: SettingView<u32>,
) -> Result<SassSheetView, StartupErrorView> {
    match chosen_sheet_path(path) {
        Err(error) => Err(error),
        Ok(relative) => match normalized {
            Err(reason) => Err(StartupErrorView::NotFound { path: relative, reason }),
            Ok(found) => match compiled {
                Err(diagnostic) => Err(StartupErrorView::Compile { diagnostic }),
                Ok(content) => match chosen_max_age(max_age) {
                    Err(error) => Err(error),
                    Ok(cache_max_age) => Ok(SassSheetView { content, cache_max_age, path: found }),
                },
            },
        },
    }
}

/// The final phase that holds `outcome`.
pub open spec fn settled(outcome: Result<SassSheetView, StartupErrorView>) -> Phase {
    match outcome {
        Ok(sheet) => Phase::Published { sheet },
        Err(error) => Phase::Failed { error },
    }
}

/// One more event at the end of a run is one more step.
pub proof fn run_push(phase: Phase, events: Seq<EventView>, event: EventView)
    ensures
        run(phase, events.push(event)) == next(run(phase, events), event),
{
    assert(events.push(event).drop_last() =~= events);
}

/// A run over two stretches of events is the run over the second from where
/// the first one led.
pub proof fn run_append(phase: Phase, first: Seq<EventView>, second: Seq<EventView>)
    ensures
        run(phase, first + second) == run(run(phase, first), second),
    decreases second.len(),
{
    if second.len() == 0 {
        assert(first + second =~= first);
    } else {
        run_append(phase, first, second.drop_last());
        assert((first + second).drop_last() =~= first + second.drop_last());
    }
}

/// There is no way back: a step never undoes work, and where it changes the
/// phase, the startup has moved on. A published sheet and a failure are final.
pub proof fn no_way_back(phase: Phase, event: EventView)
    ensures
        progress(next(phase, event)) >= progress(phase),
        next(phase, event) != phase ==> progress(next(phase, event)) > progress(phase),
        phase is Published || phase is Failed ==> next(phase, event) == phase,
{
}

/// The host is told to serve exactly when a sheet is published, and to give
/// up exactly when startup has failed.
pub proof fn serve_means_published(phase: Phase)
    ensures
        pending(phase) is Serve <==> retrieved(phase) is Some,
        pending(phase) is Abort <==> phase is Failed,
{
}

/// No run of events undoes work: the startup is at least as far after it as
/// before.
pub proof fn run_never_goes_back(phase: Phase, events: Seq<EventView>)
    ensures
        progress(run(phase, events)) >= progress(phase),
    decreases events.len(),
{
    if events.len() > 0 {
        run_never_goes_back(phase, events.drop_last());
        no_way_back(run(phase, events.drop_last()), events.last());
    }
}

/// Once a sheet is published or startup has failed, no run of events changes
/// anything.
pub proof fn settled_stays(phase: Phase, events: Seq<EventView>)
    requires
        phase is Published || phase is Failed,
    ensures
        run(phase, events) == phase,
    decreases events.len(),
{
    if events.len() > 0 {
        settled_stays(phase, events.drop_last());
    }
}

/// A startup whose work is done in order comes to what `ignited` says, and
/// stays there whatever events follow.
pub proof fn startup_settles(
    path: SettingView<Seq<char>>,
    normalized: Result<Seq<char>, Seq<char>>,
    compiled: Result<Seq<char>, Seq<char>>,
    max_age: SettingView<u32>,
    later: Seq<EventView>,
)
    ensures
        run(Phase::Start, startup_events(path, normalized, compiled, max_age) + later) == settled(
            ignited(path, normalized, compiled, max_age),
        ),
{
    let none = Seq::<EventView>::empty();
    let e1 = EventView::SheetPath(path);
    let e2 = EventView::Normalized(normalized);
    let e3 = EventView::Compiled(compiled);
    let e4 = EventView::MaxAge(max_age);
    let events = startup_events(path, normalized, compiled, max_age);
    assert(events =~= none.push(e1).push(e2).push(e3).push(e4));
    run_push(Phase::Start, none, e1);
    run_push(Phase::Start, none.push(e1), e2);
    run_push(Phase::Start, none.push(e1).push(e2), e3);
    run_push(Phase::Start, none.push(e1).push(e2).push(e3), e4);
    let end = run(Phase::Start, events);
    run_append(Phase::Start, events, later);
    settled_stays(end, later);
}

/// Where the configuration is valid, the source exists and the compiler
/// accepts it, startup publishes one sheet: the compiled text, with the cache
/// lifetime that the configuration yields and the normalized path. Every
/// retrieval after that finds this same sheet, whatever events follow.
pub proof fn startup_publishes_once(
    path: SettingView<Seq<char>>,
    found: Seq<char>,
    content: Seq<char>,
    max_age: SettingView<u32>,
    later: Seq<EventView>,
)
    requires
        chosen_sheet_path(path) is Ok,
        chosen_max_age(max_age) is Ok,
    ensures
        retrieved(
            run(Phase::Start, startup_events(path, Ok(found), Ok(content), max_age) + later),
        ) == Some(
            SassSheetView { content, cache_max_age: chosen_max_age(max_age)->Ok_0, path: found },
        ),
{
    startup_settles(path, Ok(found), Ok(content), max_age, later);
}

/// Where the sheet's path does not exist, startup fails and no sheet is ever
/// published: every retrieval finds none, whatever events follow. The failure
/// names the path that was asked for.
pub proof fn missing_source_never_publishes(
    path: SettingView<Seq<char>>,
    reason: Seq<char>,
    compiled: Result<Seq<char>, Seq<char>>,
    max_age: SettingView<u32>,
    later: Seq<EventView>,
)
    ensures
        ({
            let end = run(
                Phase::Start,
                startup_events(path, Err(reason), compiled, max_age) + later,
            );
            &&& end is Failed
            &&& retrieved(end) is None
            &&& chosen_sheet_path(path) matches Ok(relative) ==> {
                &&& end == (Phase::Failed {
                    error: StartupErrorView::NotFound { path: relative, reason },
                })
                &&& holds_at(message_of(end->error), not_found_lead().len() as int, relative)
            }
        }),
{
    startup_settles(path, Err(reason), compiled, max_age, later);
    if let Ok(relative) = chosen_sheet_path(path) {
        not_found_message_names_path(relative, reason);
    }
}

/// Where the compiler rejects the sheet, startup fails with the compiler's
/// report, untouched, and the failure's message ends in that report.
pub proof fn compile_failure_keeps_diagnostic(
    path: SettingView<Seq<char>>,
    found: Seq<char>,
    diagnostic: Seq<char>,
    max_age: SettingView<u32>,
    later: Seq<EventView>,
)
    requires
        chosen_sheet_path(path) is Ok,
    ensures
        ({
            let end = run(
                Phase::Start,
                startup_events(path, Ok(found), Err(diagnostic), max_age) + later,
            );
            &&& end == (Phase::Failed { error: StartupErrorView::Compile { diagnostic } })
            &&& retrieved(end) is None
            &&& holds_at(message_of(end->error), compile_lead().len() as int, diagnostic)
        }),
{
    startup_settles(path, Ok(found), Err(diagnostic), max_age, later);
    compile_message_ends_in_diagnostic(diagnostic);
}

/// Each default applies where its own setting is missing, whatever the other
/// setting holds: a missing path has the default path normalized and compiled
/// under any cache lifetime, and a missing cache lifetime publishes the
/// default one with any path.
pub proof fn defaults_apply_independently(
    path: SettingView<Seq<char>>,
    found: Seq<char>,
    content: Seq<char>,
    max_age: SettingView<u32>,
)
    ensures
        pending(next(Phase::Start, EventView::SheetPath(SettingView::Missing)))
            == (ActionView::Normalize { relative: default_sheet_path() }),
        chosen_max_age(max_age) matches Ok(seconds) ==> ignited(
            SettingView::Missing,
            Ok(found),
            Ok(content),
            max_age,
        ) == Ok::<SassSheetView, StartupErrorView>(
            SassSheetView { content, cache_max_age: seconds, path: found },
        ),
        chosen_sheet_path(path) is Ok ==> ignited(
            path,
            Ok(found),
            Ok(content),
            SettingView::Missing,
        ) == Ok::<SassSheetView, StartupErrorView>(
            SassSheetView { content, cache_max_age: DEFAULT_MAX_AGE as nat, path: found },
        ),
{
}

} // verus!
