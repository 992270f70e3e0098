//! Whole runs of the driver, and what holds of every one of them.
//!
//! A run is a command line and the events that the caller reported, each the
//! outcome of the action the driver asked for before it.

use crate::args::{
    first_unrecognized, lemma_unrecognized_is_reported, recognized, UsageErrorView,
};
use crate::driver::{
    exit_status_of, started, stepped, ActionView, BuildStep, DriverView, EventView, FailureView,
    PlansView,
};
use crate::plan::{
    cpp_archive, cpp_names, merged_archive, source_names, CompilationUnitView, Language,
};
use crate::recover::{recovered, stems_of, OutputEntryView};
use vstd::prelude::*;

verus! {

/// Where a run stands after `events` when it stood at `from` before them: the
/// state of the driver and the action it asked for last.
pub open spec fn advanced(from: (DriverView, ActionView), events: Seq<EventView>) -> (
    DriverView,
    ActionView,
)
    decreases events.len(),
{
    if events.len() == 0 {
        from
    } else {
        stepped(advanced(from, events.drop_last()).0, events.last())
    }
}

/// Where the run with the command line `tokens` stands after `events`.
pub open spec fn session(tokens: Seq<Seq<char>>, events: Seq<EventView>) -> (
    DriverView,
    ActionView,
) {
    advanced(started(tokens), events)
}

/// In the run of `tokens` and `events` the driver asked for the directory
/// `path` to be created and was told that it exists.
pub open spec fn out_dir_made(tokens: Seq<Seq<char>>, events: Seq<EventView>, path: Seq<char>) -> bool {
    exists|k: int|
        0 <= k < events.len() && (#[trigger] session(tokens, events.take(k))).1
            == (ActionView::CreateOutDir { path }) && events[k] is OutDirReady
}

/// A halted driver stays halted: whatever is reported to it, it asks the
/// caller to abort.
pub proof fn lemma_halted_stays(action: ActionView, events: Seq<EventView>)
    ensures
        advanced((DriverView::Halted, action), events).0 == DriverView::Halted,
        events.len() > 0 ==> advanced((DriverView::Halted, action), events).1 == (
            ActionView::Abort { failure: FailureView::UnexpectedEvent }
        ),
    decreases events.len(),
{
    if events.len() > 0 {
        lemma_halted_stays(action, events.drop_last());
    }
}

/// A command line that holds an unrecognized token ends the run with a usage
/// error that names the first such token, and with the exit status 1.
/// Whatever is reported afterwards,
/// the driver stays halted and asks for nothing but to abort: no tool is
/// probed, no directory made, nothing compiled.
pub proof fn lemma_unknown_flag_ends_run(tokens: Seq<Seq<char>>, at: int, events: Seq<EventView>)
    requires
        0 <= at < tokens.len(),
        !recognized(tokens[at]),
    ensures
        first_unrecognized(tokens) is Some,
        session(tokens, Seq::empty()) == (
            DriverView::Halted,
            ActionView::Usage {
                error: UsageErrorView::UnknownArgument { argument: first_unrecognized(tokens)->0 },
            },
        ),
        exit_status_of(session(tokens, Seq::empty()).1) == Some(1i32),
        session(tokens, events).0 == DriverView::Halted,
        events.len() > 0 ==> session(tokens, events).1 == (
            ActionView::Abort { failure: FailureView::UnexpectedEvent }
        ),
{
    lemma_unrecognized_is_reported(tokens, at);
    lemma_halted_stays(started(tokens).1, events);
}

/// A driver that waits for the output directory has just asked for it.
proof fn lemma_awaits_what_it_asked(tokens: Seq<Seq<char>>, events: Seq<EventView>)
    requires
        session(tokens, events).0 is AwaitOutDir,
    ensures
        events.len() > 0,
        session(tokens, events).1 == (
            ActionView::CreateOutDir { path: session(tokens, events).0->AwaitOutDir_out_dir }
        ),
{
}

/// A driver that is building was told that the output directory of both of
/// its units exists.
proof fn lemma_builds_in_made_dir(tokens: Seq<Seq<char>>, events: Seq<EventView>)
    requires
        session(tokens, events).0 is Building,
    ensures
        out_dir_made(tokens, events, session(tokens, events).0->plans.c.out_dir),
        session(tokens, events).0->plans.cpp.out_dir == session(tokens, events).0->plans.c.out_dir,
    decreases events.len(),
{
    if events.len() > 0 {
        let before = events.drop_last();
        let prior = session(tokens, before);
        let path = session(tokens, events).0->plans.c.out_dir;
        if prior.0 is Building {
            lemma_builds_in_made_dir(tokens, before);
            let k = choose|k: int|
                0 <= k < before.len() && (#[trigger] session(tokens, before.take(k))).1 == (
                    ActionView::CreateOutDir { path }
                ) && before[k] is OutDirReady;
            assert(events.take(k) == before.take(k));
        } else {
            lemma_awaits_what_it_asked(tokens, before);
        }
    }
}

/// Nothing is compiled before the output directory exists: when the driver
/// asks for a unit to be compiled, it has earlier in the run asked for the
/// unit's output directory to be created and was told that it exists.
pub proof fn lemma_out_dir_before_compile(tokens: Seq<Seq<char>>, events: Seq<EventView>)
    requires
        session(tokens, events).1 is Compile,
    ensures
        out_dir_made(tokens, events, session(tokens, events).1->Compile_unit.out_dir),
{
    let before = events.drop_last();
    let path = session(tokens, events).1->Compile_unit.out_dir;
    lemma_builds_in_made_dir(tokens, before);
    let k = choose|k: int|
        0 <= k < before.len() && (#[trigger] session(tokens, before.take(k))).1 == (
            ActionView::CreateOutDir { path }
        ) && before[k] is OutDirReady;
    assert(events.take(k) == before.take(k));
}

/// What the listing of the output directory decides.  When exactly one object
/// is recovered for each of the three C++ sources, the C unit is compiled
/// with these objects into the merged archive.  Otherwise the run is halted
/// with the two counts, and nothing is archived.
pub proof fn lemma_listing_decides(plans: PlansView, entries: Seq<OutputEntryView>)
    ensures
        cpp_names().len() == 3,
        ({
            let objects = recovered(entries, stems_of(cpp_names()));
            let next = stepped(
                DriverView::Building { step: BuildStep::Listing, plans },
                EventView::Listing { entries },
            );
            if objects.len() == 3 {
                next.1 == (ActionView::Compile {
                    unit: CompilationUnitView { objects, ..plans.c },
                    archive: merged_archive(),
                })
            } else {
                &&& next.0 == DriverView::Halted
                &&& next.1 == (ActionView::Abort {
                    failure: FailureView::ObjectCount {
                        out_dir: plans.c.out_dir,
                        expected: 3,
                        found: objects.len() as usize,
                    },
                })
            }
        }),
{
}

/// The merged archive is never made of less than all objects: when the driver
/// asks for it, the event before was the listing of the output directory, and
/// the unit holds the objects recovered from that listing, one for each of
/// the three C++ sources.
pub proof fn lemma_merged_archive_is_complete(tokens: Seq<Seq<char>>, events: Seq<EventView>)
    requires
        session(tokens, events).1 is Compile,
        session(tokens, events).1->Compile_archive == merged_archive(),
    ensures
        events.len() > 0,
        events.last() is Listing,
        session(tokens, events).1->Compile_unit.objects == recovered(
            events.last()->entries,
            stems_of(cpp_names()),
        ),
        session(tokens, events).1->Compile_unit.objects.len() == 3,
{
    reveal_strlit("unwind-cpp");
    reveal_strlit("unwind");
    assert(cpp_archive().len() != merged_archive().len());
}

/// What holds of the units of a driver that is building: each unit has the
/// sources of its language, one path for each, and no objects to archive as
/// they are, but for the C unit once the objects of the C++ unit are
/// recovered.
pub open spec fn settled(step: BuildStep, plans: PlansView) -> bool {
    &&& plans.c.language == Language::C
    &&& plans.cpp.language == Language::Cpp
    &&& plans.c.sources.len() == source_names(Language::C, plans.family).len()
    &&& plans.cpp.sources.len() == cpp_names().len()
    &&& plans.cpp.objects.len() == 0
    &&& plans.c.objects.len() == (if step == BuildStep::MergedArchive {
        cpp_names().len()
    } else {
        0
    })
}

/// How far a run has come.  Every move of a driver that is not halted takes
/// the run further.
pub open spec fn progress(driver: DriverView) -> int {
    match driver {
        DriverView::AwaitHost { .. } => 0,
        DriverView::AwaitSysroot { .. } => 1,
        DriverView::AwaitToolchain { .. } => 2,
        DriverView::AwaitOutDir { .. } => 3,
        DriverView::Building { step, .. } => match step {
            BuildStep::CFamily => 4,
            BuildStep::CppFamily => 5,
            BuildStep::ReuseFamily => 6,
            BuildStep::Sources => 7,
            BuildStep::CppArchive => 8,
            BuildStep::Listing => 9,
            BuildStep::MergedArchive => 10,
        },
        DriverView::Finished => 11,
        DriverView::Halted => 12,
    }
}

/// The units of a driver that is building are settled.
pub proof fn lemma_building_is_settled(tokens: Seq<Seq<char>>, events: Seq<EventView>)
    requires
        session(tokens, events).0 is Building,
    ensures
        settled(session(tokens, events).0->step, session(tokens, events).0->plans),
    decreases events.len(),
{
    if events.len() > 0 && session(tokens, events.drop_last()).0 is Building {
        lemma_building_is_settled(tokens, events.drop_last());
    }
}

/// A run never falls back: later in a run the driver has come further, unless
/// it was halted, and then it stays halted.
pub proof fn lemma_run_goes_forward(tokens: Seq<Seq<char>>, events: Seq<EventView>, i: int, j: int)
    requires
        0 <= i < j <= events.len(),
    ensures
        progress(session(tokens, events.take(i)).0) <= progress(session(tokens, events.take(j)).0),
        progress(session(tokens, events.take(i)).0) == progress(session(tokens, events.take(j)).0)
            ==> session(tokens, events.take(i)).0 == DriverView::Halted,
    decreases j - i,
{
    assert(events.take(j).drop_last() == events.take(j - 1));
    if i < j - 1 {
        lemma_run_goes_forward(tokens, events, i, j - 1);
    }
}

/// No archive is made twice: of two compilations that the driver asks for in
/// one run, the first is that of the C++ unit into the archive of the C++
/// objects, and the second that of the C unit into the merged archive.
pub proof fn lemma_each_archive_once(tokens: Seq<Seq<char>>, events: Seq<EventView>, i: int, j: int)
    requires
        0 <= i < j <= events.len(),
        session(tokens, events.take(i)).1 is Compile,
        session(tokens, events.take(j)).1 is Compile,
    ensures
        session(tokens, events.take(i)).1->Compile_archive == cpp_archive(),
        session(tokens, events.take(i)).1->Compile_unit.language == Language::Cpp,
        session(tokens, events.take(j)).1->Compile_archive == merged_archive(),
        session(tokens, events.take(j)).1->Compile_unit.language == Language::C,
{
    lemma_run_goes_forward(tokens, events, i, j);
    lemma_compiles_its_unit(tokens, events.take(i));
    lemma_compiles_its_unit(tokens, events.take(j));
}

/// When the driver asks for a compilation it has just come to wait for its
/// end, and the unit and the archive are those of the step.
proof fn lemma_compiles_its_unit(tokens: Seq<Seq<char>>, events: Seq<EventView>)
    requires
        session(tokens, events).1 is Compile,
    ensures
        session(tokens, events).0 is Building,
        ({
            let step = session(tokens, events).0->step;
            let plans = session(tokens, events).0->plans;
            let unit = session(tokens, events).1->Compile_unit;
            let archive = session(tokens, events).1->Compile_archive;
            &&& settled(step, plans)
            &&& step == BuildStep::CppArchive || step == BuildStep::MergedArchive
            &&& step == BuildStep::CppArchive ==> unit == plans.cpp && archive == cpp_archive()
            &&& step == BuildStep::MergedArchive ==> unit == plans.c && archive
                == merged_archive()
        }),
{
    lemma_building_is_settled(tokens, events);
}

/// A run that is complete has made both archives, and in this order.  Three
/// moves before the end the driver asked for the three C++ sources to be
/// compiled into the archive of the C++ objects, with no object added.  Then
/// it asked for the listing of the output directory.  One move before the end
/// it asked for the C sources, five or with the enclave's own six, to be
/// compiled into the merged archive together with three recovered objects.
pub proof fn lemma_complete_run(tokens: Seq<Seq<char>>, events: Seq<EventView>)
    requires
        session(tokens, events).1 is Finish,
    ensures
        events.len() >= 3,
        session(tokens, events).0 == DriverView::Finished,
        ({
            let first = session(tokens, events.take(events.len() - 3)).1;
            let between = session(tokens, events.take(events.len() - 2)).1;
            let second = session(tokens, events.take(events.len() - 1)).1;
            &&& first is Compile
            &&& first->Compile_archive == cpp_archive()
            &&& first->Compile_unit.language == Language::Cpp
            &&& first->Compile_unit.sources.len() == 3
            &&& first->Compile_unit.objects.len() == 0
            &&& between is ListOutDir
            &&& second is Compile
            &&& second->Compile_archive == merged_archive()
            &&& second->Compile_unit.language == Language::C
            &&& 5 <= second->Compile_unit.sources.len() <= 6
            &&& second->Compile_unit.objects.len() == 3
        }),
{
    let n = events.len();
    let one = events.take(n - 1);
    let two = events.take(n - 2);
    assert(one.drop_last() == two);
    assert(session(tokens, two).0 is Building);
    let three = events.take(n - 3);
    assert(two.drop_last() == three);
    lemma_compiles_its_unit(tokens, one);
    lemma_compiles_its_unit(tokens, three);
}

} // verus!
