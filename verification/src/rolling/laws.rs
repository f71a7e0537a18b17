//! What holds of every run of the engine.
use crate::error::RollingError;
use crate::file::FileStat;
use crate::rolling::condition::RollingByDuration;
use crate::rolling::condition::RollingBySize;
use crate::rolling::condition::RollingCondition;
use crate::rolling::first_verdict;
use crate::rolling::naming::RollingFileNameProvider;
use crate::rolling::retention::belongs;
use crate::rolling::retention::count_belonging;
use crate::rolling::retention::is_expired;
use crate::rolling::retention::DirectoryEntry;
use crate::rolling::ActionView;
use crate::rolling::Event;
use crate::rolling::Phase;
use crate::rolling::RollingFileView;
use vstd::prelude::*;

verus! {

/// A condition that says yes makes a rollover due, provided that every
/// condition asked before it gave an answer.
pub proof fn lemma_firing_condition_decides<C: RollingCondition>(
    conditions: Seq<C>,
    stat: FileStat,
    now: int,
    i: int,
)
    requires
        0 <= i < conditions.len(),
        forall|j: int| 0 <= j < i ==> (#[trigger] conditions[j]).verdict(stat, now) is Ok,
        conditions[i].verdict(stat, now) == Ok::<bool, RollingError>(true),
    ensures
        first_verdict(conditions, stat, now) == Ok::<bool, RollingError>(true),
    decreases i,
{
    if i > 0 {
        assert(conditions[0].verdict(stat, now) is Ok);
        if conditions[0].verdict(stat, now) == Ok::<bool, RollingError>(false) {
            let rest = conditions.drop_first();
            assert forall|j: int| 0 <= j < i - 1 implies (#[trigger] rest[j]).verdict(stat, now)
                is Ok by {
                assert(rest[j] == conditions[j + 1]);
            }
            assert(rest[i - 1] == conditions[i]);
            lemma_firing_condition_decides(rest, stat, now, i - 1);
        }
    }
}

/// Where every condition says no, no rollover is due.
pub proof fn lemma_silent_conditions_decide<C: RollingCondition>(
    conditions: Seq<C>,
    stat: FileStat,
    now: int,
)
    requires
        forall|j: int|
            0 <= j < conditions.len() ==> (#[trigger] conditions[j]).verdict(stat, now) == Ok::<
                bool,
                RollingError,
            >(false),
    ensures
        first_verdict(conditions, stat, now) == Ok::<bool, RollingError>(false),
    decreases conditions.len(),
{
    if conditions.len() > 0 {
        let rest = conditions.drop_first();
        assert(conditions[0].verdict(stat, now) == Ok::<bool, RollingError>(false));
        assert forall|j: int| 0 <= j < rest.len() implies (#[trigger] rest[j]).verdict(stat, now)
            == Ok::<bool, RollingError>(false) by {
            assert(rest[j] == conditions[j + 1]);
        }
        lemma_silent_conditions_decide(rest, stat, now);
    }
}

/// An append to a file of which a condition says yes rolls over before
/// anything is written: the engine asks for the flush of the active file,
/// which it keeps until the flush is reported.
pub proof fn lemma_due_append_rolls_first<T: RollingFileNameProvider, C: RollingCondition>(
    engine: RollingFileView<T, C>,
    now: int,
    i: int,
    after: RollingFileView<T, C>,
    answer: Result<ActionView, RollingError>,
)
    requires
        engine.file is Some,
        0 <= i < engine.rolling_conditions.len(),
        forall|j: int|
            0 <= j < i ==> (#[trigger] engine.rolling_conditions[j]).verdict(
                engine.file->0,
                now,
            ) is Ok,
        engine.rolling_conditions[i].verdict(engine.file->0, now) == Ok::<bool, RollingError>(
            true,
        ),
        engine.steps(Event::Append, now, after, answer),
    ensures
        answer == Ok::<ActionView, RollingError>(ActionView::Flush),
        after == engine.at(engine.file, Phase::Flushing),
{
    lemma_firing_condition_decides(engine.rolling_conditions, engine.file->0, now, i);
}

/// With a size condition of threshold `T` attached, an append to a file
/// that holds `T` bytes or more rolls over before anything is written.
pub proof fn lemma_full_file_rolls<T: RollingFileNameProvider>(
    engine: RollingFileView<T, RollingBySize>,
    now: int,
    i: int,
    after: RollingFileView<T, RollingBySize>,
    answer: Result<ActionView, RollingError>,
)
    requires
        engine.file is Some,
        0 <= i < engine.rolling_conditions.len(),
        engine.file->0.len >= engine.rolling_conditions[i].threshold(),
        engine.steps(Event::Append, now, after, answer),
    ensures
        answer == Ok::<ActionView, RollingError>(ActionView::Flush),
        after == engine.at(engine.file, Phase::Flushing),
{
    lemma_due_append_rolls_first(engine, now, i, after, answer);
}

/// With a duration condition of duration `D` attached, an append to a file
/// created `D` ago or earlier rolls over before anything is written,
/// whatever the length of the file.
pub proof fn lemma_old_file_rolls<T: RollingFileNameProvider>(
    engine: RollingFileView<T, RollingByDuration>,
    now: int,
    i: int,
    after: RollingFileView<T, RollingByDuration>,
    answer: Result<ActionView, RollingError>,
)
    requires
        engine.file is Some,
        0 <= i < engine.rolling_conditions.len(),
        engine.file->0.created + engine.rolling_conditions[i].age_limit() <= now,
        engine.steps(Event::Append, now, after, answer),
    ensures
        answer == Ok::<ActionView, RollingError>(ActionView::Flush),
        after == engine.at(engine.file, Phase::Flushing),
{
    lemma_due_append_rolls_first(engine, now, i, after, answer);
}

/// A file is opened only while none is open: whenever the engine asks for
/// the next file, it holds no active file, whatever it held before.
pub proof fn lemma_open_follows_release<T: RollingFileNameProvider, C: RollingCondition>(
    engine: RollingFileView<T, C>,
    event: Event,
    now: int,
    after: RollingFileView<T, C>,
    answer: Result<ActionView, RollingError>,
)
    requires
        engine.steps(event, now, after, answer),
        answer matches Ok(ActionView::Open { .. }),
    ensures
        after.file is None,
        after.phase == Phase::Opening,
        event is Append ==> engine.file is None,
        engine.well_formed() ==> event is Append || event is Flushed,
{
}

/// The phase and the active file stay in step: whatever the event, an
/// engine that waits for a file to be opened holds none, and one that waits
/// for a flush, a listing, a deletion or a write holds one.
pub proof fn lemma_steps_keep_well_formed<T: RollingFileNameProvider, C: RollingCondition>(
    engine: RollingFileView<T, C>,
    event: Event,
    now: int,
    after: RollingFileView<T, C>,
    answer: Result<ActionView, RollingError>,
)
    requires
        engine.well_formed(),
        engine.steps(event, now, after, answer),
    ensures
        after.well_formed(),
{
}

/// The file that a rollover opened is the active file as it was found: the
/// engine takes its length from the report, be it zero or the size of a
/// file of that name that was there before.
pub proof fn lemma_opened_file_is_active<T: RollingFileNameProvider, C: RollingCondition>(
    engine: RollingFileView<T, C>,
    stat: FileStat,
    now: int,
    after: RollingFileView<T, C>,
    answer: Result<ActionView, RollingError>,
)
    requires
        engine.phase == Phase::Opening,
        engine.steps(Event::Opened(stat), now, after, answer),
    ensures
        after.file == Some(stat),
{
}

/// Bytes are written only to an open file of which no condition says yes.
pub proof fn lemma_write_needs_no_rollover<T: RollingFileNameProvider, C: RollingCondition>(
    engine: RollingFileView<T, C>,
    event: Event,
    now: int,
    after: RollingFileView<T, C>,
    answer: Result<ActionView, RollingError>,
)
    requires
        engine.steps(event, now, after, answer),
        answer == Ok::<ActionView, RollingError>(ActionView::Write),
    ensures
        after.file is Some,
        after.phase == Phase::Writing,
        after.should_roll(now) == Ok::<bool, RollingError>(false),
{
}

/// The bytes of a series of writes, together.
pub open spec fn total(writes: Seq<usize>) -> nat
    decreases writes.len(),
{
    if writes.len() == 0 {
        0
    } else {
        total(writes.drop_last()) + writes.last() as nat
    }
}

/// One append that went through: the engine is asked at the instant
/// `now`, and the write that follows is reported with `written` bytes and
/// taken.
pub open spec fn is_append<T: RollingFileNameProvider, C: RollingCondition>(
    before: RollingFileView<T, C>,
    now: int,
    written: usize,
    after: RollingFileView<T, C>,
) -> bool {
    exists|waiting: RollingFileView<T, C>, later: int, asked: Result<ActionView, RollingError>|
        #![trigger
            before.steps(Event::Append, now, waiting, asked),
            waiting.steps(
                Event::Written(written),
                later,
                after,
                Ok::<ActionView, RollingError>(ActionView::Done),
            ),
        ]
        {
            &&& before.steps(Event::Append, now, waiting, asked)
            &&& waiting.steps(
                Event::Written(written),
                later,
                after,
                Ok::<ActionView, RollingError>(ActionView::Done),
            )
        }
}

/// `states` are the engine before, between and after a series of appends:
/// append `i` is asked for at the instant `nows[i]`, and the write that
/// follows is reported with `writes[i]` bytes.
pub open spec fn is_series_of_appends<T: RollingFileNameProvider, C: RollingCondition>(
    states: Seq<RollingFileView<T, C>>,
    nows: Seq<int>,
    writes: Seq<usize>,
) -> bool {
    &&& states.len() == writes.len() + 1
    &&& nows.len() == writes.len()
    &&& forall|i: int|
        0 <= i < writes.len() ==> is_append(#[trigger] states[i], nows[i], writes[i], states[i + 1])
}

/// Through a series of appends during which no rollover is due, the active
/// file stays the same, and its length grows by the bytes written: all of
/// them are in that one file, whose length is their sum on top of what the
/// file held before.
pub proof fn lemma_quiet_appends_fill_one_file<T: RollingFileNameProvider, C: RollingCondition>(
    states: Seq<RollingFileView<T, C>>,
    nows: Seq<int>,
    writes: Seq<usize>,
)
    requires
        is_series_of_appends(states, nows, writes),
        states[0].file is Some,
        forall|i: int|
            0 <= i < writes.len() ==> (#[trigger] states[i]).should_roll(nows[i]) == Ok::<
                bool,
                RollingError,
            >(false),
    ensures
        forall|i: int|
            0 <= i < states.len() ==> (#[trigger] states[i]).file is Some && states[i].file->0.created
                == states[0].file->0.created,
        states[0].file->0.len + total(writes) <= usize::MAX,
        states.last().file == Some(
            FileStat {
                created: states[0].file->0.created,
                len: (states[0].file->0.len + total(writes)) as usize,
            },
        ),
    decreases writes.len(),
{
    if writes.len() > 0 {
        let n = writes.len() - 1;
        let earlier = states.drop_last();
        assert forall|i: int| 0 <= i < n implies is_append(
            #[trigger] earlier[i],
            nows.drop_last()[i],
            writes.drop_last()[i],
            earlier[i + 1],
        ) by {
            assert(earlier[i] == states[i]);
            assert(earlier[i + 1] == states[i + 1]);
            assert(is_append(states[i], nows[i], writes[i], states[i + 1]));
        }
        assert forall|i: int| 0 <= i < n implies (#[trigger] earlier[i]).should_roll(
            nows.drop_last()[i],
        ) == Ok::<bool, RollingError>(false) by {
            assert(earlier[i] == states[i]);
        }
        lemma_quiet_appends_fill_one_file(earlier, nows.drop_last(), writes.drop_last());
        assert(earlier.last() == states[n]);
        assert(states[n].should_roll(nows[n]) == Ok::<bool, RollingError>(false));
        assert(is_append(states[n], nows[n], writes[n], states[n + 1]));
        assert forall|i: int| 0 <= i < states.len() implies (#[trigger] states[i]).file is Some
            && states[i].file->0.created == states[0].file->0.created by {
            if i <= n {
                assert(earlier[i] == states[i]);
            }
        }
    }
}

/// After pruning, as many files of the rotation stay as the limit allows,
/// and everything that is no file of the rotation stays.
pub proof fn lemma_pruning_spares_the_rest<T: RollingFileNameProvider>(
    provider: &T,
    entries: Seq<DirectoryEntry>,
    keep: nat,
    removed: Seq<usize>,
)
    requires
        is_expired(provider, entries, keep, removed),
    ensures
        count_belonging(provider, entries) > keep ==> count_belonging(provider, entries)
            - removed.len() == keep,
        count_belonging(provider, entries) <= keep ==> removed.len() == 0,
        forall|i: usize|
            i < entries.len() && !belongs(provider, #[trigger] entries[i as int])
                ==> !removed.contains(i),
{
    assert forall|i: usize|
        i < entries.len() && !belongs(provider, #[trigger] entries[i as int]) implies
        !removed.contains(i) by {
        if removed.contains(i) {
            let k = choose|k: int| 0 <= k < removed.len() && removed[k] == i;
            assert(belongs(provider, entries[removed[k] as int]));
        }
    }
}

} // verus!
