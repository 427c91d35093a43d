//! What holds of every watcher, whatever it is told.
//!
//! The events that count fall into bursts: a burst ends where the next event
//! comes a full window or more after the one before. A watcher delivers one
//! signal for each burst, no more and no fewer.

use vstd::prelude::*;
use crate::defaults::{binary_name, index_name, script_name};
use crate::path::{name_with_extension, path_prefix};
use crate::styles::css_path;
use crate::watch::{hidden, relevant, Debouncer, Input, WatchEvent};

verus! {

/// The state after the inputs.
pub open spec fn run(start: Debouncer, inputs: Seq<Input>) -> Debouncer
    decreases inputs.len(),
{
    if inputs.len() == 0 {
        start
    } else {
        run(start, inputs.drop_last()).spec_after(inputs.last())
    }
}

/// How many signals were delivered on the inputs.
pub open spec fn delivered(start: Debouncer, inputs: Seq<Input>) -> nat
    decreases inputs.len(),
{
    if inputs.len() == 0 {
        0
    } else {
        let before = delivered(start, inputs.drop_last());
        if run(start, inputs.drop_last()).spec_signals(inputs.last()) {
            before + 1
        } else {
            before
        }
    }
}

/// The signals that the watcher still owes: one while an event is pending.
pub open spec fn owed(state: Debouncer) -> nat {
    if state.pending is Some {
        1
    } else {
        0
    }
}

/// The times of the events among the inputs, in their order.
pub open spec fn event_times(inputs: Seq<Input>) -> Seq<u64>
    decreases inputs.len(),
{
    if inputs.len() == 0 {
        Seq::empty()
    } else {
        match inputs.last() {
            Input::Event(at) => event_times(inputs.drop_last()).push(at),
            Input::Tick(_) => event_times(inputs.drop_last()),
        }
    }
}

/// The inputs come in the order of their times.
pub open spec fn ordered(inputs: Seq<Input>) -> bool {
    forall|i: int, j: int|
        0 <= i <= j < inputs.len() ==> (#[trigger] inputs[i]).time() <= (#[trigger] inputs[j]).time()
}

/// The number of bursts among events at the given times: a new burst begins
/// with the first event and with every event that comes a full window or more
/// after the one before it.
pub open spec fn bursts(times: Seq<u64>, window: u64) -> nat
    decreases times.len(),
{
    if times.len() == 0 {
        0
    } else if times.len() == 1 {
        1
    } else if times.last() - times[times.len() - 2] >= window {
        bursts(times.drop_last(), window) + 1
    } else {
        bursts(times.drop_last(), window)
    }
}

/// Every event comes less than a window after the one before it.
pub open spec fn close_together(times: Seq<u64>, window: u64) -> bool {
    forall|i: int| 0 < i < times.len() ==> #[trigger] times[i] - times[i - 1] < window
}

/// Every event comes a full window or more after the one before it.
pub open spec fn spaced_apart(times: Seq<u64>, window: u64) -> bool {
    forall|i: int| 0 < i < times.len() ==> #[trigger] times[i] - times[i - 1] >= window
}

/// What links a watcher's state to the inputs it was given.
spec fn in_step(window: u64, inputs: Seq<Input>) -> bool {
    let state = run(Debouncer::spec_new(window), inputs);
    let times = event_times(inputs);
    &&& state.window == window
    &&& delivered(Debouncer::spec_new(window), inputs) + owed(state) == bursts(times, window)
    &&& state.pending matches Some(last) ==> times.len() > 0 && last == times.last()
    &&& times.len() > 0 ==> inputs.len() > 0 && times.last() <= inputs.last().time()
    &&& state.pending is None && times.len() > 0 ==> inputs.last().time() - times.last()
        >= window
}

proof fn lemma_in_step(window: u64, inputs: Seq<Input>)
    requires
        ordered(inputs),
    ensures
        in_step(window, inputs),
    decreases inputs.len(),
{
    if inputs.len() > 0 {
        let head = inputs.drop_last();
        assert forall|i: int, j: int| 0 <= i <= j < head.len() implies (#[trigger] head[i]).time()
            <= (#[trigger] head[j]).time() by {
            assert(head[i] == inputs[i]);
            assert(head[j] == inputs[j]);
        }
        lemma_in_step(window, head);
        let times = event_times(head);
        if head.len() > 0 {
            assert(head.last() == inputs[inputs.len() - 2]);
            assert(inputs[inputs.len() - 2].time() <= inputs[inputs.len() - 1].time());
        }
        match inputs.last() {
            Input::Event(at) => {
                let now = times.push(at);
                assert(now.drop_last() =~= times);
                if times.len() > 0 {
                    assert(now[now.len() - 2] == times.last());
                }
            },
            Input::Tick(_) => {},
        }
    }
}

/// One signal for each burst: the signals delivered and the one still owed are
/// as many as the bursts among the events.
pub proof fn lemma_one_signal_per_burst(window: u64, inputs: Seq<Input>)
    requires
        ordered(inputs),
    ensures
        delivered(Debouncer::spec_new(window), inputs) + owed(
            run(Debouncer::spec_new(window), inputs),
        ) == bursts(event_times(inputs), window),
{
    lemma_in_step(window, inputs);
}

/// Events that each come less than a window after the one before form one
/// burst.
pub proof fn lemma_close_events_are_one_burst(times: Seq<u64>, window: u64)
    requires
        times.len() > 0,
        close_together(times, window),
    ensures
        bursts(times, window) == 1,
    decreases times.len(),
{
    if times.len() > 1 {
        let head = times.drop_last();
        assert forall|i: int| 0 < i < head.len() implies #[trigger] head[i] - head[i - 1]
            < window by {
            assert(times[i] - times[i - 1] < window);
        }
        lemma_close_events_are_one_burst(head, window);
        assert(times[times.len() - 1] - times[times.len() - 2] < window);
    }
}

/// Events that each come a full window or more after the one before are a
/// burst each.
pub proof fn lemma_spaced_events_are_bursts(times: Seq<u64>, window: u64)
    requires
        spaced_apart(times, window),
    ensures
        bursts(times, window) == times.len(),
    decreases times.len(),
{
    if times.len() > 1 {
        let head = times.drop_last();
        assert forall|i: int| 0 < i < head.len() implies #[trigger] head[i] - head[i - 1]
            >= window by {
            assert(times[i] - times[i - 1] >= window);
        }
        lemma_spaced_events_are_bursts(head, window);
        assert(times[times.len() - 1] - times[times.len() - 2] >= window);
    }
}

/// Coalescing: any number of events, each less than a window after the one
/// before, give exactly one signal once the watcher has nothing pending.
pub proof fn lemma_close_events_give_one_signal(window: u64, inputs: Seq<Input>)
    requires
        ordered(inputs),
        event_times(inputs).len() > 0,
        close_together(event_times(inputs), window),
        run(Debouncer::spec_new(window), inputs).pending is None,
    ensures
        delivered(Debouncer::spec_new(window), inputs) == 1,
{
    lemma_one_signal_per_burst(window, inputs);
    lemma_close_events_are_one_burst(event_times(inputs), window);
}

/// Events that are each a full window or more apart give a signal each, once
/// the watcher has nothing pending.
pub proof fn lemma_spaced_events_give_a_signal_each(window: u64, inputs: Seq<Input>)
    requires
        ordered(inputs),
        spaced_apart(event_times(inputs), window),
        run(Debouncer::spec_new(window), inputs).pending is None,
    ensures
        delivered(Debouncer::spec_new(window), inputs) == event_times(inputs).len(),
{
    lemma_one_signal_per_burst(window, inputs);
    lemma_spaced_events_are_bursts(event_times(inputs), window);
}

/// A watcher with an event pending has nothing pending once it is told a time
/// at which the window has passed.
pub proof fn lemma_tick_after_window_settles(state: Debouncer, now: u64)
    requires
        state.pending matches Some(last) ==> now >= last && now - last >= state.window,
    ensures
        state.spec_after(Input::Tick(now)).pending is None,
{
}

/// Filtering: a change under the output directory, under the cache directory
/// or to a hidden entry does not count, wherever the two directories are.
pub proof fn lemma_filtered_changes_do_not_count(
    path: Seq<Seq<char>>,
    output_dir: Seq<Seq<char>>,
    cache_dir: Seq<Seq<char>>,
)
    ensures
        path_prefix(output_dir, path) ==> !relevant(path, output_dir, cache_dir),
        path_prefix(cache_dir, path) ==> !relevant(path, output_dir, cache_dir),
        hidden(path) ==> !relevant(path, output_dir, cache_dir),
{
}

/// A request to read the tree again is no change: it never counts, whatever
/// its path.
pub proof fn lemma_rescan_does_not_count(
    event: WatchEvent,
    output_dir: Seq<Seq<char>>,
    cache_dir: Seq<Seq<char>>,
)
    requires
        event is Rescan,
    ensures
        !event.spec_counts(output_dir, cache_dir),
{
}

/// Every path at or under a directory begins with that directory: what is
/// written below the output directory, however deep, lies under it.
pub proof fn lemma_below_is_under(dir: Seq<Seq<char>>, rest: Seq<Seq<char>>)
    ensures
        path_prefix(dir, dir + rest),
{
    assert((dir + rest).subrange(0, dir.len() as int) =~= dir);
}

/// A build does not trigger itself: what the default post-build hook writes,
/// the script, the binary, the entry document and every style sheet, lies
/// under the output directory and so does not count for a watcher that
/// leaves out that directory.
pub proof fn lemma_build_does_not_trigger_itself(
    build_path: Seq<Seq<char>>,
    cache_dir: Seq<Seq<char>>,
    input_dir: Seq<Seq<char>>,
    source: Seq<Seq<char>>,
)
    ensures
        !relevant(build_path.push(script_name()), build_path, cache_dir),
        !relevant(build_path.push(binary_name()), build_path, cache_dir),
        !relevant(build_path.push(index_name()), build_path, cache_dir),
        !relevant(css_path(build_path, input_dir, source), build_path, cache_dir),
{
    assert(build_path.push(script_name()) =~= build_path + seq![script_name()]);
    assert(build_path.push(binary_name()) =~= build_path + seq![binary_name()]);
    assert(build_path.push(index_name()) =~= build_path + seq![index_name()]);
    lemma_below_is_under(build_path, seq![script_name()]);
    lemma_below_is_under(build_path, seq![binary_name()]);
    lemma_below_is_under(build_path, seq![index_name()]);
    lemma_below_is_under(
        build_path,
        source.subrange(input_dir.len() as int, source.len() - 1).push(
            name_with_extension(source.last(), "css"@),
        ),
    );
}

} // verus!
