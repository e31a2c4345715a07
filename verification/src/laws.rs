//! What holds of every run of the state machine.

use vstd::prelude::*;
use crate::machine::{Action, Input, Machine};
use crate::state::SpeechState;
use crate::text::contains_word;
use crate::timer::TimerError;

verus! {

/// No transcript among `inputs` contains `wake_word`.
pub open spec fn without_wake_word(inputs: Seq<Input>, wake_word: Seq<char>) -> bool {
    forall|i: int|
        0 <= i < inputs.len() ==> match #[trigger] inputs[i] {
            Input::Snippet(text) => !contains_word(text, wake_word),
            _ => true,
        }
}

/// No "elapsed" signal is among `inputs`.
pub open spec fn quiet(inputs: Seq<Input>) -> bool {
    forall|i: int| 0 <= i < inputs.len() ==> #[trigger] inputs[i] != Input::Signal(true)
}

/// No transcript is among `inputs`.
pub open spec fn wordless(inputs: Seq<Input>) -> bool {
    forall|i: int| 0 <= i < inputs.len() ==> !(#[trigger] inputs[i] is Snippet)
}

/// Some transcript among `inputs` is not empty.
pub open spec fn speaks(inputs: Seq<Input>) -> bool {
    exists|i: int|
        0 <= i < inputs.len() && match #[trigger] inputs[i] {
            Input::Snippet(text) => text.len() > 0,
            _ => false,
        }
}

/// Every transcript among `inputs` is `text`.
pub open spec fn all_say(inputs: Seq<Input>, text: Seq<char>) -> bool {
    forall|i: int|
        0 <= i < inputs.len() ==> match #[trigger] inputs[i] {
            Input::Snippet(t) => t == text,
            _ => true,
        }
}

/// 1 while a cycle is under way, 0 while the machine listens.
pub open spec fn under_way(m: Machine) -> nat {
    if m.state == SpeechState::Listening {
        0
    } else {
        1
    }
}

/// Every cycle begins well-formed.
pub proof fn lemma_fresh_is_wf(wake_word: Seq<char>, interval_ms: u64)
    ensures
        Machine::fresh(wake_word, interval_ms).wf(),
{
}

/// A step leads from one well-formed machine to another, and never touches the
/// configuration.
pub proof fn lemma_step_preserves_wf(m: Machine, input: Input)
    requires
        m.wf(),
    ensures
        m.step(input).next.wf(),
        m.step(input).next.wake_word == m.wake_word,
        m.step(input).next.timer.interval_ms == m.timer.interval_ms,
{
}

/// A run leads from one well-formed machine to another, and never touches the
/// configuration.
pub proof fn lemma_run_preserves_wf(m: Machine, inputs: Seq<Input>)
    requires
        m.wf(),
    ensures
        m.run(inputs).wf(),
        m.run(inputs).wake_word == m.wake_word,
        m.run(inputs).timer.interval_ms == m.timer.interval_ms,
    decreases inputs.len(),
{
    if inputs.len() > 0 {
        lemma_run_preserves_wf(m, inputs.drop_last());
        lemma_step_preserves_wf(m.run(inputs.drop_last()), inputs.last());
    }
}

/// A run of two parts is the run of the second part from where the first one
/// ended, and each count is the sum of the counts of the parts.
pub proof fn lemma_run_concat(m: Machine, first: Seq<Input>, second: Seq<Input>)
    ensures
        m.run(first + second) == m.run(first).run(second),
        m.deliveries(first + second) == m.deliveries(first) + m.run(first).deliveries(second),
        m.ready_entries(first + second) == m.ready_entries(first) + m.run(first).ready_entries(
            second,
        ),
        m.timer_starts(first + second) == m.timer_starts(first) + m.run(first).timer_starts(
            second,
        ),
    decreases second.len(),
{
    if second.len() == 0 {
        assert(first + second =~= first);
    } else {
        assert((first + second).drop_last() =~= first + second.drop_last());
        assert((first + second).last() == second.last());
        lemma_run_concat(m, first, second.drop_last());
    }
}

/// A run of one observation is one step.
pub proof fn lemma_run_single(m: Machine, input: Input)
    ensures
        m.run(seq![input]) == m.step(input).next,
        m.last_outcome(seq![input]) == m.step(input).outcome,
        m.deliveries(seq![input]) == if m.step(input).outcome == Ok::<Action, TimerError>(
            Action::Finalize,
        ) {
            1nat
        } else {
            0nat
        },
{
    let s = seq![input];
    assert(s.drop_last() =~= Seq::<Input>::empty());
    assert(s.last() == input);
    assert(m.run(s.drop_last()) == m);
    assert(m.deliveries(s.drop_last()) == 0);
}

/// No observation takes a well-formed machine into a timer misuse.
pub proof fn lemma_no_misuse(m: Machine, input: Input)
    requires
        m.wf(),
    ensures
        m.step(input).outcome is Ok,
{
}

/// No observation of a run from a well-formed machine runs into a timer misuse.
pub proof fn lemma_run_without_misuse(m: Machine, inputs: Seq<Input>)
    requires
        m.wf(),
        inputs.len() > 0,
    ensures
        m.last_outcome(inputs) is Ok,
{
    lemma_run_preserves_wf(m, inputs.drop_last());
}

/// A signal source is awaited exactly while the timer is alive, and that is only
/// in `Ready`. While listening and once the cycle is complete, the way to the next
/// frame is free.
pub proof fn lemma_signal_awaited_only_while_timer_alive(m: Machine)
    requires
        m.wf(),
    ensures
        m.watching == m.timer.alive,
        m.watching ==> m.state == SpeechState::Ready,
{
}

/// A decode failure interrupts nothing, in any phase: the machine stays as it is
/// and nothing is asked for. Whatever the signal source delivers next is taken
/// without a misuse, and where the machine awaited no signal before the failure it
/// awaits none after it.
pub proof fn lemma_decode_failure_interrupts_nothing(m: Machine, elapsed: bool)
    requires
        m.wf(),
    ensures
        m.step(Input::DecodeFailed).next == m,
        m.step(Input::DecodeFailed).outcome == Ok::<Action, TimerError>(Action::Idle),
        m.step(Input::DecodeFailed).next.step(Input::Signal(elapsed)).outcome is Ok,
        m.state != SpeechState::Ready ==> !m.step(Input::DecodeFailed).next.watching,
{
}

/// Every action fits the timer it is meant for: a start is asked for only while
/// the timer is idle, a stop or a restart only while it is alive, and a hand-over
/// only when it has been stopped. After a start or a restart a signal source is
/// retained; after a stop and after a hand-over none is.
pub proof fn lemma_actions_fit_the_timer(m: Machine, input: Input)
    requires
        m.wf(),
    ensures
        match m.step(input).outcome {
            Ok(Action::Idle) => m.step(input).next.timer == m.timer && m.step(input).next.watching
                == m.watching,
            Ok(Action::StartTimer) => !m.timer.alive && m.step(input).next.timer
                == m.timer.start() && m.step(input).next.watching,
            Ok(Action::RestartTimer) => m.timer.alive && m.step(input).next.timer
                == m.timer.stop().start() && m.step(input).next.watching,
            Ok(Action::StopTimer) => m.timer.alive && m.step(input).next.timer == m.timer.stop()
                && !m.step(input).next.watching,
            Ok(Action::Finalize) => !m.timer.alive && m.step(input).next.timer == m.timer
                && !m.step(input).next.watching,
            Err(_) => false,
        },
{
}

/// While no transcript contains the wake word, a listening machine stays exactly
/// as it is: it keeps listening, hands nothing over and starts no timer.
pub proof fn lemma_listening_without_wake_word(m: Machine, inputs: Seq<Input>)
    requires
        m.wf(),
        m.state == SpeechState::Listening,
        without_wake_word(inputs, m.wake_word),
    ensures
        m.run(inputs) == m,
        m.run(inputs).state == SpeechState::Listening,
        m.deliveries(inputs) == 0,
        m.ready_entries(inputs) == 0,
        m.timer_starts(inputs) == 0,
    decreases inputs.len(),
{
    if inputs.len() > 0 {
        let init = inputs.drop_last();
        assert forall|i: int| 0 <= i < init.len() implies match #[trigger] init[i] {
            Input::Snippet(text) => !contains_word(text, m.wake_word),
            _ => true,
        } by {
            assert(init[i] == inputs[i]);
        }
        lemma_listening_without_wake_word(m, init);
        assert(inputs.last() == inputs[inputs.len() - 1]);
    }
}

/// The first transcript that contains the wake word takes a listening machine to
/// `Ready`, and changes nothing else.
pub proof fn lemma_first_wake_word_enters_ready(
    m: Machine,
    before: Seq<Input>,
    text: Seq<char>,
)
    requires
        m.wf(),
        m.state == SpeechState::Listening,
        without_wake_word(before, m.wake_word),
        contains_word(text, m.wake_word),
    ensures
        m.run(before).state == SpeechState::Listening,
        m.run(before.push(Input::Snippet(text))) == (Machine { state: SpeechState::Ready, ..m }),
        m.ready_entries(before.push(Input::Snippet(text))) == 1,
{
    let all = before.push(Input::Snippet(text));
    lemma_listening_without_wake_word(m, before);
    assert(all.drop_last() =~= before);
    assert(all.last() == Input::Snippet(text));
}

/// A machine enters `Ready` only from `Listening`, and only on a transcript that
/// contains the wake word.
pub proof fn lemma_ready_entered_by_wake_word(m: Machine, input: Input)
    requires
        m.wf(),
        m.state != SpeechState::Ready,
        m.step(input).next.state == SpeechState::Ready,
    ensures
        m.state == SpeechState::Listening,
        input is Snippet,
        contains_word(input->Snippet_0, m.wake_word),
{
}

/// Cycles are entered and left one at a time: over any run, the entries into
/// `Ready` and the hand-overs differ by the cycles that were under way at its two
/// ends. A run that begins and ends listening holds as many entries as hand-overs;
/// one that begins listening and ends in mid-cycle holds exactly one entry more.
pub proof fn lemma_one_entry_per_cycle(m: Machine, inputs: Seq<Input>)
    requires
        m.wf(),
    ensures
        under_way(m) + m.ready_entries(inputs) == m.deliveries(inputs) + under_way(
            m.run(inputs),
        ),
    decreases inputs.len(),
{
    if inputs.len() > 0 {
        lemma_one_entry_per_cycle(m, inputs.drop_last());
        lemma_run_preserves_wf(m, inputs.drop_last());
    }
}

/// In `Ready`, the same transcript twice in a row leaves the timer alone: the
/// second one asks for nothing and changes nothing.
pub proof fn lemma_repeated_snippet_keeps_timer(m: Machine, text: Seq<char>)
    requires
        m.state == SpeechState::Ready,
    ensures
        ({
            let once = m.on_snippet(text).next;
            &&& once.on_snippet(text).next == once
            &&& once.on_snippet(text).outcome == Ok::<Action, TimerError>(Action::Idle)
        }),
{
}

/// While no "elapsed" signal arrives, a machine in `Ready` stays in `Ready` and
/// hands nothing over. Its timer stays alive once it is, and is alive as soon as a
/// transcript that is not empty was among the observations.
pub proof fn lemma_ready_while_quiet(m: Machine, inputs: Seq<Input>)
    requires
        m.wf(),
        m.state == SpeechState::Ready,
        quiet(inputs),
    ensures
        m.run(inputs).state == SpeechState::Ready,
        m.run(inputs).wf(),
        m.deliveries(inputs) == 0,
        m.timer.alive || speaks(inputs) ==> m.run(inputs).timer.alive,
    decreases inputs.len(),
{
    if inputs.len() > 0 {
        let init = inputs.drop_last();
        let last = inputs.last();
        assert forall|i: int| 0 <= i < init.len() implies #[trigger] init[i] != Input::Signal(
            true,
        ) by {
            assert(init[i] == inputs[i]);
        }
        lemma_ready_while_quiet(m, init);
        assert(last == inputs[inputs.len() - 1]);
        if speaks(inputs) && !m.timer.alive {
            let i = choose|i: int|
                0 <= i < inputs.len() && match #[trigger] inputs[i] {
                    Input::Snippet(text) => text.len() > 0,
                    _ => false,
                };
            if i < init.len() {
                assert(init[i] == inputs[i]);
                assert(speaks(init));
            }
        }
    }
}

/// While every transcript is the same and no "elapsed" signal arrives, a machine
/// in `Ready` starts its timer at most once, and not at all where that transcript
/// is the one it took note of last.
pub proof fn lemma_same_snippet_starts_timer_once(
    m: Machine,
    inputs: Seq<Input>,
    text: Seq<char>,
)
    requires
        m.state == SpeechState::Ready,
        quiet(inputs),
        all_say(inputs, text),
    ensures
        m.timer_starts(inputs) <= 1,
        m.previous == text ==> m.timer_starts(inputs) == 0 && m.run(inputs) == m,
        m.timer_starts(inputs) == 1 ==> m.run(inputs).previous == text,
        m.run(inputs).state == SpeechState::Ready,
        m.run(inputs).previous == m.previous || m.run(inputs).previous == text,
        m.run(inputs).previous == m.previous && m.previous != text ==> m.timer_starts(inputs)
            == 0,
    decreases inputs.len(),
{
    if inputs.len() > 0 {
        let init = inputs.drop_last();
        assert forall|i: int| 0 <= i < init.len() implies #[trigger] init[i] != Input::Signal(
            true,
        ) by {
            assert(init[i] == inputs[i]);
        }
        assert forall|i: int| 0 <= i < init.len() implies match #[trigger] init[i] {
            Input::Snippet(t) => t == text,
            _ => true,
        } by {
            assert(init[i] == inputs[i]);
        }
        lemma_same_snippet_starts_timer_once(m, init, text);
        assert(inputs.last() == inputs[inputs.len() - 1]);
    }
}

/// A complete cycle waits for the next transcript: decode failures and signals
/// of either kind leave it as it is.
pub proof fn lemma_complete_while_wordless(m: Machine, inputs: Seq<Input>)
    requires
        m.wf(),
        m.state == SpeechState::Complete,
        wordless(inputs),
    ensures
        m.run(inputs) == m,
        m.deliveries(inputs) == 0,
    decreases inputs.len(),
{
    if inputs.len() > 0 {
        let init = inputs.drop_last();
        assert forall|i: int| 0 <= i < init.len() implies !(#[trigger] init[i] is Snippet) by {
            assert(init[i] == inputs[i]);
        }
        lemma_complete_while_wordless(m, init);
        assert(inputs.last() == inputs[inputs.len() - 1]);
    }
}

/// A full cycle ends in exactly one hand-over. From the beginning of a cycle: a
/// transcript with the wake word; then speech, in which at least one transcript is
/// not empty, with no "elapsed" signal in between; then the "elapsed" signal; then,
/// after any decode failures and signals, the next transcript. That last
/// observation asks for the hand-over, it is the only one that does, and the
/// machine is back at the beginning of a cycle.
pub proof fn lemma_full_cycle_delivers_once(
    wake_word: Seq<char>,
    interval_ms: u64,
    opening: Seq<char>,
    speech: Seq<Input>,
    aftermath: Seq<Input>,
    closing: Seq<char>,
)
    requires
        contains_word(opening, wake_word),
        quiet(speech),
        speaks(speech),
        wordless(aftermath),
    ensures
        ({
            let m = Machine::fresh(wake_word, interval_ms);
            let inputs = seq![Input::Snippet(opening)] + speech + seq![Input::Signal(true)]
                + aftermath + seq![Input::Snippet(closing)];
            &&& m.run(inputs) == m
            &&& m.run(inputs).state == SpeechState::Listening
            &&& m.deliveries(inputs) == 1
            &&& m.ready_entries(inputs) == 1
            &&& m.last_outcome(inputs) == Ok::<Action, TimerError>(Action::Finalize)
        }),
{
    let m = Machine::fresh(wake_word, interval_ms);
    let s1 = seq![Input::Snippet(opening)];
    let s3 = seq![Input::Signal(true)];
    let s5 = seq![Input::Snippet(closing)];
    let inputs = s1 + speech + s3 + aftermath + s5;

    lemma_run_single(m, Input::Snippet(opening));
    let m1 = m.run(s1);
    assert(m1 == Machine { state: SpeechState::Ready, ..m });

    lemma_ready_while_quiet(m1, speech);
    lemma_run_concat(m, s1, speech);
    let m2 = m.run(s1 + speech);
    assert(m2.state == SpeechState::Ready && m2.timer.alive && m2.wf());
    lemma_run_preserves_wf(m, s1 + speech);

    lemma_run_single(m2, Input::Signal(true));
    lemma_run_concat(m, s1 + speech, s3);
    let m3 = m.run(s1 + speech + s3);
    assert(m3.state == SpeechState::Complete);
    lemma_run_preserves_wf(m, s1 + speech + s3);

    lemma_complete_while_wordless(m3, aftermath);
    lemma_run_concat(m, s1 + speech + s3, aftermath);
    let m4 = m.run(s1 + speech + s3 + aftermath);
    assert(m4 == m3);

    lemma_run_single(m4, Input::Snippet(closing));
    lemma_run_concat(m, s1 + speech + s3 + aftermath, s5);
    assert(inputs.drop_last() =~= s1 + speech + s3 + aftermath);
    assert(inputs.last() == Input::Snippet(closing));
    lemma_one_entry_per_cycle(m, inputs);
}

} // verus!
