//! What holds of every session, proved from the transition function.

use crate::command::command_of;
use crate::listing::{entry_line, listing, listing_upto, shown_count};
use crate::protocol::{
    accepts, closing, initial, login_to_post_hint, login_to_reply_hint, prompting, sentinel, step,
    store_request, well_formed,
};
use crate::session::{HandshakePolicy, Input, NextView, ReplyView, SessionView};
use crate::text::{
    has_substring, is_blank, is_space, joined, lemma_trimmed_empty_iff_blank, occurs_at, trimmed,
    without_line_end,
};
use vstd::prelude::*;

verus! {

/// The reply asks the backend to store a thread or a comment.
pub open spec fn asks_to_store(reply: ReplyView) -> bool {
    reply.next matches NextView::Call(request) && !(request is ListThreads)
}

/// The input is a read of the sentinel line: its text, without the line end, is exactly the
/// sentinel.
pub open spec fn is_sentinel_line(input: Input) -> bool {
    input matches Input::Text(payload) && without_line_end(payload) == sentinel()
}

/// The state of a session after it has taken `inputs` one after the other.
pub open spec fn run(s: SessionView, inputs: Seq<Input>) -> SessionView
    decreases inputs.len(),
{
    if inputs.len() == 0 {
        s
    } else {
        step(run(s, inputs.drop_last()), inputs.last()).0
    }
}

/// The reply to the input at position `i` of `inputs`.
pub open spec fn reply_at(s: SessionView, inputs: Seq<Input>, i: int) -> ReplyView {
    step(run(s, inputs.take(i)), inputs[i]).1
}

/// The inputs of a schedule that go to the first session (`first`) or to the second, in order.
pub open spec fn inputs_for(schedule: Seq<(bool, Input)>, first: bool) -> Seq<Input>
    decreases schedule.len(),
{
    if schedule.len() == 0 {
        Seq::empty()
    } else if schedule.last().0 == first {
        inputs_for(schedule.drop_last(), first).push(schedule.last().1)
    } else {
        inputs_for(schedule.drop_last(), first)
    }
}

/// The states of two sessions after a schedule: each entry is one input, for the first session
/// where its flag is set and for the second where it is not.
pub open spec fn run_pair(a: SessionView, b: SessionView, schedule: Seq<(bool, Input)>) -> (
    SessionView,
    SessionView,
)
    decreases schedule.len(),
{
    if schedule.len() == 0 {
        (a, b)
    } else {
        let before = run_pair(a, b, schedule.drop_last());
        if schedule.last().0 {
            (step(before.0, schedule.last().1).0, before.1)
        } else {
            (before.0, step(before.1, schedule.last().1).0)
        }
    }
}

/// A fresh session is well formed, and every transition keeps a session well formed.
pub proof fn law_well_formed_kept(policy: HandshakePolicy, s: SessionView, input: Input)
    ensures
        well_formed(initial(policy)),
        well_formed(s) ==> well_formed(step(s, input).0),
{
}

/// The end is final: a terminated session answers every input by closing, and stays terminated.
pub proof fn law_terminated_stays(s: SessionView, input: Input)
    requires
        s.phase is Terminated,
    ensures
        step(s, input) == closing(s),
        step(s, input).0.phase is Terminated,
        step(s, input).1.next is Close,
{
}

/// Each reply fits the phase that the session is left in: it asks to read exactly where the
/// session awaits a read, it asks for the recent threads exactly where the session awaits
/// them, it asks to store exactly where the session awaits the outcome, and it closes exactly
/// where the session has ended. So the session asks for one thing at a time, and takes the one
/// result of every call before anything else.
pub proof fn law_reply_fits_phase(s: SessionView, input: Input)
    ensures
        ({
            let after = step(s, input);
            &&& after.1.next is Close <==> after.0.phase is Terminated
            &&& after.1.next is Read <==> !(after.0.phase is Terminated
                || after.0.phase is AwaitingThreads || after.0.phase is AwaitingOutcome)
            &&& asks_to_store(after.1) <==> after.0.phase is AwaitingOutcome
            &&& (after.1.next is Call && !asks_to_store(after.1)) <==> after.0.phase
                is AwaitingThreads
            &&& !(after.0.phase is Greeting)
        }),
{
}

/// Without a bound user no transition asks the backend to store anything, whatever the phase
/// and the input.
pub proof fn law_store_needs_user(s: SessionView, input: Input)
    requires
        s.current_user is None,
    ensures
        !asks_to_store(step(s, input).1),
{
}

/// Without a bound user `post` and `reply` are answered with the login hint, and the session
/// goes on awaiting a command.
pub proof fn law_login_hint(s: SessionView, payload: Seq<char>)
    requires
        s.phase is AwaitingCommand,
        s.current_user is None,
    ensures
        command_of(trimmed(payload)) is Post ==> step(s, Input::Text(payload)) == prompting(
            s,
            login_to_post_hint(),
        ),
        command_of(trimmed(payload)) is Reply ==> step(s, Input::Text(payload)) == prompting(
            s,
            login_to_reply_hint(),
        ),
{
}

/// Capture mode ends on the sentinel line and on no other line: any other line, the empty one
/// too, is appended as it came, less its line end, and on the sentinel the lines so far, joined
/// by line feeds, go to the backend in the name of the bound user.
pub proof fn law_capture_line(s: SessionView, payload: Seq<char>)
    requires
        s.phase is Capture,
    ensures
        ({
            let line = without_line_end(payload);
            let after = step(s, Input::Text(payload));
            &&& after.0.phase is Capture <==> line != sentinel()
            &&& line != sentinel() ==> {
                &&& after.0.phase == s.phase
                &&& after.0.pending == s.pending.push(line)
                &&& after.1.next is Read
            }
            &&& line == sentinel() && s.current_user is Some ==> after.1.next == NextView::Call(
                store_request(s.phase->target, joined(s.pending, "\n"@), s.current_user->0),
            )
        }),
{
}

/// The sentinel line is a dot with nothing around it but its line end: a payload is one
/// exactly when it is a dot, a dot and a line feed, or a dot, a carriage return and a line
/// feed.
pub proof fn law_sentinel_lines(payload: Seq<char>)
    ensures
        is_sentinel_line(Input::Text(payload)) <==> (payload == seq!['.'] || payload == seq![
            '.',
            '\n',
        ] || payload == seq!['.', '\r', '\n']),
{
    reveal_strlit(".");
    let line = without_line_end(payload);
    assert("."@ =~= seq!['.']);
    if payload == seq!['.'] || payload == seq!['.', '\n'] || payload == seq!['.', '\r', '\n'] {
        assert(line =~= seq!['.']);
    }
    if line == sentinel() {
        assert(line.len() == 1 && line[0] == '.');
        if payload.len() > 0 && payload.last() == '\n' {
            let rest = payload.drop_last();
            if rest.len() > 0 && rest.last() == '\r' {
                assert(payload =~= seq!['.', '\r', '\n']);
            } else {
                assert(payload =~= seq!['.', '\n']);
            }
        } else {
            assert(payload =~= seq!['.']);
        }
    }
}

/// A captured line comes back whole: joined with its line end it is the payload again, so
/// nothing but the line end was taken off.
pub proof fn law_captured_verbatim(payload: Seq<char>)
    ensures
        ({
            let line = without_line_end(payload);
            ||| payload == line
            ||| payload == line + seq!['\n']
            ||| payload == line + seq!['\r', '\n']
        }),
{
    let line = without_line_end(payload);
    if payload.len() > 0 && payload.last() == '\n' {
        let rest = payload.drop_last();
        if rest.len() > 0 && rest.last() == '\r' {
            assert(payload =~= line + seq!['\r', '\n']);
        } else {
            assert(payload =~= line + seq!['\n']);
        }
    }
}

/// As long as no sentinel line comes in, a session in capture mode makes no backend call, and
/// it is still capturing unless it has ended.
pub proof fn law_no_call_without_sentinel(s: SessionView, inputs: Seq<Input>)
    requires
        s.phase is Capture,
        forall|i: int| 0 <= i < inputs.len() ==> !is_sentinel_line(#[trigger] inputs[i]),
    ensures
        run(s, inputs).phase is Capture || run(s, inputs).phase is Terminated,
        forall|i: int| 0 <= i < inputs.len() ==> !(#[trigger] reply_at(s, inputs, i).next is Call),
    decreases inputs.len(),
{
    if inputs.len() > 0 {
        let front = inputs.drop_last();
        law_no_call_without_sentinel(s, front);
        assert forall|i: int| 0 <= i < inputs.len() implies !(#[trigger] reply_at(
            s,
            inputs,
            i,
        ).next is Call) by {
            if i < front.len() {
                assert(inputs.take(i) =~= front.take(i));
                assert(reply_at(s, inputs, i) == reply_at(s, front, i));
            } else {
                assert(inputs.take(i) =~= front);
                assert(!is_sentinel_line(inputs[i]));
            }
        }
        assert(!is_sentinel_line(inputs.last()));
    }
}

/// Two sessions do not see each other: after any interleaving of their inputs each stands
/// where it would stand had it taken its own inputs alone.
pub proof fn law_sessions_isolated(a: SessionView, b: SessionView, schedule: Seq<(bool, Input)>)
    ensures
        run_pair(a, b, schedule).0 == run(a, inputs_for(schedule, true)),
        run_pair(a, b, schedule).1 == run(b, inputs_for(schedule, false)),
    decreases schedule.len(),
{
    if schedule.len() > 0 {
        let front = schedule.drop_last();
        law_sessions_isolated(a, b, front);
        let mine = inputs_for(front, schedule.last().0);
        assert(mine.push(schedule.last().1).drop_last() =~= mine);
    }
}

/// A payload that holds `arch` or `linux` is not blank, so the rule that lets any text in lets
/// in exactly the payloads that are not blank, and whatever the keyword rule lets in.
pub proof fn law_handshake_rules(payload: Seq<char>)
    ensures
        accepts(HandshakePolicy::AnyText, payload) <==> !is_blank(payload),
        accepts(HandshakePolicy::Keyword, payload) ==> accepts(HandshakePolicy::AnyText, payload),
{
    lemma_trimmed_empty_iff_blank(payload);
    reveal_strlit("arch");
    reveal_strlit("linux");
    if has_substring(payload, "arch"@) {
        let i = choose|i: int| occurs_at(payload, "arch"@, i);
        assert(payload.subrange(i, i + 4)[0] == 'a');
        assert(!is_space(payload[i]));
    }
    if has_substring(payload, "linux"@) {
        let i = choose|i: int| occurs_at(payload, "linux"@, i);
        assert(payload.subrange(i, i + 5)[0] == 'l');
        assert(!is_space(payload[i]));
    }
}

/// The first `n` lines of a listing depend on the first `n` titles alone.
pub proof fn lemma_listing_upto_prefix(
    titles: Seq<Seq<char>>,
    others: Seq<Seq<char>>,
    n: nat,
    eol: Seq<char>,
)
    requires
        n <= titles.len(),
        n <= others.len(),
        forall|i: int| 0 <= i < n ==> titles[i] == others[i],
    ensures
        listing_upto(titles, n, eol) == listing_upto(others, n, eol),
    decreases n,
{
    if n > 0 {
        lemma_listing_upto_prefix(titles, others, (n - 1) as nat, eol);
    }
}

/// A listing shows the threads in the order given, numbered from one without a gap, and no
/// more of them than the limit: it has one line for each of the first threads up to the limit,
/// the line at position `i` carries the number `i + 1` and the title at position `i`, and
/// what comes after the limit does not show.
pub proof fn law_listing(titles: Seq<Seq<char>>, limit: nat, eol: Seq<char>)
    ensures
        shown_count(titles.len(), limit) <= limit,
        shown_count(titles.len(), limit) <= titles.len(),
        titles.len() <= limit ==> shown_count(titles.len(), limit) == titles.len(),
        listing(titles, limit, eol) == listing_upto(
            titles,
            shown_count(titles.len(), limit),
            eol,
        ),
        forall|n: nat|
            0 < n <= shown_count(titles.len(), limit) ==> #[trigger] listing_upto(titles, n, eol)
                == listing_upto(titles, (n - 1) as nat, eol) + entry_line(
                (n - 1) as nat,
                titles[n - 1],
                eol,
            ),
        listing_upto(titles, 0, eol) == Seq::<char>::empty(),
        listing(titles, limit, eol) == listing(
            titles.take(shown_count(titles.len(), limit) as int),
            limit,
            eol,
        ),
{
    let n = shown_count(titles.len(), limit);
    lemma_listing_upto_prefix(titles, titles.take(n as int), n, eol);
}

} // verus!
