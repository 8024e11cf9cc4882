//! What holds of every worker and of every session, proved from the
//! definitions of the state machine.

use vstd::prelude::*;
use crate::command::{CommandView, SelectionTarget};
use crate::reply::{FailureView, ReplyView};
use crate::session::SessionView;
use crate::worker::{load_reply, HandlingView, Lifecycle, SetupFailureView};

verus! {

/// Whether every command of the sequence is a store.
pub open spec fn only_stores(commands: Seq<CommandView>) -> bool {
    forall|i: int| 0 <= i < commands.len() ==> (#[trigger] commands[i]).stored() is Some
}

/// Whether the sequence holds no `Exit`.
pub open spec fn no_exit(commands: Seq<CommandView>) -> bool {
    forall|i: int| 0 <= i < commands.len() ==> !(#[trigger] commands[i] is Exit)
}

/// Whether no command of the sequence stores to `target`.
pub open spec fn no_store_to(commands: Seq<CommandView>, target: SelectionTarget) -> bool {
    forall|i: int|
        0 <= i < commands.len() ==> match (#[trigger] commands[i]).stored() {
            Some((stored_to, _)) => stored_to != target,
            None => true,
        }
}

/// The commands of the sequence that are owed a reply, in their order.
pub open spec fn requests_in(commands: Seq<CommandView>) -> Seq<CommandView> {
    commands.filter(|command: CommandView| command.expects_reply())
}

/// A worker never goes back: no event takes it to an earlier state of its
/// lifecycle, and once it is terminated it stays so.
pub proof fn lifecycle_only_advances(
    state: Lifecycle,
    command: CommandView,
    failure: Option<Seq<char>>,
)
    ensures
        state.rank() <= state.after_command(command).rank(),
        state.rank() <= state.after_dispatch(failure).rank(),
        state.rank() <= state.after_check().rank(),
        state == Lifecycle::Terminated ==> {
            &&& state.after_command(command) == Lifecycle::Terminated
            &&& state.after_dispatch(failure) == Lifecycle::Terminated
            &&& state.after_check() == Lifecycle::Terminated
        },
{
}

/// A worker that was asked to exit, or that is terminated, asks nothing more
/// of the selections and sends no reply to a command, whatever the command.
pub proof fn stopped_worker_handles_nothing(
    state: Lifecycle,
    command: CommandView,
    supported: bool,
)
    requires
        state != Lifecycle::Running,
    ensures
        state.handling(command, supported) == HandlingView::Idle,
        state.after_command(command) == state,
{
}

/// A running worker answers a load itself or passes it to the selections,
/// never both and never neither: where selection support is absent it sends
/// the failure, where it is present it requests the selection that the
/// command names. What it passed on and could not be issued, it answers with
/// that failure.
pub proof fn load_is_answered_or_requested(command: CommandView, supported: bool)
    requires
        command.expects_reply(),
    ensures
        !supported ==> Lifecycle::Running.handling(command, supported) == HandlingView::Reply(
            ReplyView::Failed(FailureView::Unsupported),
        ),
        supported ==> Lifecycle::Running.handling(command, supported) == HandlingView::Load(
            command.loaded()->0,
        ),
        load_reply(None) is None,
        forall|description: Seq<char>|
            #[trigger] load_reply(Some(description)) == Some(
                ReplyView::Failed(FailureView::Load(description)),
            ),
{
}

/// A failed setup ends the worker without a word, unless it failed at the
/// registration of the connection: that failure is reported.
pub proof fn only_registration_failure_is_reported(failure: SetupFailureView)
    ensures
        Lifecycle::Running.setup_reply(failure) is Some <==> failure is Registration,
        failure matches SetupFailureView::Registration(description)
            ==> Lifecycle::Running.setup_reply(failure) == Some(
            ReplyView::Failed(FailureView::Registration(description)),
        ),
{
}

/// A session that handles two sequences of commands one after the other does
/// what it does on the two joined: how the queue hands the commands out in
/// portions makes no difference.
pub proof fn handling_composes(
    session: SessionView,
    first: Seq<CommandView>,
    second: Seq<CommandView>,
)
    ensures
        session.after_all(first + second) == session.after_all(first).after_all(second),
        session.replies_to(first + second) == session.replies_to(first) + session.after_all(
            first,
        ).replies_to(second),
    decreases second.len(),
{
    if second.len() == 0 {
        assert(first + second == first);
        assert(session.replies_to(first) + Seq::<ReplyView>::empty() == session.replies_to(first));
    } else {
        assert((first + second).drop_last() == first + second.drop_last());
        assert((first + second).last() == second.last());
        handling_composes(session, first, second.drop_last());
        let joined = session.replies_to(first) + session.after_all(first).replies_to(
            second.drop_last(),
        );
        match session.after_all(first + second.drop_last()).reply_to(second.last()) {
            Some(reply) => {
                assert(joined.push(reply) == session.replies_to(first) + session.after_all(
                    first,
                ).replies_to(second.drop_last()).push(reply));
            },
            None => {},
        }
    }
}

/// Handling commands never takes a session back and never terminates it:
/// only the check after a step of the event loop does. Nor does it change
/// whether the connection has selection support.
pub proof fn session_only_advances(session: SessionView, commands: Seq<CommandView>)
    ensures
        session.lifecycle.rank() <= session.after_all(commands).lifecycle.rank(),
        session.after_all(commands).lifecycle == Lifecycle::Terminated <==> session.lifecycle
            == Lifecycle::Terminated,
        session.after_all(commands).supported == session.supported,
    decreases commands.len(),
{
    if commands.len() > 0 {
        session_only_advances(session, commands.drop_last());
    }
}

/// A session whose worker is no longer running gives no reply to any
/// command and stays as it is.
pub proof fn stopped_session_is_silent(session: SessionView, commands: Seq<CommandView>)
    requires
        session.lifecycle != Lifecycle::Running,
    ensures
        session.replies_to(commands) == Seq::<ReplyView>::empty(),
        session.after_all(commands) == session,
    decreases commands.len(),
{
    if commands.len() > 0 {
        stopped_session_is_silent(session, commands.drop_last());
    }
}

/// Store commands get no reply: however many there are, to whichever
/// selection, in whatever state the session is. A step of the event loop that
/// delivers only stores and does not fail sends nothing either.
pub proof fn stores_get_no_reply(session: SessionView, commands: Seq<CommandView>)
    requires
        only_stores(commands),
    ensures
        session.replies_to(commands) == Seq::<ReplyView>::empty(),
        session.step_replies(commands, None) == Seq::<ReplyView>::empty(),
    decreases commands.len(),
{
    if commands.len() > 0 {
        stores_get_no_reply(session, commands.drop_last());
        assert(commands.last() == commands[commands.len() - 1]);
    }
}

/// A command gets a reply exactly if the worker is running and the command is
/// a load, and then it gets one.
pub proof fn reply_exactly_to_loads(session: SessionView, command: CommandView)
    ensures
        session.reply_to(command) is Some <==> session.lifecycle == Lifecycle::Running
            && command.expects_reply(),
{
}

/// While the worker runs, every load gets exactly one reply: a sequence
/// without `Exit` gets as many replies as it holds loads, and the worker
/// still runs after it.
pub proof fn one_reply_per_load(session: SessionView, commands: Seq<CommandView>)
    requires
        session.lifecycle == Lifecycle::Running,
        no_exit(commands),
    ensures
        session.replies_to(commands).len() == requests_in(commands).len(),
        session.after_all(commands).lifecycle == Lifecycle::Running,
    decreases commands.len(),
{
    reveal(Seq::filter);
    if commands.len() > 0 {
        one_reply_per_load(session, commands.drop_last());
        assert(commands.last() == commands[commands.len() - 1]);
    }
}

/// The reply to a load stands where the load stands among the loads: the
/// load at place `at` of a sequence without `Exit` is answered by the reply
/// whose place is the number of loads before it, and that reply is the one
/// the load gets from the session as the commands before it left it.
pub proof fn replies_keep_the_order_of_loads(
    session: SessionView,
    commands: Seq<CommandView>,
    at: int,
)
    requires
        session.lifecycle == Lifecycle::Running,
        no_exit(commands),
        0 <= at < commands.len(),
        commands[at].expects_reply(),
    ensures
        requests_in(commands.take(at)).len() < session.replies_to(commands).len(),
        Some(session.replies_to(commands)[requests_in(commands.take(at)).len() as int])
            == session.after_all(commands.take(at)).reply_to(commands[at]),
{
    let before = commands.take(at);
    let upto = commands.take(at + 1);
    let rest = commands.skip(at + 1);
    assert(upto.drop_last() == before);
    assert(upto.last() == commands[at]);
    assert(upto + rest == commands);
    assert(no_exit(before));
    one_reply_per_load(session, before);
    handling_composes(session, upto, rest);
}

/// Commands that do not store to a selection leave its content alone. In
/// particular a store to one selection never shows in the other.
pub proof fn selections_are_independent(
    session: SessionView,
    commands: Seq<CommandView>,
    target: SelectionTarget,
)
    requires
        no_store_to(commands, target),
    ensures
        session.after_all(commands).selections.content(target) == session.selections.content(
            target,
        ),
    decreases commands.len(),
{
    if commands.len() > 0 {
        selections_are_independent(session, commands.drop_last(), target);
        assert(commands.last() == commands[commands.len() - 1]);
    }
}

/// A load gives the text that was stored last to the selection it names:
/// after a sequence without `Exit` whose last store to `target` stands at
/// `at` and stores `text`, a running worker with selection support answers a
/// load of `target` with `text`.
pub proof fn load_gives_latest_store(
    session: SessionView,
    commands: Seq<CommandView>,
    at: int,
    target: SelectionTarget,
    text: Seq<char>,
    load: CommandView,
)
    requires
        session.lifecycle == Lifecycle::Running,
        session.supported,
        no_exit(commands),
        0 <= at < commands.len(),
        commands[at].stored() == Some((target, text)),
        no_store_to(commands.skip(at + 1), target),
        load.loaded() == Some(target),
    ensures
        session.after_all(commands).reply_to(load) == Some(ReplyView::Text(text)),
{
    let before = commands.take(at);
    let upto = commands.take(at + 1);
    let rest = commands.skip(at + 1);
    assert(upto.drop_last() == before);
    assert(upto.last() == commands[at]);
    assert(upto + rest == commands);
    assert(no_exit(before));
    one_reply_per_load(session, before);
    one_reply_per_load(session, commands);
    session_only_advances(session, before);
    session_only_advances(session, commands);
    handling_composes(session, upto, rest);
    selections_are_independent(session.after_all(upto), rest, target);
}

/// A load of a selection to which nothing was stored cannot be issued: where
/// the session holds nothing for `target` and the sequence stores nothing to
/// it, a running worker with selection support answers a load of `target`
/// with that failure, and goes on running.
pub proof fn load_of_empty_selection_fails(
    session: SessionView,
    commands: Seq<CommandView>,
    target: SelectionTarget,
    load: CommandView,
)
    requires
        session.lifecycle == Lifecycle::Running,
        session.supported,
        session.selections.content(target) is None,
        no_exit(commands),
        no_store_to(commands, target),
        load.loaded() == Some(target),
    ensures
        session.after_all(commands).reply_to(load) == Some(
            ReplyView::Failed(FailureView::Load("selection is empty"@)),
        ),
        session.after_all(commands).after(load) == session.after_all(commands),
        session.after_all(commands).lifecycle == Lifecycle::Running,
{
    one_reply_per_load(session, commands);
    session_only_advances(session, commands);
    selections_are_independent(session, commands, target);
}

/// A load on a connection without selection support fails at once with
/// `Unsupported`, whose message says that the requested selection is not
/// supported. Nothing is asked of the selections, and nothing changes: the
/// worker goes on running.
pub proof fn unsupported_load_fails_at_once(session: SessionView, load: CommandView)
    requires
        session.lifecycle == Lifecycle::Running,
        !session.supported,
        load.expects_reply(),
    ensures
        session.reply_to(load) == Some(ReplyView::Failed(FailureView::Unsupported)),
        FailureView::Unsupported.message() == "requested selection is not supported"@,
        session.lifecycle.handling(load, session.supported) is Reply,
        session.after(load) == session,
{
}

/// `Exit` is final. What was queued before an `Exit` is answered as if no
/// `Exit` followed; whatever was queued behind it is not handled: it gets no
/// reply and changes nothing. The worker is no longer running, and the step
/// of the event loop that delivered the `Exit` ends with the worker
/// terminated, however the step itself ended.
pub proof fn nothing_is_handled_after_exit(
    session: SessionView,
    before: Seq<CommandView>,
    after: Seq<CommandView>,
    failure: Option<Seq<char>>,
)
    ensures
        session.replies_to(before.push(CommandView::Exit) + after) == session.replies_to(before),
        session.after_all(before.push(CommandView::Exit) + after) == session.after_all(
            before.push(CommandView::Exit),
        ),
        session.after_all(before.push(CommandView::Exit)).lifecycle != Lifecycle::Running,
        session.after_step(before.push(CommandView::Exit) + after, failure).lifecycle
            == Lifecycle::Terminated,
{
    let upto = before.push(CommandView::Exit);
    assert(upto.drop_last() == before);
    assert(upto.last() == CommandView::Exit);
    handling_composes(session, upto, after);
    stopped_session_is_silent(session.after_all(upto), after);
    assert(session.replies_to(upto) + Seq::<ReplyView>::empty() == session.replies_to(upto));
}

/// A failed step of the event loop is reported exactly once, behind the
/// replies to the commands that the step still delivered, and terminates the
/// worker.
pub proof fn failed_step_is_reported_once(
    session: SessionView,
    commands: Seq<CommandView>,
    description: Seq<char>,
)
    requires
        session.lifecycle != Lifecycle::Terminated,
    ensures
        session.step_replies(commands, Some(description)) == session.replies_to(commands).push(
            ReplyView::Failed(FailureView::Dispatch(description)),
        ),
        session.after_step(commands, Some(description)).lifecycle == Lifecycle::Terminated,
{
    session_only_advances(session, commands);
}

/// A terminated session is deaf: a step of the event loop, whatever it
/// delivers and however it ends, sends nothing and changes nothing.
pub proof fn terminated_session_ignores_steps(
    session: SessionView,
    commands: Seq<CommandView>,
    failure: Option<Seq<char>>,
)
    requires
        session.lifecycle == Lifecycle::Terminated,
    ensures
        session.step_replies(commands, failure) == Seq::<ReplyView>::empty(),
        session.after_step(commands, failure) == session,
{
    stopped_session_is_silent(session, commands);
}

} // verus!
