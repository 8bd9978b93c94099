//! What holds of a debot whatever it hears.

use crate::debot::action::{AcType, DActionView};
use crate::debot::context;
use crate::debot::context::{
    DContextView, STATE_CURRENT, STATE_EXIT, STATE_PREV, STATE_ZERO,
};
use crate::debot::dialogue::{ReplyView, RequestView, StopView, Talk};
use crate::debot::exchange;
use crate::debot::script;
use crate::debot::script::DebotView;
use crate::debot::turns;
use crate::json::JsonView;
use crate::text;
use vstd::prelude::*;

verus! {

/// Whether two debots have the same address, client and contexts.
pub open spec fn same_debot(a: DebotView, b: DebotView) -> bool {
    &&& a.addr == b.addr
    &&& a.server == b.server
    &&& a.state_machine == b.state_machine
}

/// Whether two debots have the same address, client and contexts, are in the same context, and
/// came from the same one.
pub open spec fn same_place(a: DebotView, b: DebotView) -> bool {
    &&& same_debot(a, b)
    &&& a.curr_state == b.curr_state
    &&& a.prev_state == b.prev_state
}

/// Taking over options changes only the interface of the debot and what it works on.
pub proof fn options_change_interfaces_only(debot: DebotView, talk: Talk)
    ensures
        ({
            let after = script::update_options(debot, talk).0;
            after == DebotView {
                abi: after.abi,
                target_abi: after.target_abi,
                target_addr: after.target_addr,
                ..debot
            }
        }),
{
}

/// Without one of the option bits nothing is taken over.
pub proof fn no_options_no_change(debot: DebotView, talk: Talk, options: u8, params: JsonView)
    requires
        options & 7 == 0,
    ensures
        script::apply_options(debot, talk, options, params) == (
            debot,
            talk,
            Ok::<(), StopView>(()),
        ),
{
    assert(options & 7 == 0 ==> options & 1 == 0 && options & 2 == 0 && options & 4 == 0)
        by (bit_vector);
}

/// Where taking over options fails with a text, the debot is as it was.
pub proof fn failed_options_change_nothing(debot: DebotView, talk: Talk)
    requires
        script::update_options(debot, talk).2 matches Err(StopView::Failed(_)),
    ensures
        script::update_options(debot, talk).0 == debot,
{
}

/// Whether two debots have the same interface, and work on the same contract.
pub open spec fn same_interfaces(a: DebotView, b: DebotView) -> bool {
    &&& a.abi == b.abi
    &&& a.target_abi == b.target_abi
    &&& a.target_addr == b.target_addr
}

proof fn run_action_stays(debot: DebotView, talk: Talk, act: DActionView)
    ensures
        same_place(debot, script::run_action(debot, talk, act).0),
        same_interfaces(debot, script::run_action(debot, talk, act).0),
{
}

proof fn run_method_stays(debot: DebotView, talk: Talk, act: DActionView)
    ensures
        same_place(debot, script::run_method(debot, talk, act).0),
{
}

proof fn send_msg_stays(debot: DebotView, talk: Talk, act: DActionView)
    ensures
        same_place(debot, script::send_msg(debot, talk, act).0),
        same_interfaces(debot, script::send_msg(debot, talk, act).0),
{
}

proof fn invoke_stays(debot: DebotView, talk: Talk, act: DActionView)
    ensures
        same_place(debot, script::invoke(debot, talk, act).0),
        same_interfaces(debot, script::invoke(debot, talk, act).0),
{
}

proof fn print_stays(debot: DebotView, talk: Talk, act: DActionView)
    ensures
        same_place(debot, script::print(debot, talk, act).0),
        same_interfaces(debot, script::print(debot, talk, act).0),
{
}

proof fn call_engine_stays(debot: DebotView, talk: Talk, act: DActionView)
    ensures
        same_place(debot, script::call_engine(debot, talk, act).0),
        same_interfaces(debot, script::call_engine(debot, talk, act).0),
{
}

/// Performing an action does not take the debot to another context: that is left to the switch
/// that comes after.
pub proof fn action_stays_in_place(debot: DebotView, talk: Talk, act: DActionView)
    ensures
        same_place(debot, script::handle_action(debot, talk, act).0),
{
    match act.action_type {
        AcType::RunAction => run_action_stays(debot, talk, act),
        AcType::RunMethod => run_method_stays(debot, talk, act),
        AcType::SendMsg => send_msg_stays(debot, talk, act),
        AcType::Invoke => invoke_stays(debot, talk, act),
        AcType::Print => print_stays(debot, talk, act),
        AcType::CallEngine => call_engine_stays(debot, talk, act),
        _ => {},
    }
}

/// Only an action that runs a get-function of the target can change the interface of the debot or
/// what it works on.
pub proof fn only_run_method_changes_interfaces(debot: DebotView, talk: Talk, act: DActionView)
    requires
        act.action_type != AcType::RunMethod,
    ensures
        same_interfaces(debot, script::handle_action(debot, talk, act).0),
{
    match act.action_type {
        AcType::RunAction => run_action_stays(debot, talk, act),
        AcType::SendMsg => send_msg_stays(debot, talk, act),
        AcType::Invoke => invoke_stays(debot, talk, act),
        AcType::Print => print_stays(debot, talk, act),
        AcType::CallEngine => call_engine_stays(debot, talk, act),
        _ => {},
    }
}

/// Only an action that runs a function of the debot answers with further actions.
pub proof fn only_run_action_answers(debot: DebotView, talk: Talk, act: DActionView)
    requires
        script::handle_action(debot, talk, act).2 matches Ok(Some(_)),
    ensures
        act.action_type == AcType::RunAction,
{
}

proof fn work_same_debot(debot: DebotView, talk: Talk, queue: Seq<DActionView>)
    ensures
        same_debot(debot, script::work(debot, talk, queue).0),
        debot.prev_state == script::work(debot, talk, queue).0.prev_state,
    decreases talk.ahead(), queue.len(),
{
    if queue.len() > 0 {
        let act = queue[0];
        let rest = queue.drop_first();
        turns::run_instant_orderly(debot, talk, Seq::empty(), act);
        turns::handle_action_orderly(debot, talk, Seq::empty(), act);
        action_stays_in_place(debot, talk, act);
        action_stays_in_place(debot, script::announce(talk, act).0, act);
        if act.instant {
            let done = script::run_instant(debot, talk, act);
            if done.2 is Ok {
                work_same_debot(done.0, done.1, script::queued(rest, done.2->Ok_0));
            }
        } else if act.is_engine_call() {
            let done = script::handle_action(debot, talk, act);
            if done.2 is Ok {
                work_same_debot(done.0, done.1, rest);
            }
        } else {
            let said = talk.tell(RequestView::ShowAction(act));
            if said.1 is Ok {
                work_same_debot(debot, said.0, rest);
            }
        }
    }
}

/// Going through the actions of a context leaves the debot the one that it is, and it still knows
/// the context that it came from.
pub proof fn enumeration_keeps_debot(debot: DebotView, talk: Talk, actions: Seq<DActionView>)
    ensures
        same_debot(debot, script::enumerate_actions(debot, talk, actions).0),
        debot.prev_state == script::enumerate_actions(debot, talk, actions).0.prev_state,
    decreases actions.len(),
{
    if actions.len() > 0 {
        let first = seq![actions[0]];
        work_same_debot(debot, talk, first);
        let done = script::work(debot, talk, first);
        enumeration_keeps_debot(done.0, done.1, actions.drop_first());
    }
}

proof fn work_true_where_moved(debot: DebotView, talk: Talk, queue: Seq<DActionView>)
    requires
        debot.curr_state != STATE_PREV,
    ensures
        script::work(debot, talk, queue).2 == Ok::<bool, StopView>(true) <==> script::work(
            debot,
            talk,
            queue,
        ).0.curr_state != debot.curr_state,
    decreases talk.ahead(), queue.len(),
{
    if queue.len() > 0 {
        let act = queue[0];
        let rest = queue.drop_first();
        turns::run_instant_orderly(debot, talk, Seq::empty(), act);
        turns::handle_action_orderly(debot, talk, Seq::empty(), act);
        action_stays_in_place(debot, talk, act);
        action_stays_in_place(debot, script::announce(talk, act).0, act);
        if act.instant {
            let done = script::run_instant(debot, talk, act);
            if done.2 is Ok {
                work_true_where_moved(done.0, done.1, script::queued(rest, done.2->Ok_0));
            }
        } else if act.is_engine_call() {
            let done = script::handle_action(debot, talk, act);
            if done.2 is Ok {
                work_true_where_moved(done.0, done.1, rest);
            }
        } else {
            let said = talk.tell(RequestView::ShowAction(act));
            if said.1 is Ok {
                work_true_where_moved(debot, said.0, rest);
            }
        }
    }
}

/// Going through the actions of a context says that another context is to be entered exactly
/// where the debot's own context has changed; the context that it came from, its contexts and its
/// address stay as they were. The byte that stands for the previous context is left out as the
/// debot's own: an action that leads there leaves it as it is.
pub proof fn enumeration_true_where_moved(
    debot: DebotView,
    talk: Talk,
    actions: Seq<DActionView>,
)
    requires
        debot.curr_state != STATE_PREV,
    ensures
        script::enumerate_actions(debot, talk, actions).2 == Ok::<bool, StopView>(true)
            <==> script::enumerate_actions(debot, talk, actions).0.curr_state != debot.curr_state,
        same_debot(debot, script::enumerate_actions(debot, talk, actions).0),
        debot.prev_state == script::enumerate_actions(debot, talk, actions).0.prev_state,
    decreases actions.len(),
{
    enumeration_keeps_debot(debot, talk, actions);
    if actions.len() > 0 {
        let first = seq![actions[0]];
        work_true_where_moved(debot, talk, first);
        let done = script::work(debot, talk, first);
        if done.2 == Ok::<bool, StopView>(false) {
            enumeration_true_where_moved(done.0, done.1, actions.drop_first());
        }
    }
}

/// However far the actions of the contexts lead on, the debot stays the one that it is, and still
/// knows the context that the switch began in.
pub proof fn entering_keeps_origin(debot: DebotView, talk: Talk, state: u8)
    ensures
        same_debot(debot, script::enter(debot, talk, state).0),
        debot.prev_state == script::enter(debot, talk, state).0.prev_state,
    decreases talk.ahead(),
{
    match context::context_with(debot.state_machine, state) {
        Some(ctx) => {
            turns::show_context_orderly(debot, talk, Seq::empty(), ctx);
            let said = talk.tell(RequestView::Switch(ctx.id)).0.tell(RequestView::Log(ctx.desc));
            enumeration_keeps_debot(debot, said.0, ctx.actions);
            let done = script::show_context(debot, talk, ctx);
            if done.2 == Ok::<bool, StopView>(true) {
                entering_keeps_origin(done.0, done.1, done.0.curr_state);
            }
        },
        None => {},
    }
}

/// A switch to another context leaves the debot with the context that it came from as the
/// previous one.
pub proof fn switch_remembers_origin(debot: DebotView, talk: Talk, to: u8)
    requires
        script::switch_target(debot, to) != STATE_EXIT,
        script::switch_target(debot, to) != debot.curr_state,
    ensures
        script::switch_state(debot, talk, to).0.prev_state == debot.curr_state,
        same_debot(debot, script::switch_state(debot, talk, to).0),
{
    let to = script::switch_target(debot, to);
    entering_keeps_origin(
        DebotView { prev_state: debot.curr_state, curr_state: to, ..debot },
        talk,
        to,
    );
}

/// An ordinary switch, to a context that is neither the debot's own nor the end, is told at once:
/// the user hears that the debot goes there, or that there is no such context. The context that
/// the debot was in is then the previous one.
pub proof fn ordinary_switch_enters(debot: DebotView, talk: Talk, n: u8)
    requires
        n != 253,
        n != 254,
        n != 255,
        n != debot.curr_state,
    ensures
        ({
            let (after, on, outcome) = script::switch_state(debot, talk, n);
            &&& turns::asked_on(talk, on)
            &&& on.asked.len() > talk.asked.len()
            &&& on.asked[talk.asked.len() as int] == match context::context_with(
                debot.state_machine,
                n,
            ) {
                Some(_) => RequestView::Switch(n),
                None => RequestView::Log(
                    "Debot context #"@ + text::decimal_text(n as nat) + " not found. Exit."@,
                ),
            }
            &&& after.prev_state == debot.curr_state
            &&& after.state_machine == debot.state_machine
            &&& after.addr == debot.addr
            &&& context::context_with(debot.state_machine, n) is None ==> after.curr_state == n
        }),
{
    let there = DebotView { prev_state: debot.curr_state, curr_state: n, ..debot };
    entering_keeps_origin(there, talk, n);
    turns::enter_orderly(there, talk, Seq::empty(), n);
    context::context_has_its_id(debot.state_machine, n);
    if let Some(ctx) = context::context_with(debot.state_machine, n) {
        let switch = talk.tell(RequestView::Switch(n));
        let log = switch.0.tell(RequestView::Log(ctx.desc));
        turns::enumerate_actions_orderly(there, log.0, Seq::empty(), ctx.actions);
        let shown = script::show_context(there, talk, ctx);
        assert(turns::asked_on(switch.0, shown.1));
        turns::enter_orderly(shown.0, shown.1, Seq::empty(), shown.0.curr_state);
    }
}

/// A debot that is sent to a context that it does not have is there nevertheless, and has asked
/// nothing beyond saying so.
pub proof fn ordinary_switch_to_missing(debot: DebotView, talk: Talk, n: u8)
    requires
        n != 253,
        n != 254,
        n != 255,
        n != debot.curr_state,
    ensures
        context::context_with(debot.state_machine, n) is None ==> {
            let (after, on, _) = script::switch_state(debot, talk, n);
            &&& after == DebotView { prev_state: debot.curr_state, curr_state: n, ..debot }
            &&& on.asked == talk.asked.push(
                RequestView::Log(
                    "Debot context #"@ + text::decimal_text(n as nat) + " not found. Exit."@,
                ),
            )
        },
{
}

/// A switch to a context of plain actions shows it as a whole, and the debot is there, with the
/// context that it was in as the previous one.
pub proof fn plain_switch(debot: DebotView, talk: Talk, n: u8, ctx: DContextView)
    requires
        n != 253,
        n != 254,
        n != 255,
        n != debot.curr_state,
        context::context_with(debot.state_machine, n) == Some(ctx),
        forall|i: int| 0 <= i < ctx.actions.len() ==> plain(#[trigger] ctx.actions[i]),
        hears_done(talk, ctx.actions.len() + 2),
    ensures
        script::switch_state(debot, talk, n) == (
            DebotView { prev_state: debot.curr_state, curr_state: n, ..debot },
            exchange::after(
                talk,
                seq![RequestView::Switch(n), RequestView::Log(ctx.desc)] + offers(ctx.actions),
            ),
            Ok::<(), StopView>(()),
        ),
{
    context::context_has_its_id(debot.state_machine, n);
    let there = DebotView { prev_state: debot.curr_state, curr_state: n, ..debot };
    plain_context_is_shown(there, talk, ctx);
    let first = seq![RequestView::Switch(n), RequestView::Log(ctx.desc)];
    assert(talk.asked + first + offers(ctx.actions) =~= talk.asked + (first + offers(
        ctx.actions,
    )));
}

/// A switch to the context that the debot is in does nothing.
pub proof fn switch_to_current_does_nothing(debot: DebotView, talk: Talk)
    requires
        debot.curr_state != STATE_EXIT,
        debot.curr_state != STATE_PREV,
    ensures
        script::switch_state(debot, talk, STATE_CURRENT) == (debot, talk, Ok::<(), StopView>(())),
{
}

/// A switch to the marker of the current or of the previous context is a switch to that context,
/// unless that is itself the marker of the current one.
pub proof fn markers_stand_for_contexts(debot: DebotView, talk: Talk)
    ensures
        debot.curr_state != 253 ==> script::switch_state(debot, talk, 253) == script::switch_state(
            debot,
            talk,
            debot.curr_state,
        ),
        debot.prev_state != 253 ==> script::switch_state(debot, talk, 254) == script::switch_state(
            debot,
            talk,
            debot.prev_state,
        ),
{
}

/// A switch to the debot's own context, by its id, does nothing.
pub proof fn switch_to_own_id_does_nothing(debot: DebotView, talk: Talk, n: u8)
    requires
        n == debot.curr_state,
        n != 254,
        n != 255,
    ensures
        script::switch_state(debot, talk, n) == (debot, talk, Ok::<(), StopView>(())),
{
}

/// Leaving only tells the user so: the debot stays in its context.
pub proof fn exit_only_tells(debot: DebotView, talk: Talk)
    ensures
        script::switch_state(debot, talk, STATE_EXIT).0 == debot,
        script::switch_state(debot, talk, STATE_EXIT).1.asked == talk.asked.push(
            RequestView::Switch(STATE_EXIT),
        ),
{
}

/// A debot that is started for the first time enters context zero, once it is loaded.
pub proof fn first_start_enters_zero(debot: DebotView, talk: Talk)
    requires
        debot.curr_state == STATE_EXIT,
        script::fetch(debot, talk).2 is Ok,
    ensures
        ({
            let (loaded, on, _) = script::fetch(debot, talk);
            script::start(debot, talk) == script::enter(
                DebotView { prev_state: STATE_EXIT, curr_state: STATE_ZERO, ..loaded },
                on,
                STATE_ZERO,
            )
        }),
{
}

/// Whatever a debot is told to do, it stays the debot at its address, with its client. Its
/// contexts change only where they are fetched; fetching them does not take it to another one,
/// and asking for its version changes nothing.
pub proof fn operation_keeps_debot(
    debot: DebotView,
    talk: Talk,
    operation: script::OperationView,
)
    ensures
        ({
            let after = script::perform(debot, talk, operation).0;
            &&& after.addr == debot.addr
            &&& after.server == debot.server
            &&& operation is ExecuteAction ==> after.state_machine == debot.state_machine
            &&& operation is Fetch ==> after.curr_state == debot.curr_state && after.prev_state
                == debot.prev_state
            &&& operation is Version ==> after == debot
        }),
{
    match operation {
        script::OperationView::ExecuteAction(act) => {
            action_stays_in_place(debot, talk, act);
            let done = script::handle_action(debot, talk, act);
            switch_keeps_debot(done.0, done.1, act.to);
            if let Err(StopView::Failed(e)) = done.2 {
                let log = RequestView::Log(
                    "Action failed: "@ + e + ". Return to previous state.\n"@,
                );
                switch_keeps_debot(done.0, done.1.tell(log).0, done.0.prev_state);
            }
        },
        script::OperationView::Start => {
            let done = script::fetch(debot, talk);
            switch_keeps_debot(done.0, done.1, STATE_ZERO);
        },
        _ => {},
    }
}

proof fn switch_keeps_debot(debot: DebotView, talk: Talk, to: u8)
    ensures
        same_debot(debot, script::switch_state(debot, talk, to).0),
{
    let to = script::switch_target(debot, to);
    entering_keeps_origin(
        DebotView { prev_state: debot.curr_state, curr_state: to, ..debot },
        talk,
        to,
    );
}

/// An action that fails is reported to the user, and the debot goes back to the context that it
/// came from.
pub proof fn failed_action_returns(
    debot: DebotView,
    talk: Talk,
    act: DActionView,
    error: Seq<char>,
)
    requires
        script::handle_action(debot, talk, act).2 == Err::<Option<Seq<DActionView>>, StopView>(
            StopView::Failed(error),
        ),
    ensures
        ({
            let (after, on, _) = script::handle_action(debot, talk, act);
            let told = on.tell(
                RequestView::Log(
                    "Action failed: "@ + error + ". Return to previous state.\n"@,
                ),
            );
            &&& told.1 is Ok ==> script::execute_action(debot, talk, act) == script::switch_state(
                after,
                told.0,
                debot.prev_state,
            )
            &&& told.1 matches Err(stop) ==> script::execute_action(debot, talk, act) == (
                after,
                told.0,
                Err::<(), StopView>(stop),
            )
        }),
{
    action_stays_in_place(debot, talk, act);
}

/// A message to the debot itself is read by the debot's own interface, whatever it works on.
pub proof fn own_messages_by_own_abi(debot: DebotView, talk: Talk)
    ensures
        script::abi_for(debot, talk, debot.addr) == (talk, Ok::<_, StopView>(debot.abi)),
{
}

/// What a user types for a parameter of type `bytes` is read back from what is sent.
pub proof fn typed_bytes_read_back(value: Seq<char>)
    ensures
        text::hex_text(script::typed_argument("bytes"@, value)) == Some(value),
{
    text::hex_text_round_trip(value);
}

/// The name of a parameter.
pub open spec fn param_name(input: JsonView) -> Option<Seq<char>> {
    input.at("name"@).as_str()
}

/// The user is asked once for each parameter, and each parameter is among the arguments.
pub proof fn arguments_cover_parameters(
    talk: Talk,
    inputs: Seq<JsonView>,
    given: Map<Seq<char>, JsonView>,
)
    requires
        script::ask_inputs(talk, inputs, given).1 is Ok,
    ensures
        ({
            let (on, outcome) = script::ask_inputs(talk, inputs, given);
            &&& on.heard == talk.heard + inputs.len()
            &&& on.asked.len() == talk.asked.len() + inputs.len()
            &&& outcome->Ok_0 is Object
            &&& forall|name: Seq<char>| #[trigger]
                outcome->Ok_0->Object_0.contains_key(name) <==> given.contains_key(name) || exists|
                    i: int,
                | 0 <= i < inputs.len() && param_name(#[trigger] inputs[i]) == Some(name)
        }),
    decreases inputs.len(),
{
    if inputs.len() > 0 {
        let (on, reply) = talk.ask(RequestView::Input(""@));
        let rest = inputs.drop_first();
        let value = reply->Ok_0->Text_0;
        let first = inputs[0];
        let more = given.insert(
            param_name(first)->0,
            JsonView::Str(script::typed_argument(first.at("type"@).as_str()->0, value)),
        );
        arguments_cover_parameters(on, rest, more);
        let all = script::ask_inputs(talk, inputs, given).1->Ok_0->Object_0;
        assert forall|name: Seq<char>| #[trigger] all.contains_key(name) <==> given.contains_key(
            name,
        ) || exists|i: int| 0 <= i < inputs.len() && param_name(#[trigger] inputs[i]) == Some(name)
            by {
            if exists|i: int| 0 <= i < rest.len() && param_name(#[trigger] rest[i]) == Some(name) {
                let i = choose|i: int|
                    0 <= i < rest.len() && param_name(#[trigger] rest[i]) == Some(name);
                assert(param_name(inputs[i + 1]) == Some(name));
            }
            if exists|i: int|
                0 <= i < inputs.len() && param_name(#[trigger] inputs[i]) == Some(name) {
                let i = choose|i: int|
                    0 <= i < inputs.len() && param_name(#[trigger] inputs[i]) == Some(name);
                if i > 0 {
                    assert(param_name(rest[i - 1]) == Some(name));
                }
            }
        }
    }
}

/// A signing box that the user gave for a message is asked for first, and given back once the
/// message went through.
pub proof fn message_gives_box_back(debot: DebotView, talk: Talk, act: DActionView)
    requires
        act.sign_by_user,
        script::send_msg(debot, talk, act).2 is Ok,
    ensures
        ({
            let asked = script::send_msg(debot, talk, act).1.asked;
            &&& talk.heard < talk.replies.len()
            &&& talk.replies[talk.heard as int] matches ReplyView::SigningBox(Ok(handle))
            &&& asked.len() >= talk.asked.len() + 3
            &&& asked[talk.asked.len() as int] == RequestView::GetSigningBox
            &&& asked[asked.len() - 2] == RequestView::RemoveSigningBox(handle)
            &&& asked.last() == RequestView::Log("Transaction succeeded."@)
        }),
{
    let (on, signer) = script::get_signer(talk, true);
    turns::run_sendmsg_orderly(
        debot,
        on,
        Seq::empty(),
        act.name,
        script::misc_args(act.misc),
        signer->Ok_0,
    );
}

/// A signing box that the user gave for a routine is given back once the routine has answered.
pub proof fn routine_gives_box_back(talk: Talk, name: Seq<char>, args: Seq<char>)
    requires
        script::signed_routine(talk, name, args, true).1 is Ok,
    ensures
        talk.replies[talk.heard as int] matches ReplyView::SigningBox(Ok(handle))
            && script::signed_routine(talk, name, args, true).0.asked == talk.asked.push(
            RequestView::GetSigningBox,
        ).push(RequestView::CallRoutine { name, args, signer: Some(handle) }).push(
            RequestView::RemoveSigningBox(handle),
        ),
{
}

/// Whether an action is only offered to the user.
pub open spec fn plain(act: DActionView) -> bool {
    !act.instant && !act.is_engine_call()
}

/// The requests that offer some actions, in their order.
pub open spec fn offers(actions: Seq<DActionView>) -> Seq<RequestView> {
    actions.map_values(|act: DActionView| RequestView::ShowAction(act))
}

/// Whether the next replies only say that something was done.
pub open spec fn hears_done(talk: Talk, n: nat) -> bool {
    &&& talk.heard + n <= talk.replies.len()
    &&& forall|i: int|
        talk.heard <= i < talk.heard + n ==> #[trigger] talk.replies[i] == ReplyView::Done
}

proof fn plain_actions_offered(debot: DebotView, talk: Talk, actions: Seq<DActionView>)
    requires
        forall|i: int| 0 <= i < actions.len() ==> plain(#[trigger] actions[i]),
        hears_done(talk, actions.len()),
    ensures
        script::enumerate_actions(debot, talk, actions) == (
            debot,
            Talk {
                heard: talk.heard + actions.len(),
                asked: talk.asked + offers(actions),
                ..talk
            },
            Ok::<bool, StopView>(false),
        ),
    decreases actions.len(),
{
    if actions.len() == 0 {
        assert(talk.asked + offers(actions) =~= talk.asked);
    } else {
        let rest = actions.drop_first();
        let request = RequestView::ShowAction(actions[0]);
        assert(plain(actions[0]));
        assert(talk.replies[talk.heard as int] == ReplyView::Done);
        let on = talk.tell(request).0;
        reveal_with_fuel(script::work, 2);
        assert(seq![actions[0]].drop_first() =~= Seq::empty());
        assert(script::work(debot, talk, seq![actions[0]]) == (
            debot,
            on,
            Ok::<bool, StopView>(false),
        ));
        assert forall|i: int| 0 <= i < rest.len() implies plain(#[trigger] rest[i]) by {
            assert(plain(actions[i + 1]));
        }
        plain_actions_offered(debot, on, rest);
        assert(talk.asked + offers(actions) =~= on.asked + offers(rest));
    }
}

/// A context whose actions are all for the user to choose from is shown as a whole: its
/// description, and each action in its order.
pub proof fn plain_context_is_shown(debot: DebotView, talk: Talk, ctx: DContextView)
    requires
        context::context_with(debot.state_machine, ctx.id) == Some(ctx),
        forall|i: int| 0 <= i < ctx.actions.len() ==> plain(#[trigger] ctx.actions[i]),
        hears_done(talk, ctx.actions.len() + 2),
    ensures
        script::enter(debot, talk, ctx.id) == (
            debot,
            Talk {
                heard: talk.heard + ctx.actions.len() + 2,
                asked: talk.asked + seq![RequestView::Switch(ctx.id), RequestView::Log(ctx.desc)]
                    + offers(ctx.actions),
                ..talk
            },
            Ok::<(), StopView>(()),
        ),
{
    assert(talk.replies[talk.heard as int] == ReplyView::Done);
    assert(talk.replies[talk.heard as int + 1] == ReplyView::Done);
    let on = talk.tell(RequestView::Switch(ctx.id)).0.tell(RequestView::Log(ctx.desc)).0;
    plain_actions_offered(debot, on, ctx.actions);
    assert(on.asked =~= talk.asked + seq![
        RequestView::Switch(ctx.id),
        RequestView::Log(ctx.desc),
    ]);
}

/// Whether the context with an id has only actions for the user to choose from, where the debot
/// has one.
pub open spec fn plain_or_missing(debot: DebotView, id: u8) -> bool {
    context::context_with(debot.state_machine, id) matches Some(ctx) ==> forall|i: int|
        0 <= i < ctx.actions.len() ==> plain(#[trigger] ctx.actions[i])
}

/// How often the user is told something when the context with an id is entered: for each of its
/// actions, its description and the switch, or once where it is missing.
pub open spec fn told(debot: DebotView, id: u8) -> nat {
    match context::context_with(debot.state_machine, id) {
        Some(ctx) => ctx.actions.len() + 2,
        None => 1,
    }
}

/// How often the user is told something when the debot goes to the previous context and back.
pub open spec fn told_there_and_back(debot: DebotView) -> nat {
    if debot.prev_state == debot.curr_state {
        0
    } else if debot.prev_state == STATE_EXIT {
        2
    } else {
        told(debot, debot.prev_state) + told(debot, debot.curr_state)
    }
}

/// Entering a context that is missing or has only plain actions leaves the debot in it, once the
/// user was told.
proof fn plain_entry_stays(debot: DebotView, talk: Talk, state: u8)
    requires
        state != STATE_EXIT,
        plain_or_missing(debot, state),
        hears_done(talk, told(debot, state)),
    ensures
        ({
            let (after, on, outcome) = script::enter(debot, talk, state);
            &&& after == debot
            &&& on.replies == talk.replies
            &&& on.heard == talk.heard + told(debot, state)
            &&& outcome is Ok
        }),
{
    context::context_has_its_id(debot.state_machine, state);
    match context::context_with(debot.state_machine, state) {
        Some(ctx) => plain_context_is_shown(debot, talk, ctx),
        None => {
            assert(talk.replies[talk.heard as int] == ReplyView::Done);
        },
    }
}

/// Going to the previous context and to the previous one again brings the debot back to where it
/// was, unless it was at its end.
pub proof fn previous_twice_comes_back(debot: DebotView, talk: Talk)
    requires
        debot.curr_state != STATE_EXIT,
        debot.prev_state != STATE_EXIT && debot.prev_state != debot.curr_state ==> {
            &&& plain_or_missing(debot, debot.curr_state)
            &&& plain_or_missing(debot, debot.prev_state)
        },
        hears_done(talk, told_there_and_back(debot)),
    ensures
        ({
            let (there, on, gone) = script::switch_state(debot, talk, STATE_PREV);
            &&& gone is Ok
            &&& debot.prev_state != STATE_EXIT ==> there.curr_state == debot.prev_state
            &&& script::switch_state(there, on, STATE_PREV).0 == debot
            &&& script::switch_state(there, on, STATE_PREV).2 is Ok
        }),
{
    let here = debot.curr_state;
    let before = debot.prev_state;
    if before == STATE_EXIT {
        assert(talk.replies[talk.heard as int] == ReplyView::Done);
        assert(talk.replies[talk.heard as int + 1] == ReplyView::Done);
    } else if before != here {
        let there = DebotView { prev_state: here, curr_state: before, ..debot };
        plain_entry_stays(there, talk, before);
        plain_entry_stays(debot, script::enter(there, talk, before).1, here);
    }
}

/// An action that runs by itself and leads to another context ends the list: nothing behind it is
/// performed or offered any more.
pub proof fn instant_switch_ends_list(debot: DebotView, talk: Talk, queue: Seq<DActionView>)
    requires
        queue.len() > 0,
        queue[0].instant,
        script::run_instant(debot, talk, queue[0]).2 is Ok,
        script::destination(debot, queue[0].to) != debot.curr_state,
    ensures
        ({
            let (after, on, _) = script::run_instant(debot, talk, queue[0]);
            script::work(debot, talk, queue) == (
                DebotView { curr_state: queue[0].to, ..after },
                on,
                Ok::<bool, StopView>(true),
            )
        }),
{
    action_stays_in_place(debot, script::announce(talk, queue[0]).0, queue[0]);
}

/// The further actions that an action answers with take its place.
pub proof fn further_actions_follow(
    debot: DebotView,
    talk: Talk,
    act: DActionView,
    further: Seq<DActionView>,
)
    requires
        act.instant,
        script::run_instant(debot, talk, act).2 == Ok::<Option<Seq<DActionView>>, StopView>(
            Some(further),
        ),
        script::destination(debot, act.to) == debot.curr_state,
    ensures
        ({
            let (after, on, _) = script::run_instant(debot, talk, act);
            script::work(debot, talk, seq![act]) == script::work(after, on, further)
        }),
{
    action_stays_in_place(debot, script::announce(talk, act).0, act);
    assert(script::queued(seq![act].drop_first(), Some(further)) =~= further);
}

/// A debot that is sent to a context that it does not have says so and stays there.
pub proof fn unknown_context_is_reported(debot: DebotView, talk: Talk, state: u8)
    requires
        context::context_with(debot.state_machine, state) is None,
        state != STATE_EXIT,
    ensures
        script::enter(debot, talk, state).0 == debot,
        script::enter(debot, talk, state).1.asked == talk.asked.push(
            RequestView::Log(
                "Debot context #"@ + text::decimal_text(state as nat) + " not found. Exit."@,
            ),
        ),
{
}

} // verus!
