//! How a debot goes through the actions of a context, and on to the next one.

use crate::debot::action::{AcType, DActionView};
use crate::debot::context;
use crate::debot::context::DContextView;
use crate::debot::dialogue::{ReplyView, RequestView, StopView, Talk};
use crate::debot::exchange;
use crate::debot::laws;
use crate::debot::script;
use crate::debot::script::DebotView;
use vstd::prelude::*;

verus! {

/// Nothing is left to do without actions.
pub proof fn no_actions_no_requests(debot: DebotView, talk: Talk)
    ensures
        script::work(debot, talk, Seq::empty()) == (debot, talk, Ok::<bool, StopView>(false)),
        script::enumerate_actions(debot, talk, Seq::empty()) == (
            debot,
            talk,
            Ok::<bool, StopView>(false),
        ),
{
}

/// An action that neither runs by itself nor calls the engine is offered, and the next one follows.
pub proof fn plain_action_is_offered(
    debot: DebotView,
    talk: Talk,
    act: DActionView,
    rest: Seq<DActionView>,
)
    requires
        !act.instant,
        act.action_type != AcType::CallEngine,
        exchange::hears(talk, seq![ReplyView::Done]),
    ensures
        script::work(debot, talk, seq![act] + rest) == script::work(
            debot,
            exchange::after(talk, seq![RequestView::ShowAction(act)]),
            rest,
        ),
{
    assert((seq![act] + rest)[0] == act);
    assert((seq![act] + rest).drop_first() =~= rest);
    exchange::lemma_ask(talk, RequestView::ShowAction(act), ReplyView::Done);
}

/// A call of the engine that does not run by itself is performed, not offered, and the next action
/// follows; where it fails, it ends there.
pub proof fn engine_call_is_performed(
    debot: DebotView,
    talk: Talk,
    act: DActionView,
    rest: Seq<DActionView>,
)
    requires
        !act.instant,
        act.action_type == AcType::CallEngine,
    ensures
        ({
            let (left, on, outcome) = script::handle_action(debot, talk, act);
            script::work(debot, talk, seq![act] + rest) == match outcome {
                Ok(_) => script::work(left, on, rest),
                Err(stop) => (left, on, Err::<bool, StopView>(stop)),
            }
        }),
{
    assert((seq![act] + rest)[0] == act);
    assert((seq![act] + rest).drop_first() =~= rest);
}

/// Whether an action that was performed leads to another context than the debot's own.
pub open spec fn leads_away(debot: DebotView, to: u8) -> bool {
    if to == 253 {
        false
    } else if to == 254 {
        debot.prev_state != debot.curr_state
    } else {
        to != debot.curr_state
    }
}

/// An action that runs by itself is told by its description, where it has one, and performed. Where
/// it leads to another context nothing behind it follows, and the debot's context is the byte that
/// the action names. Else the actions behind it follow, and then the further ones that it gave.
pub proof fn instant_action_is_performed(
    debot: DebotView,
    talk: Talk,
    act: DActionView,
    rest: Seq<DActionView>,
)
    requires
        act.instant,
        act.desc.len() > 0 ==> exchange::hears(talk, seq![ReplyView::Done]),
    ensures
        ({
            let told = if act.desc.len() > 0 {
                exchange::after(talk, seq![RequestView::Log(act.desc)])
            } else {
                talk
            };
            let (left, on, outcome) = script::handle_action(debot, told, act);
            script::work(debot, talk, seq![act] + rest) == match outcome {
                Ok(further) => if leads_away(debot, act.to) {
                    (
                        DebotView { curr_state: act.to, ..left },
                        on,
                        Ok::<bool, StopView>(true),
                    )
                } else {
                    script::work(
                        left,
                        on,
                        match further {
                            Some(actions) => rest + actions,
                            None => rest,
                        },
                    )
                },
                Err(stop) => (left, on, Err::<bool, StopView>(stop)),
            }
        }),
{
    assert((seq![act] + rest)[0] == act);
    assert((seq![act] + rest).drop_first() =~= rest);
    let told = if act.desc.len() > 0 {
        exchange::lemma_ask(talk, RequestView::Log(act.desc), ReplyView::Done);
        exchange::after(talk, seq![RequestView::Log(act.desc)])
    } else {
        talk
    };
    laws::action_stays_in_place(debot, told, act);
}

/// The actions of a context are gone through one after the other, each with all that comes of it,
/// until one of them leads away or fails.
pub proof fn actions_follow_each_other(
    debot: DebotView,
    talk: Talk,
    act: DActionView,
    rest: Seq<DActionView>,
)
    ensures
        ({
            let (left, on, outcome) = script::work(debot, talk, seq![act]);
            script::enumerate_actions(debot, talk, seq![act] + rest) == match outcome {
                Ok(true) => (left, on, Ok::<bool, StopView>(true)),
                Ok(false) => script::enumerate_actions(left, on, rest),
                Err(stop) => (left, on, Err::<bool, StopView>(stop)),
            }
        }),
{
    assert((seq![act] + rest)[0] == act);
    assert((seq![act] + rest).drop_first() =~= rest);
}

/// A context that is entered is told by its id and its description, and its actions are gone
/// through; where one of them leads away, the debot enters the context that it is in then.
pub proof fn context_is_entered(debot: DebotView, talk: Talk, id: u8, ctx: DContextView)
    requires
        context::context_with(debot.state_machine, id) == Some(ctx),
        exchange::hears(talk, seq![ReplyView::Done, ReplyView::Done]),
    ensures
        ({
            let on = exchange::after(
                talk,
                seq![RequestView::Switch(id), RequestView::Log(ctx.desc)],
            );
            let (left, told, outcome) = script::enumerate_actions(debot, on, ctx.actions);
            script::enter(debot, talk, id) == match outcome {
                Ok(true) => script::enter(left, told, left.curr_state),
                Ok(false) => (left, told, Ok::<(), StopView>(())),
                Err(stop) => (left, told, Err::<(), StopView>(stop)),
            }
        }),
{
    context::context_has_its_id(debot.state_machine, id);
    let dones = seq![ReplyView::Done, ReplyView::Done];
    assert(dones[0] == ReplyView::Done && dones[1] == ReplyView::Done);
    assert(talk.replies[talk.heard as int] == ReplyView::Done);
    assert(talk.replies[talk.heard as int + 1] == ReplyView::Done);
    assert(talk.asked.push(RequestView::Switch(id)).push(RequestView::Log(ctx.desc))
        =~= talk.asked + seq![RequestView::Switch(id), RequestView::Log(ctx.desc)]);
}

/// A context that begins with an action that only leads on, by itself, is told, and then the
/// context that this action names is entered, whatever stands behind it.
pub proof fn context_that_leads_on(
    debot: DebotView,
    talk: Talk,
    id: u8,
    ctx: DContextView,
    n: u8,
)
    requires
        context::context_with(debot.state_machine, id) == Some(ctx),
        exchange::hears(talk, seq![ReplyView::Done, ReplyView::Done]),
        debot.curr_state == id,
        ctx.actions.len() > 0,
        ctx.actions[0].instant,
        ctx.actions[0].action_type == AcType::Goto || ctx.actions[0].action_type == AcType::Empty,
        ctx.actions[0].desc.len() == 0,
        ctx.actions[0].to == n,
        n != 253,
        n != 254,
        n != id,
    ensures
        script::enter(debot, talk, id) == script::enter(
            DebotView { curr_state: n, ..debot },
            exchange::after(talk, seq![RequestView::Switch(id), RequestView::Log(ctx.desc)]),
            n,
        ),
{
    context_is_entered(debot, talk, id, ctx);
    let act = ctx.actions[0];
    let rest = ctx.actions.drop_first();
    let on = exchange::after(talk, seq![RequestView::Switch(id), RequestView::Log(ctx.desc)]);
    assert(ctx.actions =~= seq![act] + rest);
    assert(seq![act] =~= seq![act] + Seq::empty());
    instant_action_is_performed(debot, on, act, Seq::empty());
    actions_follow_each_other(debot, on, act, rest);
}

} // verus!
