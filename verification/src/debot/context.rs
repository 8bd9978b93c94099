//! The contexts of a debot: what it shows, and what it offers there.

use crate::debot::action::{DAction, DActionView};
use vstd::prelude::*;

verus! {

/// The context that a debot starts in.
pub const STATE_ZERO: u8 = 0;

/// Stands for the context that the debot is in.
pub const STATE_CURRENT: u8 = 253;

/// Stands for the context that the debot came from.
pub const STATE_PREV: u8 = 254;

/// Ends the debot.
pub const STATE_EXIT: u8 = 255;

/// A context of a debot.
#[derive(Debug)]
pub struct DContext {
    pub id: u8,
    pub desc: String,
    pub actions: Vec<DAction>,
}

/// What a [`DContext`] stands for.
pub struct DContextView {
    pub id: u8,
    pub desc: Seq<char>,
    pub actions: Seq<DActionView>,
}

impl DeepView for DContext {
    type V = DContextView;

    open spec fn deep_view(&self) -> DContextView {
        DContextView { id: self.id, desc: self.desc@, actions: self.actions.deep_view() }
    }
}

impl Clone for DContext {
    fn clone(&self) -> (r: Self)
        ensures
            r.deep_view() == self.deep_view(),
    {
        let actions: Vec<DAction> = self.actions.clone();
        assert(actions.deep_view() =~= self.actions.deep_view());
        DContext { id: self.id, desc: self.desc.clone(), actions }
    }
}

/// The first context with an id.
pub open spec fn context_with(contexts: Seq<DContextView>, id: u8) -> Option<DContextView>
    decreases contexts.len(),
{
    if contexts.len() == 0 {
        None
    } else if contexts[0].id == id {
        Some(contexts[0])
    } else {
        context_with(contexts.drop_first(), id)
    }
}

/// Finds the first context with an id.
pub fn find_context(contexts: &Vec<DContext>, id: u8) -> (r: Option<DContext>)
    ensures
        r.deep_view() == context_with(contexts.deep_view(), id),
{
    let ghost all = contexts.deep_view();
    assert(all.skip(0) =~= all);
    let mut i: usize = 0;
    while i < contexts.len()
        invariant
            i <= contexts@.len(),
            all == contexts.deep_view(),
            context_with(all, id) == context_with(all.skip(i as int), id),
        decreases contexts@.len() - i,
    {
        assert(all[i as int] == contexts@[i as int].deep_view());
        assert(all.skip(i as int).drop_first() =~= all.skip(i + 1));
        if contexts[i].id == id {
            return Some(contexts[i].clone());
        }
        i += 1;
    }
    None
}

/// The context that is found has the id that was looked for.
pub proof fn context_has_its_id(contexts: Seq<DContextView>, id: u8)
    ensures
        context_with(contexts, id) matches Some(ctx) ==> ctx.id == id,
    decreases contexts.len(),
{
    if contexts.len() > 0 {
        context_has_its_id(contexts.drop_first(), id);
    }
}

/// Of the contexts with an id the first one is found.
pub proof fn first_context_is_found(contexts: Seq<DContextView>, id: u8, i: int)
    requires
        0 <= i < contexts.len(),
        contexts[i].id == id,
        forall|j: int| 0 <= j < i ==> (#[trigger] contexts[j]).id != id,
    ensures
        context_with(contexts, id) == Some(contexts[i]),
    decreases contexts.len(),
{
    if i > 0 {
        let rest = contexts.drop_first();
        assert(contexts[0].id != id);
        assert(rest[i - 1] == contexts[i]);
        assert forall|j: int| 0 <= j < i - 1 implies (#[trigger] rest[j]).id != id by {
            assert(contexts[j + 1].id != id);
        }
        first_context_is_found(rest, id, i - 1);
    }
}

/// No context is found where none has the id.
pub proof fn missing_context_is_not_found(contexts: Seq<DContextView>, id: u8)
    requires
        forall|j: int| 0 <= j < contexts.len() ==> (#[trigger] contexts[j]).id != id,
    ensures
        context_with(contexts, id) is None,
    decreases contexts.len(),
{
    if contexts.len() > 0 {
        let rest = contexts.drop_first();
        assert(contexts[0].id != id);
        assert forall|j: int| 0 <= j < rest.len() implies (#[trigger] rest[j]).id != id by {
            assert(contexts[j + 1].id != id);
        }
        missing_context_is_not_found(rest, id);
    }
}

} // verus!
