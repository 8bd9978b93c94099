//! Operations of the engine, one step after the other.

use crate::debot::action::DAction;
use crate::debot::dengine::DEngine;
use crate::debot::dialogue::{Dialogue, Request, Stop};
use crate::debot::script;
use crate::debot::script::{NextView, OperationView};
use crate::debot::turns;
use vstd::prelude::*;

verus! {

/// What a debot can be told to do.
#[derive(Debug)]
pub enum Operation {
    Fetch,
    Start,
    Version,
    ExecuteAction(DAction),
}

impl DeepView for Operation {
    type V = OperationView;

    open spec fn deep_view(&self) -> OperationView {
        match self {
            Operation::Fetch => OperationView::Fetch,
            Operation::Start => OperationView::Start,
            Operation::Version => OperationView::Version,
            Operation::ExecuteAction(act) => OperationView::ExecuteAction(act.deep_view()),
        }
    }
}

/// What is to be done next for an operation.
#[derive(Debug)]
pub enum Next {
    /// Do what the engine asks for, and hand it the reply.
    Ask(Request),
    /// Nothing: the operation is done. It gives a text where one was asked for.
    Done(Option<String>),
    /// Nothing: the operation has failed, with the text of an error.
    Failed(String),
    /// Nothing: what was heard breaks the rules of the talk.
    Fault,
}

impl DeepView for Next {
    type V = NextView;

    open spec fn deep_view(&self) -> NextView {
        match self {
            Next::Ask(request) => NextView::Ask(request.deep_view()),
            Next::Done(text) => NextView::Done(text.deep_view()),
            Next::Failed(e) => NextView::Failed(e@),
            Next::Fault => NextView::Fault,
        }
    }
}

/// Takes an operation as far as the replies of a talk reach. The debot changes once the operation
/// is done or has failed; until then it stays as it was when the operation began.
pub fn advance(debot: &mut DEngine, talk: &mut Dialogue, operation: &Operation) -> (r: Next)
    ensures
        final(talk).deep_view().replies == old(talk).deep_view().replies,
        ({
            let done = script::perform(
                old(debot).deep_view(),
                old(talk).deep_view(),
                operation.deep_view(),
            );
            &&& r.deep_view() == script::next(done)
            &&& final(debot).deep_view() == match r {
                Next::Done(_) => done.0,
                Next::Failed(_) => done.0,
                _ => old(debot).deep_view(),
            }
        }),
{
    proof {
        turns::perform_orderly(
            debot.deep_view(),
            talk.deep_view(),
            Seq::empty(),
            operation.deep_view(),
        );
    }
    let mut trial: DEngine = debot.clone();
    let outcome: Result<Option<String>, Stop> = match operation {
        Operation::Fetch => match trial.fetch(talk) {
            Ok(()) => Ok(None),
            Err(stop) => Err(stop),
        },
        Operation::Start => match trial.start(talk) {
            Ok(()) => Ok(None),
            Err(stop) => Err(stop),
        },
        Operation::Version => match trial.version(talk) {
            Ok(text) => Ok(Some(text)),
            Err(stop) => Err(stop),
        },
        Operation::ExecuteAction(act) => match trial.execute_action(talk, act) {
            Ok(()) => Ok(None),
            Err(stop) => Err(stop),
        },
    };
    match outcome {
        Ok(text) => {
            *debot = trial;
            Next::Done(text)
        },
        Err(Stop::Failed(e)) => {
            *debot = trial;
            Next::Failed(e)
        },
        Err(Stop::Pending) => match talk.take_request() {
            Some(request) => Next::Ask(request),
            None => Next::Fault,
        },
        Err(Stop::Fault) => Next::Fault,
    }
}

} // verus!
