//! The actions that a debot offers.

use vstd::prelude::*;

verus! {

/// What an action does.
#[derive(Clone, Copy, Debug, PartialEq, Eq, Structural)]
pub enum AcType {
    Empty,
    RunAction,
    RunMethod,
    SendMsg,
    Invoke,
    Print,
    Goto,
    CallEngine,
    /// Any type that the engine does not know.
    Unknown,
}

/// An action of a debot, with its attributes taken apart.
#[derive(Debug)]
pub struct DAction {
    pub desc: String,
    pub name: String,
    pub action_type: AcType,
    /// The context to go to afterwards.
    pub to: u8,
    /// Base64 of a cell with further arguments.
    pub misc: String,
    /// Whether the action runs by itself when its context is entered.
    pub instant: bool,
    /// Whether the user signs.
    pub sign_by_user: bool,
    /// The function to run with the result.
    pub func: Option<String>,
    /// The function that gives the arguments.
    pub args: Option<String>,
    /// The function that gives the arguments of a format.
    pub fargs: Option<String>,
}

/// What a [`DAction`] stands for.
pub struct DActionView {
    pub desc: Seq<char>,
    pub name: Seq<char>,
    pub action_type: AcType,
    pub to: u8,
    pub misc: Seq<char>,
    pub instant: bool,
    pub sign_by_user: bool,
    pub func: Option<Seq<char>>,
    pub args: Option<Seq<char>>,
    pub fargs: Option<Seq<char>>,
}

impl DeepView for DAction {
    type V = DActionView;

    open spec fn deep_view(&self) -> DActionView {
        DActionView {
            desc: self.desc@,
            name: self.name@,
            action_type: self.action_type,
            to: self.to,
            misc: self.misc@,
            instant: self.instant,
            sign_by_user: self.sign_by_user,
            func: self.func.deep_view(),
            args: self.args.deep_view(),
            fargs: self.fargs.deep_view(),
        }
    }
}

impl Clone for DAction {
    fn clone(&self) -> (r: Self)
        ensures
            r.deep_view() == self.deep_view(),
    {
        DAction {
            desc: self.desc.clone(),
            name: self.name.clone(),
            action_type: self.action_type,
            to: self.to,
            misc: self.misc.clone(),
            instant: self.instant,
            sign_by_user: self.sign_by_user,
            func: self.func.clone(),
            args: self.args.clone(),
            fargs: self.fargs.clone(),
        }
    }
}

impl DActionView {
    /// Whether the action calls a routine of the engine.
    pub open spec fn is_engine_call(self) -> bool {
        self.action_type == AcType::CallEngine
    }
}

impl DAction {
    /// Whether the action runs by itself when its context is entered.
    pub fn is_instant(&self) -> (r: bool)
        ensures
            r == self.deep_view().instant,
    {
        self.instant
    }

    /// Whether the action calls a routine of the engine.
    pub fn is_engine_call(&self) -> (r: bool)
        ensures
            r == self.deep_view().is_engine_call(),
    {
        self.action_type == AcType::CallEngine
    }
}

} // verus!
