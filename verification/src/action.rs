use vstd::prelude::*;

verus! {

/// The event that sets an action off.
#[derive(Debug, Clone, Copy, PartialEq, Eq, Structural)]
pub enum ActionType {
    Clicked,
    MouseHover,
}

/// A program to start, with its arguments, when an event occurs. The
/// library only describes the program; starting it is left to the caller,
/// who neither waits for it nor looks at how it ends.
#[derive(Debug, Clone)]
pub struct Action {
    pub ty: ActionType,
    pub program: String,
    pub arguments: Vec<String>,
}

/// What an `Action` holds, as plain values.
pub struct ActionView {
    pub ty: ActionType,
    pub program: Seq<char>,
    pub arguments: Seq<Seq<char>>,
}

impl View for Action {
    type V = ActionView;

    open spec fn view(&self) -> ActionView {
        ActionView {
            ty: self.ty,
            program: self.program@,
            arguments: self.arguments.deep_view(),
        }
    }
}

impl DeepView for Action {
    type V = ActionView;

    open spec fn deep_view(&self) -> ActionView {
        self.view()
    }
}

impl Action {
    /// The action that starts `command` without arguments on the event `ty`.
    pub fn new(command: String, ty: ActionType) -> (a: Action)
        ensures
            a@ == (ActionView { ty, program: command@, arguments: Seq::empty() }),
    {
        let a = Action { ty, program: command, arguments: Vec::new() };
        assert(a.arguments.deep_view() =~= Seq::empty());
        a
    }

    /// Adds `args` after the arguments that the program already has.
    pub fn args(&mut self, args: Vec<String>)
        ensures
            final(self)@ == (ActionView {
                arguments: old(self)@.arguments + args.deep_view(),
                ..old(self)@
            }),
    {
        let mut args = args;
        let ghost added = args.deep_view();
        self.arguments.append(&mut args);
        assert(self.arguments.deep_view() =~= old(self).arguments.deep_view() + added);
    }
}

} // verus!
