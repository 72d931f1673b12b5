use vstd::prelude::*;
use crate::action::{Action, ActionType, ActionView};
use crate::shape::Shape;
use crate::vector::Vector;

verus! {

/// A shape that can be clicked, with the action that a click sets off. The
/// shape is in widget-local units, like the cursor positions it is tested
/// against.
#[derive(Debug, Clone)]
pub struct Button {
    pub shape: Shape,
    pub action: Option<Action>,
}

/// What a `Button` holds, as plain values.
pub struct ButtonView {
    pub shape: Shape,
    pub action: Option<ActionView>,
}

impl ButtonView {
    /// Whether a click at `p` sets the button's action off: the button has
    /// an action, the action answers to clicks, and `p` is in the shape.
    pub open spec fn fires(self, p: Vector) -> bool {
        match self.action {
            Some(a) => a.ty == ActionType::Clicked && self.shape.spec_contains(p),
            None => false,
        }
    }
}

impl View for Button {
    type V = ButtonView;

    open spec fn view(&self) -> ButtonView {
        ButtonView {
            shape: self.shape,
            action: match self.action {
                Some(a) => Some(a@),
                None => None,
            },
        }
    }
}

impl DeepView for Button {
    type V = ButtonView;

    open spec fn deep_view(&self) -> ButtonView {
        self.view()
    }
}

impl Button {
    /// The button with the outline `shape` that sets off `action`.
    pub fn new(shape: Shape, action: Option<Action>) -> (b: Button)
        ensures
            b.shape == shape,
            b.action == action,
    {
        Button { shape, action }
    }

    /// The action to run for a click at `v`: the button's own when the click
    /// sets it off, and none otherwise.
    pub fn clicked(&self, v: Vector) -> (run: Option<&Action>)
        ensures
            match run {
                Some(a) => self@.fires(v) && self.action == Some(*a),
                None => !self@.fires(v),
            },
    {
        match &self.action {
            Some(a) => {
                if a.ty == ActionType::Clicked && self.shape.contains(v) {
                    Some(a)
                } else {
                    None
                }
            },
            None => None,
        }
    }
}

} // verus!
