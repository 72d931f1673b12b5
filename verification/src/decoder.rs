use vstd::prelude::*;

verus! {

/// The kinds of shape that a widget file can describe.
#[derive(Debug, Clone, Copy, PartialEq, Eq, Structural)]
pub enum Shapes {
    Triangle,
    Rectangle,
}

/// How a described shape asks to be drawn.
#[derive(Debug, Clone, Copy, PartialEq, Eq, Structural)]
pub enum Format {
    Fill,
    Line,
}

/// The kinds of tool that a widget file can describe.
#[derive(Debug, Clone, Copy, PartialEq, Eq, Structural)]
pub enum Tools {
    Button,
}

/// The events that a described action can answer to.
#[derive(Debug, Clone, Copy, PartialEq, Eq, Structural)]
pub enum Type {
    Clicked,
}

/// The description of a program to start.
#[derive(Debug, Clone)]
pub struct Action {
    /// The program.
    pub action: String,
    /// Its arguments, if it takes any.
    pub args: Option<Vec<String>>,
    /// The event that starts it.
    pub ty: Type,
}

/// The description of one decorative shape.
#[derive(Debug, Clone)]
pub struct ShapeWidgetConfig {
    pub shape_type: Shapes,
    /// The coordinates of the corners, in widget-local units: `x` then `y`
    /// of each, six numbers for a triangle and four for a rectangle.
    pub shape: Vec<i32>,
    /// The colour, as `#RRGGBBAA`.
    pub color: Option<String>,
    pub format: Option<Format>,
}

/// The description of one tool.
#[derive(Debug, Clone)]
pub struct ToolWidgetConfig {
    pub ty: Tools,
    /// The two corners of the tool's rectangle, four numbers.
    pub shape: Vec<i32>,
    /// The colour, as `#RRGGBBAA`.
    pub color: Option<String>,
    pub action: Option<Action>,
}

/// The description of one widget, as it is read from a widget file.
#[derive(Debug, Clone)]
pub struct WidgetConfig {
    pub name: Option<String>,
    /// The size of the window in pixels.
    pub width: u32,
    pub height: u32,
    /// Where the top left corner of the window goes on the screen.
    pub position: [i32; 2],
    /// The background colour, as `#RRGGBBAA`.
    pub color: Option<String>,
    pub shape: Option<Vec<ShapeWidgetConfig>>,
    pub tool: Option<Vec<ToolWidgetConfig>>,
}

} // verus!
