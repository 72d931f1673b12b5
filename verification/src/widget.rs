use vstd::prelude::*;
use vstd::utf8::encode_utf8;
use crate::action::{Action, ActionType, ActionView};
use crate::color::{parsed, Color};
use crate::decoder::{ShapeWidgetConfig, Shapes, ToolWidgetConfig, WidgetConfig};
use crate::error::CoreError;
use crate::shape::{Rectangle, Shape, ShapeFormat, Triangle};
use crate::tools::{Button, ButtonView};
use crate::vector::Vector;

verus! {

/// A size in whole pixels.
#[derive(Debug, Clone, Copy, PartialEq, Eq, Structural)]
pub struct Extent {
    pub width: u32,
    pub height: u32,
}

/// One window's scene: the shapes that decorate it and the buttons that can
/// be clicked, in the order in which they are drawn.
#[derive(Debug, Clone)]
pub struct Widget {
    /// The size of the window.
    pub bound: Extent,
    /// Where the window goes on the screen.
    pub position: Vector,
    /// The background colour.
    pub color: Color,
    pub shapes: Vec<Shape>,
    pub buttons: Vec<Button>,
}

/// What a `Widget` holds, as plain values.
pub struct WidgetView {
    pub bound: Extent,
    pub position: Vector,
    pub color: Color,
    pub shapes: Seq<Shape>,
    pub buttons: Seq<ButtonView>,
}

impl View for Widget {
    type V = WidgetView;

    open spec fn view(&self) -> WidgetView {
        WidgetView {
            bound: self.bound,
            position: self.position,
            color: self.color,
            shapes: self.shapes@,
            buttons: self.buttons.deep_view(),
        }
    }
}

/// The uncoloured point at the `i`-th pair of `coords`.
pub open spec fn corner(coords: Seq<i32>, i: int) -> Vector {
    Vector { x: coords[2 * i], y: coords[2 * i + 1], color: Color { r: 0, g: 0, b: 0, a: 0 } }
}

/// The colour that a colour string stands for; without a string, `fallback`.
pub open spec fn color_of(color: Option<String>, fallback: Color) -> Result<Color, CoreError> {
    match color {
        None => Ok(fallback),
        Some(c) => parsed(encode_utf8(c@)),
    }
}

/// `shape` with the colour that `color` stands for at every vertex; without
/// a string, `shape` as it is.
pub open spec fn tinted(shape: Shape, color: Option<String>) -> Result<Shape, CoreError> {
    match color {
        None => Ok(shape),
        Some(c) => match parsed(encode_utf8(c@)) {
            Ok(c) => Ok(shape.spec_with_color(c)),
            Err(e) => Err(e),
        },
    }
}

/// The shape that a descriptor stands for. The number of coordinates is
/// checked first, then the colour. Every shape is filled, whatever format
/// the descriptor asks for.
pub open spec fn shape_of(d: ShapeWidgetConfig) -> Result<Shape, CoreError> {
    match d.shape_type {
        Shapes::Triangle => if d.shape@.len() != 6 {
            Err(CoreError::InvalidShapeFormat)
        } else {
            tinted(
                Shape::Triangle(
                    Triangle {
                        a: corner(d.shape@, 0),
                        b: corner(d.shape@, 1),
                        c: corner(d.shape@, 2),
                        format: ShapeFormat::Fill,
                    },
                ),
                d.color,
            )
        },
        Shapes::Rectangle => if d.shape@.len() != 4 {
            Err(CoreError::InvalidShapeFormat)
        } else {
            tinted(
                Shape::Rectangle(
                    Rectangle {
                        min: corner(d.shape@, 0),
                        max: corner(d.shape@, 1),
                        format: ShapeFormat::Fill,
                    },
                ),
                d.color,
            )
        },
    }
}

/// The action that an action descriptor stands for.
pub open spec fn action_of(a: crate::decoder::Action) -> ActionView {
    ActionView {
        ty: ActionType::Clicked,
        program: a.action@,
        arguments: match a.args {
            Some(args) => args.deep_view(),
            None => Seq::empty(),
        },
    }
}

/// The button that a tool descriptor stands for: a rectangle, coloured as
/// a shape is, with the described action.
pub open spec fn button_of(t: ToolWidgetConfig) -> Result<ButtonView, CoreError> {
    if t.shape@.len() != 4 {
        Err(CoreError::InvalidShapeFormat)
    } else {
        match tinted(
            Shape::Rectangle(
                Rectangle {
                    min: corner(t.shape@, 0),
                    max: corner(t.shape@, 1),
                    format: ShapeFormat::Fill,
                },
            ),
            t.color,
        ) {
            Err(e) => Err(e),
            Ok(shape) => Ok(
                ButtonView {
                    shape,
                    action: match t.action {
                        Some(a) => Some(action_of(a)),
                        None => None,
                    },
                },
            ),
        }
    }
}

/// The shapes that a list of descriptors stands for, in the same order, or
/// the complaint about the first descriptor that stands for none.
pub open spec fn shapes_of(ds: Seq<ShapeWidgetConfig>) -> Result<Seq<Shape>, CoreError>
    decreases ds.len(),
{
    if ds.len() == 0 {
        Ok(Seq::empty())
    } else {
        match shapes_of(ds.drop_last()) {
            Err(e) => Err(e),
            Ok(shapes) => match shape_of(ds.last()) {
                Err(e) => Err(e),
                Ok(s) => Ok(shapes.push(s)),
            },
        }
    }
}

/// The buttons that a list of tool descriptors stands for, in the same
/// order, or the complaint about the first descriptor that stands for none.
pub open spec fn buttons_of(ts: Seq<ToolWidgetConfig>) -> Result<Seq<ButtonView>, CoreError>
    decreases ts.len(),
{
    if ts.len() == 0 {
        Ok(Seq::empty())
    } else {
        match buttons_of(ts.drop_last()) {
            Err(e) => Err(e),
            Ok(buttons) => match button_of(ts.last()) {
                Err(e) => Err(e),
                Ok(b) => Ok(buttons.push(b)),
            },
        }
    }
}

/// The items of an optional list; none when the list is absent.
pub open spec fn listed<T>(list: Option<Vec<T>>) -> Seq<T> {
    match list {
        Some(v) => v@,
        None => Seq::empty(),
    }
}

/// The widget that a configuration record stands for. The background
/// colour is read first, then the shapes in order, then the tools in order;
/// the first complaint ends the reading. Without a background colour the
/// widget is fully transparent.
pub open spec fn widget_of(config: WidgetConfig) -> Result<WidgetView, CoreError> {
    match color_of(config.color, Color { r: 0, g: 0, b: 0, a: 0 }) {
        Err(e) => Err(e),
        Ok(color) => match shapes_of(listed(config.shape)) {
            Err(e) => Err(e),
            Ok(shapes) => match buttons_of(listed(config.tool)) {
                Err(e) => Err(e),
                Ok(buttons) => Ok(
                    WidgetView {
                        bound: Extent { width: config.width, height: config.height },
                        position: Vector {
                            x: config.position[0],
                            y: config.position[1],
                            color: Color { r: 0, g: 0, b: 0, a: 0 },
                        },
                        color,
                        shapes,
                        buttons,
                    },
                ),
            },
        },
    }
}

/// The vertices of `shapes` one after the other, or the complaint of the
/// first shape that has none to give.
pub open spec fn vertices_of(shapes: Seq<Shape>) -> Result<Seq<Vector>, CoreError>
    decreases shapes.len(),
{
    if shapes.len() == 0 {
        Ok(Seq::empty())
    } else {
        match vertices_of(shapes.drop_last()) {
            Err(e) => Err(e),
            Ok(before) => match shapes.last().spec_vertices() {
                Err(e) => Err(e),
                Ok(v) => Ok(before + v),
            },
        }
    }
}

/// The actions that a click at `p` sets off among `buttons`, in the order
/// of the buttons. Buttons that overlap all fire.
pub open spec fn fired(buttons: Seq<ButtonView>, p: Vector) -> Seq<ActionView>
    decreases buttons.len(),
{
    if buttons.len() == 0 {
        Seq::empty()
    } else if buttons.last().fires(p) {
        fired(buttons.drop_last(), p).push(buttons.last().action.unwrap())
    } else {
        fired(buttons.drop_last(), p)
    }
}

impl WidgetView {
    /// Everything that is drawn, in drawing order: the shapes, then the
    /// shapes of the buttons. What comes later paints over what came before.
    pub open spec fn drawn(self) -> Seq<Shape> {
        self.shapes + Seq::new(self.buttons.len(), |i: int| self.buttons[i].shape)
    }

    /// The vertices that draw the widget.
    pub open spec fn vertices(self) -> Result<Seq<Vector>, CoreError> {
        vertices_of(self.drawn())
    }
}

/// Colours `shape` as the colour string says, if there is one.
pub fn tint(shape: Shape, color: &Option<String>) -> (r: Result<Shape, CoreError>)
    ensures
        r == tinted(shape, *color),
{
    match color {
        None => Ok(shape),
        Some(c) => match Color::parse(c.as_str()) {
            Ok(c) => Ok(shape.with_color(c)),
            Err(e) => Err(e),
        },
    }
}

/// Builds the shape that the descriptor `d` stands for.
pub fn build_shape(d: &ShapeWidgetConfig) -> (r: Result<Shape, CoreError>)
    ensures
        r == shape_of(*d),
{
    match d.shape_type {
        Shapes::Triangle => {
            if d.shape.len() != 6 {
                return Err(CoreError::InvalidShapeFormat);
            }
            let triangle = Triangle::new(
                Vector::new(d.shape[0], d.shape[1]),
                Vector::new(d.shape[2], d.shape[3]),
                Vector::new(d.shape[4], d.shape[5]),
            );
            tint(Shape::Triangle(triangle), &d.color)
        },
        Shapes::Rectangle => {
            if d.shape.len() != 4 {
                return Err(CoreError::InvalidShapeFormat);
            }
            let rectangle = Rectangle::new(
                Vector::new(d.shape[0], d.shape[1]),
                Vector::new(d.shape[2], d.shape[3]),
            );
            tint(Shape::Rectangle(rectangle), &d.color)
        },
    }
}

fn copy_strings(list: &Vec<String>) -> (copy: Vec<String>)
    ensures
        copy.deep_view() == list.deep_view(),
{
    let mut copy: Vec<String> = Vec::new();
    let mut i: usize = 0;
    while i < list.len()
        invariant
            i <= list.len(),
            copy.len() == i,
            forall|j: int| 0 <= j < i ==> copy@[j]@ == list@[j]@,
        decreases list.len() - i,
    {
        copy.push(list[i].clone());
        i += 1;
    }
    assert(copy.deep_view() =~= list.deep_view());
    copy
}

/// Builds the action that the descriptor `a` stands for.
pub fn build_action(a: &crate::decoder::Action) -> (action: Action)
    ensures
        action@ == action_of(*a),
{
    let mut action = Action::new(a.action.clone(), ActionType::Clicked);
    match &a.args {
        Some(args) => {
            let copy = copy_strings(args);
            action.args(copy);
            assert(action@.arguments =~= args.deep_view());
        },
        None => {},
    }
    action
}

/// Builds the button that the tool descriptor `t` stands for.
pub fn build_button(t: &ToolWidgetConfig) -> (r: Result<Button, CoreError>)
    ensures
        match r {
            Ok(b) => button_of(*t) == Ok::<ButtonView, CoreError>(b@),
            Err(e) => button_of(*t) == Err::<ButtonView, CoreError>(e),
        },
{
    if t.shape.len() != 4 {
        return Err(CoreError::InvalidShapeFormat);
    }
    let rectangle = Rectangle::new(
        Vector::new(t.shape[0], t.shape[1]),
        Vector::new(t.shape[2], t.shape[3]),
    );
    match tint(Shape::Rectangle(rectangle), &t.color) {
        Err(e) => Err(e),
        Ok(shape) => {
            let action = match &t.action {
                Some(a) => Some(build_action(a)),
                None => None,
            };
            Ok(Button::new(shape, action))
        },
    }
}

impl Widget {
    /// Builds the widget that `config` stands for, or says what is wrong
    /// with the first part of `config` that stands for nothing.
    pub fn new(config: WidgetConfig) -> (r: Result<Widget, CoreError>)
        ensures
            match r {
                Ok(w) => widget_of(config) == Ok::<WidgetView, CoreError>(w@),
                Err(e) => widget_of(config) == Err::<WidgetView, CoreError>(e),
            },
    {
        let mut widget = Widget {
            bound: Extent { width: config.width, height: config.height },
            position: Vector::new(config.position[0], config.position[1]),
            color: Color::default(),
            shapes: Vec::new(),
            buttons: Vec::new(),
        };
        match &config.color {
            Some(c) => match Color::parse(c.as_str()) {
                Ok(c) => {
                    widget.color = c;
                },
                Err(e) => {
                    return Err(e);
                },
            },
            None => {},
        }
        match &config.shape {
            Some(shapes) => {
                let mut i: usize = 0;
                assert(shapes@.take(0) =~= Seq::empty());
                while i < shapes.len()
                    invariant
                        i <= shapes.len(),
                        listed(config.shape) == shapes@,
                        shapes_of(shapes@.take(i as int)) == Ok::<Seq<Shape>, CoreError>(
                            widget.shapes@,
                        ),
                        widget.bound == (Extent { width: config.width, height: config.height }),
                        widget.position == (Vector {
                            x: config.position[0],
                            y: config.position[1],
                            color: Color { r: 0, g: 0, b: 0, a: 0 },
                        }),
                        color_of(config.color, Color { r: 0, g: 0, b: 0, a: 0 }) == Ok::<
                            Color,
                            CoreError,
                        >(widget.color),
                        widget.buttons@.len() == 0,
                    decreases shapes.len() - i,
                {
                    proof {
                        let next = shapes@.take(i as int + 1);
                        assert(next.drop_last() =~= shapes@.take(i as int));
                        assert(next.last() == shapes@[i as int]);
                    }
                    match build_shape(&shapes[i]) {
                        Ok(s) => {
                            widget.shapes.push(s);
                        },
                        Err(e) => {
                            proof {
                                lemma_shapes_fail(shapes@, i as int + 1);
                            }
                            return Err(e);
                        },
                    }
                    i += 1;
                }
                assert(shapes@.take(i as int) =~= shapes@);
            },
            None => {},
        }
        match &config.tool {
            Some(tools) => {
                let mut i: usize = 0;
                assert(tools@.take(0) =~= Seq::empty());
                assert(widget.buttons.deep_view() =~= Seq::empty());
                while i < tools.len()
                    invariant
                        i <= tools.len(),
                        listed(config.tool) == tools@,
                        buttons_of(tools@.take(i as int)) == Ok::<Seq<ButtonView>, CoreError>(
                            widget.buttons.deep_view(),
                        ),
                        shapes_of(listed(config.shape)) == Ok::<Seq<Shape>, CoreError>(
                            widget.shapes@,
                        ),
                        widget.bound == (Extent { width: config.width, height: config.height }),
                        widget.position == (Vector {
                            x: config.position[0],
                            y: config.position[1],
                            color: Color { r: 0, g: 0, b: 0, a: 0 },
                        }),
                        color_of(config.color, Color { r: 0, g: 0, b: 0, a: 0 }) == Ok::<
                            Color,
                            CoreError,
                        >(widget.color),
                    decreases tools.len() - i,
                {
                    proof {
                        let next = tools@.take(i as int + 1);
                        assert(next.drop_last() =~= tools@.take(i as int));
                        assert(next.last() == tools@[i as int]);
                    }
                    match build_button(&tools[i]) {
                        Ok(b) => {
                            let ghost before = widget.buttons.deep_view();
                            widget.buttons.push(b);
                            assert(widget.buttons.deep_view() =~= before.push(b@));
                        },
                        Err(e) => {
                            proof {
                                lemma_buttons_fail(tools@, i as int + 1);
                            }
                            return Err(e);
                        },
                    }
                    i += 1;
                }
                assert(tools@.take(i as int) =~= tools@);
            },
            None => {
                assert(widget.buttons.deep_view() =~= Seq::empty());
            },
        }
        Ok(widget)
    }

    /// The vertices to submit to draw the widget as one list of triangles:
    /// those of the shapes in order, then those of the buttons in order.
    pub fn to_vertex_list(&self) -> (r: Result<Vec<Vector>, CoreError>)
        ensures
            match r {
                Ok(v) => self@.vertices() == Ok::<Seq<Vector>, CoreError>(v@),
                Err(e) => self@.vertices() == Err::<Seq<Vector>, CoreError>(e),
            },
    {
        let ghost drawn = self@.drawn();
        let mut out: Vec<Vector> = Vec::new();
        let mut i: usize = 0;
        assert(drawn.take(0) =~= Seq::empty());
        while i < self.shapes.len()
            invariant
                i <= self.shapes.len(),
                drawn == self@.drawn(),
                vertices_of(drawn.take(i as int)) == Ok::<Seq<Vector>, CoreError>(out@),
            decreases self.shapes.len() - i,
        {
            proof {
                let next = drawn.take(i as int + 1);
                assert(next.drop_last() =~= drawn.take(i as int));
                assert(next.last() == self.shapes@[i as int]);
            }
            match self.shapes[i].to_vertex_list() {
                Ok(mut v) => {
                    out.append(&mut v);
                },
                Err(e) => {
                    proof {
                        lemma_vertices_fail(drawn, i as int + 1);
                    }
                    return Err(e);
                },
            }
            i += 1;
        }
        let mut j: usize = 0;
        while j < self.buttons.len()
            invariant
                j <= self.buttons.len(),
                drawn == self@.drawn(),
                vertices_of(drawn.take(self.shapes.len() + j)) == Ok::<Seq<Vector>, CoreError>(
                    out@,
                ),
            decreases self.buttons.len() - j,
        {
            proof {
                let next = drawn.take(self.shapes.len() + j + 1);
                assert(next.drop_last() =~= drawn.take(self.shapes.len() + j));
                assert(next.last() == self.buttons@[j as int].shape);
            }
            match self.buttons[j].shape.to_vertex_list() {
                Ok(mut v) => {
                    out.append(&mut v);
                },
                Err(e) => {
                    proof {
                        lemma_vertices_fail(drawn, self.shapes.len() + j + 1);
                    }
                    return Err(e);
                },
            }
            j += 1;
        }
        assert(drawn.take(self.shapes.len() + j) =~= drawn);
        Ok(out)
    }

    /// The actions to run for a click at `p`, given in widget-local units:
    /// those of the buttons that the click sets off, in the order of the
    /// buttons.
    pub fn clicked(&self, p: Vector) -> (run: Vec<&Action>)
        ensures
            run.deep_view() == fired(self@.buttons, p),
    {
        let ghost buttons = self@.buttons;
        let mut run: Vec<&Action> = Vec::new();
        let mut i: usize = 0;
        assert(buttons.take(0) =~= Seq::empty());
        assert(run.deep_view() =~= Seq::empty());
        while i < self.buttons.len()
            invariant
                i <= self.buttons.len(),
                buttons == self@.buttons,
                run.deep_view() == fired(buttons.take(i as int), p),
            decreases self.buttons.len() - i,
        {
            proof {
                let next = buttons.take(i as int + 1);
                assert(next.drop_last() =~= buttons.take(i as int));
                assert(next.last() == self.buttons@[i as int]@);
            }
            match self.buttons[i].clicked(p) {
                Some(a) => {
                    let ghost before = run.deep_view();
                    run.push(a);
                    assert(run.deep_view() =~= before.push(a@));
                },
                None => {},
            }
            i += 1;
        }
        assert(buttons.take(i as int) =~= buttons);
        run
    }
}

/// A complaint about the first `n` shapes is the complaint about all.
proof fn lemma_vertices_fail(shapes: Seq<Shape>, n: int)
    requires
        0 <= n <= shapes.len(),
        vertices_of(shapes.take(n)) is Err,
    ensures
        vertices_of(shapes) == vertices_of(shapes.take(n)),
    decreases shapes.len() - n,
{
    if n < shapes.len() {
        let next = shapes.take(n + 1);
        assert(next.drop_last() =~= shapes.take(n));
        lemma_vertices_fail(shapes, n + 1);
    } else {
        assert(shapes.take(n) =~= shapes);
    }
}

/// A complaint about the first `n` descriptors is the complaint about all.
proof fn lemma_shapes_fail(ds: Seq<ShapeWidgetConfig>, n: int)
    requires
        0 <= n <= ds.len(),
        shapes_of(ds.take(n)) is Err,
    ensures
        shapes_of(ds) == shapes_of(ds.take(n)),
    decreases ds.len() - n,
{
    if n < ds.len() {
        let next = ds.take(n + 1);
        assert(next.drop_last() =~= ds.take(n));
        lemma_shapes_fail(ds, n + 1);
    } else {
        assert(ds.take(n) =~= ds);
    }
}

/// A complaint about the first `n` tool descriptors is the complaint about all.
proof fn lemma_buttons_fail(ts: Seq<ToolWidgetConfig>, n: int)
    requires
        0 <= n <= ts.len(),
        buttons_of(ts.take(n)) is Err,
    ensures
        buttons_of(ts) == buttons_of(ts.take(n)),
    decreases ts.len() - n,
{
    if n < ts.len() {
        let next = ts.take(n + 1);
        assert(next.drop_last() =~= ts.take(n));
        lemma_buttons_fail(ts, n + 1);
    } else {
        assert(ts.take(n) =~= ts);
    }
}

} // verus!
