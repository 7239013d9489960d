//! The typed facades: for each foreign type a fixed catalogue of property
//! reads, property writes and prepared calls, each under the foreign
//! member's exact name and with every argument in its position.
use vstd::prelude::*;
use crate::error::{AccessError, ReferenceError, ShapeError, SymbolError};
use crate::graph::{GraphView, ObjectGraph};
use crate::handle::{
    argument_views,
    member_fits,
    number_read,
    optional_number_read,
    optional_write,
    reference_read,
    Construction,
    ConstructionView,
    ForeignHandle,
    Invocation,
    InvocationView,
};
use crate::value::{
    optional_boolean_view,
    optional_number_view,
    ForeignReference,
    Kind,
    Number,
    Value,
    ValueView,
};

verus! {

/// Whether the object has the shape of an application: a view, a stage, a
/// screen and a ticker, each an object.
pub open spec fn application_shape(graph: GraphView, reference: ForeignReference) -> bool {
    &&& member_fits(graph, reference, "view"@, Kind::Object)
    &&& member_fits(graph, reference, "stage"@, Kind::Object)
    &&& member_fits(graph, reference, "screen"@, Kind::Object)
    &&& member_fits(graph, reference, "ticker"@, Kind::Object)
}

/// Whether the object has the shape of a sprite: an anchor object, and the
/// numbers `x`, `y` and `rotation`.
pub open spec fn sprite_shape(graph: GraphView, reference: ForeignReference) -> bool {
    &&& member_fits(graph, reference, "anchor"@, Kind::Object)
    &&& member_fits(graph, reference, "x"@, Kind::Number)
    &&& member_fits(graph, reference, "y"@, Kind::Number)
    &&& member_fits(graph, reference, "rotation"@, Kind::Number)
}

/// What wrapping a reference yields, given whether the object has the shape
/// asked for: a stale reference is refused as such, a wrong shape as a
/// missing symbol.
pub open spec fn wrapped(graph: GraphView, reference: ForeignReference, shaped: bool) -> Result<
    ForeignHandle,
    ShapeError,
> {
    if !graph.is_live(reference) {
        Err(ShapeError::Reference(ReferenceError { reference }))
    } else if shaped {
        Ok(ForeignHandle { reference })
    } else {
        Err(ShapeError::Symbol(SymbolError::Missing))
    }
}

/// The nested object that a property read yields, as a handle.
pub open spec fn nested_handle(graph: GraphView, reference: ForeignReference, name: Seq<char>)
    -> Result<ForeignHandle, AccessError> {
    match reference_read(graph, reference, name) {
        Ok(nested) => Ok(ForeignHandle { reference: nested }),
        Err(error) => Err(error),
    }
}

fn nested(handle: &ForeignHandle, graph: &ObjectGraph, name: &str) -> (outcome: Result<
    ForeignHandle,
    AccessError,
>)
    ensures
        outcome == nested_handle(graph@, handle.reference, name@),
{
    match handle.get_reference(graph, name) {
        Ok(reference) => Ok(ForeignHandle { reference }),
        Err(error) => Err(error),
    }
}

/// The options that an application is constructed from. Every option is
/// optional: one that was never set is no key of the foreign object, so that
/// the foreign library applies its own default.
#[derive(Clone, Copy, Debug, PartialEq, Eq, Structural)]
pub struct ApplicationOptions {
    pub handle: ForeignHandle,
}

impl ApplicationOptions {
    /// Prepares the construction of an options object, without arguments.
    pub fn new(constructor: &ForeignHandle) -> (construction: Construction)
        ensures
            construction@ == (ConstructionView {
                constructor: constructor.reference,
                arguments: Seq::<ValueView>::empty(),
            }),
    {
        let arguments: Vec<Value> = Vec::new();
        assert(argument_views(arguments@) =~= Seq::<ValueView>::empty());
        constructor.construct(arguments)
    }

    /// Wraps the object that the construction returned.
    pub fn wrap(reference: ForeignReference) -> (options: ApplicationOptions)
        ensures
            options.handle.reference == reference,
    {
        ApplicationOptions { handle: ForeignHandle { reference } }
    }

    /// Sets the width of the rendering surface, or leaves it unset.
    pub fn set_width(&self, graph: &mut ObjectGraph, width: Option<Number>) -> (outcome: Result<
        (),
        ReferenceError,
    >)
        ensures
            old(graph)@.is_live(self.handle.reference) ==> outcome is Ok,
            !old(graph)@.is_live(self.handle.reference) ==> outcome == Err::<(), ReferenceError>(
                ReferenceError { reference: self.handle.reference },
            ),
            final(graph)@ == optional_write(
                old(graph)@,
                self.handle.reference,
                "width"@,
                width,
            ),
    {
        self.handle.set_optional_number(graph, "width", width)
    }

    /// Sets the height of the rendering surface, or leaves it unset.
    pub fn set_height(&self, graph: &mut ObjectGraph, height: Option<Number>) -> (outcome: Result<
        (),
        ReferenceError,
    >)
        ensures
            old(graph)@.is_live(self.handle.reference) ==> outcome is Ok,
            !old(graph)@.is_live(self.handle.reference) ==> outcome == Err::<(), ReferenceError>(
                ReferenceError { reference: self.handle.reference },
            ),
            final(graph)@ == optional_write(
                old(graph)@,
                self.handle.reference,
                "height"@,
                height,
            ),
    {
        self.handle.set_optional_number(graph, "height", height)
    }

    /// Sets the background colour, as a number of the form `0xRRGGBB`, or
    /// leaves it unset.
    pub fn set_background_color(&self, graph: &mut ObjectGraph, color: Option<Number>) -> (outcome:
        Result<(), ReferenceError>)
        ensures
            old(graph)@.is_live(self.handle.reference) ==> outcome is Ok,
            !old(graph)@.is_live(self.handle.reference) ==> outcome == Err::<(), ReferenceError>(
                ReferenceError { reference: self.handle.reference },
            ),
            final(graph)@ == optional_write(
                old(graph)@,
                self.handle.reference,
                "backgroundColor"@,
                color,
            ),
    {
        self.handle.set_optional_number(graph, "backgroundColor", color)
    }

    /// The width that was set, if any.
    pub fn get_width(&self, graph: &ObjectGraph) -> (outcome: Result<Option<Number>, AccessError>)
        ensures
            outcome == optional_number_read(graph@, self.handle.reference, "width"@),
    {
        self.handle.get_optional_number(graph, "width")
    }

    /// The height that was set, if any.
    pub fn get_height(&self, graph: &ObjectGraph) -> (outcome: Result<Option<Number>, AccessError>)
        ensures
            outcome == optional_number_read(graph@, self.handle.reference, "height"@),
    {
        self.handle.get_optional_number(graph, "height")
    }

    /// The background colour that was set, if any.
    pub fn get_background_color(&self, graph: &ObjectGraph) -> (outcome: Result<
        Option<Number>,
        AccessError,
    >)
        ensures
            outcome == optional_number_read(graph@, self.handle.reference, "backgroundColor"@),
    {
        self.handle.get_optional_number(graph, "backgroundColor")
    }
}

/// The rectangle that an application renders into.
#[derive(Clone, Copy, Debug, PartialEq, Eq, Structural)]
pub struct Screen {
    pub handle: ForeignHandle,
}

impl Screen {
    pub fn get_width(&self, graph: &ObjectGraph) -> (outcome: Result<Number, AccessError>)
        ensures
            outcome == number_read(graph@, self.handle.reference, "width"@),
    {
        self.handle.get_number(graph, "width")
    }

    pub fn get_height(&self, graph: &ObjectGraph) -> (outcome: Result<Number, AccessError>)
        ensures
            outcome == number_read(graph@, self.handle.reference, "height"@),
    {
        self.handle.get_number(graph, "height")
    }
}

/// The point of a sprite that its position refers to.
#[derive(Clone, Copy, Debug, PartialEq, Eq, Structural)]
pub struct Anchor {
    pub handle: ForeignHandle,
}

impl Anchor {
    /// Prepares the call that sets both coordinates. An absent coordinate is
    /// passed as an explicit `undefined`.
    pub fn set(&self, x: Option<Number>, y: Option<Number>) -> (invocation: Invocation)
        ensures
            invocation@ == (InvocationView {
                target: self.handle.reference,
                method: "set"@,
                arguments: seq![optional_number_view(x), optional_number_view(y)],
            }),
    {
        let mut arguments: Vec<Value> = Vec::new();
        arguments.push(Value::from_optional_number(x));
        arguments.push(Value::from_optional_number(y));
        assert(argument_views(arguments@) =~= seq![
            optional_number_view(x),
            optional_number_view(y),
        ]);
        self.handle.call_method("set", arguments)
    }
}

/// A textured object of the scene.
#[derive(Clone, Copy, Debug, PartialEq, Eq, Structural)]
pub struct Sprite {
    pub handle: ForeignHandle,
}

impl Sprite {
    /// Prepares the call of the factory that makes a sprite from an image
    /// path. The call names all three positions: an absent frame or
    /// cross-origin flag is passed as an explicit `undefined`.
    pub fn from_image(
        constructor: &ForeignHandle,
        path: &str,
        frame: Option<Number>,
        crossorigin: Option<bool>,
    ) -> (invocation: Invocation)
        ensures
            invocation@ == (InvocationView {
                target: constructor.reference,
                method: "fromImage"@,
                arguments: seq![
                    ValueView::Text(path@),
                    optional_number_view(frame),
                    optional_boolean_view(crossorigin),
                ],
            }),
    {
        let mut arguments: Vec<Value> = Vec::new();
        arguments.push(Value::from_text(path));
        arguments.push(Value::from_optional_number(frame));
        arguments.push(Value::from_optional_boolean(crossorigin));
        assert(argument_views(arguments@) =~= seq![
            ValueView::Text(path@),
            optional_number_view(frame),
            optional_boolean_view(crossorigin),
        ]);
        constructor.call_method("fromImage", arguments)
    }

    /// Wraps a reference as a sprite, after checking that the object has a
    /// sprite's shape.
    pub fn wrap(graph: &ObjectGraph, reference: ForeignReference) -> (outcome: Result<
        Sprite,
        ShapeError,
    >)
        ensures
            outcome == match wrapped(graph@, reference, sprite_shape(graph@, reference)) {
                Ok(handle) => Ok::<Sprite, ShapeError>(Sprite { handle }),
                Err(error) => Err::<Sprite, ShapeError>(error),
            },
    {
        let handle = ForeignHandle { reference };
        match handle.check_member(graph, "anchor", Kind::Object) {
            Err(error) => { return Err(error); },
            Ok(_) => {},
        }
        match handle.check_member(graph, "x", Kind::Number) {
            Err(error) => { return Err(error); },
            Ok(_) => {},
        }
        match handle.check_member(graph, "y", Kind::Number) {
            Err(error) => { return Err(error); },
            Ok(_) => {},
        }
        match handle.check_member(graph, "rotation", Kind::Number) {
            Err(error) => { return Err(error); },
            Ok(_) => {},
        }
        Ok(Sprite { handle })
    }

    pub fn get_anchor(&self, graph: &ObjectGraph) -> (outcome: Result<Anchor, AccessError>)
        ensures
            outcome == match nested_handle(graph@, self.handle.reference, "anchor"@) {
                Ok(handle) => Ok::<Anchor, AccessError>(Anchor { handle }),
                Err(error) => Err::<Anchor, AccessError>(error),
            },
    {
        match nested(&self.handle, graph, "anchor") {
            Ok(handle) => Ok(Anchor { handle }),
            Err(error) => Err(error),
        }
    }

    pub fn get_x(&self, graph: &ObjectGraph) -> (outcome: Result<Number, AccessError>)
        ensures
            outcome == number_read(graph@, self.handle.reference, "x"@),
    {
        self.handle.get_number(graph, "x")
    }

    pub fn set_x(&self, graph: &mut ObjectGraph, x: Number) -> (outcome: Result<
        (),
        ReferenceError,
    >)
        ensures
            old(graph)@.is_live(self.handle.reference) ==> outcome is Ok,
            !old(graph)@.is_live(self.handle.reference) ==> outcome == Err::<(), ReferenceError>(
                ReferenceError { reference: self.handle.reference },
            ),
            final(graph)@ == old(graph)@.write(self.handle.reference, "x"@, ValueView::Number(x)),
    {
        self.handle.set_number(graph, "x", x)
    }

    pub fn get_y(&self, graph: &ObjectGraph) -> (outcome: Result<Number, AccessError>)
        ensures
            outcome == number_read(graph@, self.handle.reference, "y"@),
    {
        self.handle.get_number(graph, "y")
    }

    pub fn set_y(&self, graph: &mut ObjectGraph, y: Number) -> (outcome: Result<
        (),
        ReferenceError,
    >)
        ensures
            old(graph)@.is_live(self.handle.reference) ==> outcome is Ok,
            !old(graph)@.is_live(self.handle.reference) ==> outcome == Err::<(), ReferenceError>(
                ReferenceError { reference: self.handle.reference },
            ),
            final(graph)@ == old(graph)@.write(self.handle.reference, "y"@, ValueView::Number(y)),
    {
        self.handle.set_number(graph, "y", y)
    }

    pub fn get_rotation(&self, graph: &ObjectGraph) -> (outcome: Result<Number, AccessError>)
        ensures
            outcome == number_read(graph@, self.handle.reference, "rotation"@),
    {
        self.handle.get_number(graph, "rotation")
    }

    pub fn set_rotation(&self, graph: &mut ObjectGraph, rotation: Number) -> (outcome: Result<
        (),
        ReferenceError,
    >)
        ensures
            old(graph)@.is_live(self.handle.reference) ==> outcome is Ok,
            !old(graph)@.is_live(self.handle.reference) ==> outcome == Err::<(), ReferenceError>(
                ReferenceError { reference: self.handle.reference },
            ),
            final(graph)@ == old(graph)@.write(
                self.handle.reference,
                "rotation"@,
                ValueView::Number(rotation),
            ),
    {
        self.handle.set_number(graph, "rotation", rotation)
    }
}

/// The root container of an application's scene.
#[derive(Clone, Copy, Debug, PartialEq, Eq, Structural)]
pub struct Stage {
    pub handle: ForeignHandle,
}

impl Stage {
    /// Prepares the call that adds a sprite to the scene.
    pub fn add_child(&self, child: &Sprite) -> (invocation: Invocation)
        ensures
            invocation@ == (InvocationView {
                target: self.handle.reference,
                method: "addChild"@,
                arguments: seq![ValueView::Object(child.handle.reference)],
            }),
    {
        let mut arguments: Vec<Value> = Vec::new();
        arguments.push(Value::Object(child.handle.reference));
        assert(argument_views(arguments@) =~= seq![
            ValueView::Object(child.handle.reference),
        ]);
        self.handle.call_method("addChild", arguments)
    }
}

/// The foreign scheduler, which calls back once per frame.
#[derive(Clone, Copy, Debug, PartialEq, Eq, Structural)]
pub struct Ticker {
    pub handle: ForeignHandle,
}

impl Ticker {
    /// Prepares the call that hands a shim to the scheduler. The context is
    /// always passed as an explicit `undefined`, and so is an absent
    /// priority.
    pub fn add(&self, shim: ForeignReference, priority: Option<Number>) -> (invocation: Invocation)
        ensures
            invocation@ == (InvocationView {
                target: self.handle.reference,
                method: "add"@,
                arguments: seq![
                    ValueView::Function(shim),
                    ValueView::Undefined,
                    optional_number_view(priority),
                ],
            }),
    {
        let mut arguments: Vec<Value> = Vec::new();
        arguments.push(Value::Function(shim));
        arguments.push(Value::Undefined);
        arguments.push(Value::from_optional_number(priority));
        assert(argument_views(arguments@) =~= seq![
            ValueView::Function(shim),
            ValueView::Undefined,
            optional_number_view(priority),
        ]);
        self.handle.call_method("add", arguments)
    }

    /// Prepares the call that takes a shim back from the scheduler.
    pub fn remove(&self, shim: ForeignReference) -> (invocation: Invocation)
        ensures
            invocation@ == (InvocationView {
                target: self.handle.reference,
                method: "remove"@,
                arguments: seq![ValueView::Function(shim), ValueView::Undefined],
            }),
    {
        let mut arguments: Vec<Value> = Vec::new();
        arguments.push(Value::Function(shim));
        arguments.push(Value::Undefined);
        assert(argument_views(arguments@) =~= seq![
            ValueView::Function(shim),
            ValueView::Undefined,
        ]);
        self.handle.call_method("remove", arguments)
    }
}

/// A running application: a rendering surface, a scene, and a scheduler.
#[derive(Clone, Copy, Debug, PartialEq, Eq, Structural)]
pub struct Application {
    pub handle: ForeignHandle,
}

impl Application {
    /// Prepares the construction of an application without arguments.
    pub fn new0(constructor: &ForeignHandle) -> (construction: Construction)
        ensures
            construction@ == (ConstructionView {
                constructor: constructor.reference,
                arguments: Seq::<ValueView>::empty(),
            }),
    {
        let arguments: Vec<Value> = Vec::new();
        assert(argument_views(arguments@) =~= Seq::<ValueView>::empty());
        constructor.construct(arguments)
    }

    /// Prepares the construction of an application from options. Absent
    /// options are passed as an explicit `undefined`.
    pub fn new1(constructor: &ForeignHandle, options: Option<&ApplicationOptions>) -> (construction:
        Construction)
        ensures
            construction@ == (ConstructionView {
                constructor: constructor.reference,
                arguments: seq![
                    match options {
                        Some(given) => ValueView::Object(given.handle.reference),
                        None => ValueView::Undefined,
                    },
                ],
            }),
    {
        let mut arguments: Vec<Value> = Vec::new();
        match options {
            Some(given) => arguments.push(Value::Object(given.handle.reference)),
            None => arguments.push(Value::Undefined),
        }
        assert(argument_views(arguments@) =~= seq![
            match options {
                Some(given) => ValueView::Object(given.handle.reference),
                None => ValueView::Undefined,
            },
        ]);
        constructor.construct(arguments)
    }

    /// Wraps a reference as an application, after checking that the object
    /// has an application's shape.
    pub fn wrap(graph: &ObjectGraph, reference: ForeignReference) -> (outcome: Result<
        Application,
        ShapeError,
    >)
        ensures
            outcome == match wrapped(graph@, reference, application_shape(graph@, reference)) {
                Ok(handle) => Ok::<Application, ShapeError>(Application { handle }),
                Err(error) => Err::<Application, ShapeError>(error),
            },
    {
        let handle = ForeignHandle { reference };
        match handle.check_member(graph, "view", Kind::Object) {
            Err(error) => { return Err(error); },
            Ok(_) => {},
        }
        match handle.check_member(graph, "stage", Kind::Object) {
            Err(error) => { return Err(error); },
            Ok(_) => {},
        }
        match handle.check_member(graph, "screen", Kind::Object) {
            Err(error) => { return Err(error); },
            Ok(_) => {},
        }
        match handle.check_member(graph, "ticker", Kind::Object) {
            Err(error) => { return Err(error); },
            Ok(_) => {},
        }
        Ok(Application { handle })
    }

    /// The rendering surface, which the host mounts into its document.
    pub fn get_view(&self, graph: &ObjectGraph) -> (outcome: Result<ForeignHandle, AccessError>)
        ensures
            outcome == nested_handle(graph@, self.handle.reference, "view"@),
    {
        nested(&self.handle, graph, "view")
    }

    pub fn get_stage(&self, graph: &ObjectGraph) -> (outcome: Result<Stage, AccessError>)
        ensures
            outcome == match nested_handle(graph@, self.handle.reference, "stage"@) {
                Ok(handle) => Ok::<Stage, AccessError>(Stage { handle }),
                Err(error) => Err::<Stage, AccessError>(error),
            },
    {
        match nested(&self.handle, graph, "stage") {
            Ok(handle) => Ok(Stage { handle }),
            Err(error) => Err(error),
        }
    }

    pub fn get_screen(&self, graph: &ObjectGraph) -> (outcome: Result<Screen, AccessError>)
        ensures
            outcome == match nested_handle(graph@, self.handle.reference, "screen"@) {
                Ok(handle) => Ok::<Screen, AccessError>(Screen { handle }),
                Err(error) => Err::<Screen, AccessError>(error),
            },
    {
        match nested(&self.handle, graph, "screen") {
            Ok(handle) => Ok(Screen { handle }),
            Err(error) => Err(error),
        }
    }

    pub fn get_ticker(&self, graph: &ObjectGraph) -> (outcome: Result<Ticker, AccessError>)
        ensures
            outcome == match nested_handle(graph@, self.handle.reference, "ticker"@) {
                Ok(handle) => Ok::<Ticker, AccessError>(Ticker { handle }),
                Err(error) => Err::<Ticker, AccessError>(error),
            },
    {
        match nested(&self.handle, graph, "ticker") {
            Ok(handle) => Ok(Ticker { handle }),
            Err(error) => Err(error),
        }
    }
}

} // verus!
