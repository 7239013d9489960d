//! The callback bridge: host closures that the foreign scheduler calls once
//! per frame.
//!
//! The host keeps each closure and makes the foreign-side shim for it; the
//! bridge keeps the books: which callbacks are registered, in which order
//! they were, and what a call of a shim delivers to its closure. A handle
//! must be kept for as long as the scheduler may call its shim. Dropping it
//! without unregistering is an error of the caller: nothing here unregisters
//! on its own, since the scheduler gives no sign that it will call no more.
use vstd::prelude::*;
use crate::error::ConversionError;
use crate::facade::Ticker;
use crate::handle::{argument_views, ForeignHandle, Invocation, InvocationView};
use crate::value::{ForeignReference, Kind, Number, Value, ValueView};

verus! {

/// The token for one registered callback: the number under which the host
/// keeps the closure, the foreign-side shim that calls it, and the scheduler
/// that the shim was handed to.
#[derive(Clone, Copy, Debug, PartialEq, Eq, Structural)]
pub struct CallbackHandle {
    pub id: u64,
    pub shim: ForeignReference,
    pub scheduler: ForeignReference,
}

/// The call that hands a shim to a scheduler, with no context and no
/// priority.
pub open spec fn add_call(scheduler: ForeignReference, shim: ForeignReference) -> InvocationView {
    InvocationView {
        target: scheduler,
        method: "add"@,
        arguments: seq![ValueView::Function(shim), ValueView::Undefined, ValueView::Undefined],
    }
}

/// The call that takes a handle's shim back from its scheduler.
pub open spec fn remove_call(handle: CallbackHandle) -> InvocationView {
    InvocationView {
        target: handle.scheduler,
        method: "remove"@,
        arguments: seq![ValueView::Function(handle.shim), ValueView::Undefined],
    }
}

/// One call of a closure: which one, and the frame's delta.
#[derive(Clone, Copy, Debug, PartialEq, Eq, Structural)]
pub struct Dispatch {
    pub handle: CallbackHandle,
    pub delta: Number,
}

/// The mathematical content of a bridge: how many handles it has issued, and
/// the registered ones in the order of their registration.
pub ghost struct BridgeView {
    pub issued: nat,
    pub registered: Seq<CallbackHandle>,
}

/// The test that every handle passes but those with the number of `handle`.
pub open spec fn other_than(handle: CallbackHandle) -> spec_fn(CallbackHandle) -> bool {
    |other: CallbackHandle| other.id != handle.id
}

impl BridgeView {
    /// Whether a callback is registered under the handle's number.
    pub open spec fn is_registered(self, handle: CallbackHandle) -> bool {
        exists|i: int| 0 <= i < self.registered.len() && (#[trigger] self.registered[i]).id
            == handle.id
    }

    /// The handle that the next registration gets.
    pub open spec fn next_handle(self, scheduler: ForeignReference, shim: ForeignReference)
        -> CallbackHandle {
        CallbackHandle { id: self.issued as u64, shim, scheduler }
    }

    /// The bridge after a callback was registered for `shim`: it gets the
    /// next number and the last place.
    pub open spec fn register(self, scheduler: ForeignReference, shim: ForeignReference)
        -> BridgeView {
        BridgeView {
            issued: self.issued + 1,
            registered: self.registered.push(self.next_handle(scheduler, shim)),
        }
    }

    /// The bridge after a handle was unregistered: the others stay, in their
    /// order.
    pub open spec fn unregister(self, handle: CallbackHandle) -> BridgeView {
        BridgeView {
            issued: self.issued,
            registered: self.registered.filter(other_than(handle)),
        }
    }

    /// The calls that one tick of the scheduler makes: one for each
    /// registered callback, in the order of registration, each with the
    /// tick's delta.
    pub open spec fn dispatched(self, delta: Number) -> Seq<Dispatch> {
        self.registered.map_values(|handle: CallbackHandle| Dispatch { handle, delta })
    }
}

/// What a shim hands to its closure: the first argument of the call, which
/// must be a number. A call without arguments passes `undefined`.
pub open spec fn shim_delta(arguments: Seq<ValueView>) -> Result<Number, ConversionError> {
    if arguments.len() == 0 {
        Err(ConversionError { expected: Kind::Number, found: Kind::Undefined })
    } else {
        match arguments[0] {
            ValueView::Number(number) => Ok(number),
            other => Err(ConversionError { expected: Kind::Number, found: other.kind() }),
        }
    }
}

/// What a call of a shim delivers: nothing for a callback that is not
/// registered, and else the delta for its closure.
pub open spec fn delivered(bridge: BridgeView, handle: CallbackHandle, arguments: Seq<ValueView>)
    -> Result<Option<Number>, ConversionError> {
    if !bridge.is_registered(handle) {
        Ok(None)
    } else {
        match shim_delta(arguments) {
            Ok(number) => Ok(Some(number)),
            Err(error) => Err(error),
        }
    }
}

/// The books of the registered callbacks.
pub struct CallbackBridge {
    issued: u64,
    registered: Vec<CallbackHandle>,
}

impl View for CallbackBridge {
    type V = BridgeView;

    closed spec fn view(&self) -> BridgeView {
        BridgeView { issued: self.issued as nat, registered: self.registered@ }
    }
}

impl CallbackBridge {
    #[verifier::type_invariant]
    spec fn numbered(self) -> bool {
        forall|i: int|
            0 <= i < self.registered@.len() ==> (#[trigger] self.registered@[i]).id < self.issued
    }

    /// A bridge without callbacks.
    pub fn new() -> (bridge: CallbackBridge)
        ensures
            bridge@ == (BridgeView { issued: 0, registered: Seq::empty() }),
    {
        CallbackBridge { issued: 0, registered: Vec::new() }
    }

    /// How many handles the bridge has issued.
    pub fn issued(&self) -> (count: u64)
        ensures
            count == self@.issued,
    {
        self.issued
    }

    /// Registers a callback with a scheduler. `shim` is the foreign-side
    /// function that the host has made for the closure. The answer is the
    /// handle, which carries a number that no handle of this bridge had
    /// before, and the call that hands the shim to the scheduler, which the
    /// host is to perform.
    pub fn register(&mut self, scheduler: &Ticker, shim: ForeignReference) -> (registration: (
        CallbackHandle,
        Invocation,
    ))
        requires
            old(self)@.issued < u64::MAX,
        ensures
            registration.0 == old(self)@.next_handle(scheduler.handle.reference, shim),
            registration.1@ == add_call(scheduler.handle.reference, shim),
            final(self)@ == old(self)@.register(scheduler.handle.reference, shim),
            !old(self)@.is_registered(registration.0),
            final(self)@.is_registered(registration.0),
    {
        proof {
            use_type_invariant(&*self);
        }
        let handle = CallbackHandle {
            id: self.issued,
            shim,
            scheduler: scheduler.handle.reference,
        };
        let mut registered: Vec<CallbackHandle> = Vec::new();
        std::mem::swap(&mut registered, &mut self.registered);
        registered.push(handle);
        *self = CallbackBridge { issued: self.issued + 1, registered };
        assert(self@.registered[self@.registered.len() - 1].id == handle.id);
        (handle, scheduler.add(shim, None))
    }

    /// Whether a callback is registered under the handle's number.
    pub fn is_registered(&self, handle: CallbackHandle) -> (answer: bool)
        ensures
            answer == self@.is_registered(handle),
    {
        let mut index: usize = 0;
        while index < self.registered.len()
            invariant
                index <= self.registered.len(),
                forall|i: int| 0 <= i < index ==> (#[trigger] self.registered@[i]).id != handle.id,
            decreases self.registered.len() - index,
        {
            if self.registered[index].id == handle.id {
                assert(self@.registered[index as int].id == handle.id);
                return true;
            }
            index += 1;
        }
        false
    }

    /// Unregisters a callback, so that its closure is never called again.
    /// For a callback that was registered, the answer is the call that takes
    /// its shim back from the scheduler, which the host is to perform.
    /// Unregistering once more changes nothing and answers with no call.
    pub fn unregister(&mut self, handle: CallbackHandle) -> (removal: Option<Invocation>)
        ensures
            removal is Some == old(self)@.is_registered(handle),
            removal is Some ==> removal->Some_0@ == remove_call(handle),
            final(self)@ == old(self)@.unregister(handle),
    {
        proof {
            use_type_invariant(&*self);
        }
        let was_registered = self.is_registered(handle);
        let mut kept: Vec<CallbackHandle> = Vec::new();
        let mut index: usize = 0;
        proof {
            reveal(Seq::filter);
        }
        while index < self.registered.len()
            invariant
                index <= self.registered.len(),
                kept@ == self.registered@.subrange(0, index as int).filter(other_than(handle)),
                forall|i: int| 0 <= i < kept@.len() ==> (#[trigger] kept@[i]).id < self.issued,
                forall|i: int|
                    0 <= i < self.registered@.len() ==> (#[trigger] self.registered@[i]).id
                        < self.issued,
            decreases self.registered.len() - index,
        {
            let current = self.registered[index];
            proof {
                reveal(Seq::filter);
                let longer = self.registered@.subrange(0, index + 1);
                assert(longer.drop_last() =~= self.registered@.subrange(0, index as int));
            }
            if current.id != handle.id {
                kept.push(current);
            }
            index += 1;
        }
        assert(self.registered@.subrange(0, index as int) =~= self.registered@);
        self.registered = kept;
        if was_registered {
            let scheduler = Ticker { handle: ForeignHandle { reference: handle.scheduler } };
            Some(scheduler.remove(handle.shim))
        } else {
            None
        }
    }

    /// The calls that one tick of the scheduler makes, in order.
    pub fn tick(&self, delta: Number) -> (dispatches: Vec<Dispatch>)
        ensures
            dispatches@ == self@.dispatched(delta),
    {
        let mut dispatches: Vec<Dispatch> = Vec::new();
        let mut index: usize = 0;
        while index < self.registered.len()
            invariant
                index <= self.registered.len(),
                dispatches@.len() == index,
                forall|i: int|
                    0 <= i < index ==> dispatches@[i] == (Dispatch {
                        handle: self.registered@[i],
                        delta,
                    }),
            decreases self.registered.len() - index,
        {
            dispatches.push(Dispatch { handle: self.registered[index], delta });
            index += 1;
        }
        dispatches
    }

    /// What a call of the handle's shim with `arguments` delivers to its
    /// closure: the foreign number, converted; or nothing, where the callback
    /// is no longer registered.
    pub fn deliver(&self, handle: CallbackHandle, arguments: &Vec<Value>) -> (outcome: Result<
        Option<Number>,
        ConversionError,
    >)
        ensures
            outcome == delivered(self@, handle, argument_views(arguments@)),
    {
        if !self.is_registered(handle) {
            return Ok(None);
        }
        if arguments.len() == 0 {
            return Err(ConversionError { expected: Kind::Number, found: Kind::Undefined });
        }
        match arguments[0].expect_number() {
            Ok(number) => Ok(Some(number)),
            Err(error) => Err(error),
        }
    }
}

/// The test that every call passes but those of the callback with the
/// number of `handle`.
pub open spec fn call_of_other_than(handle: CallbackHandle) -> spec_fn(Dispatch) -> bool {
    |dispatch: Dispatch| dispatch.handle.id != handle.id
}

proof fn lemma_filter_twice<A>(items: Seq<A>, keeps: spec_fn(A) -> bool)
    ensures
        items.filter(keeps).filter(keeps) == items.filter(keeps),
    decreases items.len(),
{
    reveal(Seq::filter);
    if items.len() > 0 {
        let shorter = items.drop_last();
        lemma_filter_twice(shorter, keeps);
        if keeps(items.last()) {
            let pushed = shorter.filter(keeps).push(items.last());
            assert(pushed.drop_last() =~= shorter.filter(keeps));
        }
    }
}

proof fn lemma_calls_of_kept(registered: Seq<CallbackHandle>, handle: CallbackHandle, delta: Number)
    ensures
        registered.filter(other_than(handle)).map_values(
            |kept: CallbackHandle| Dispatch { handle: kept, delta },
        ) == registered.map_values(|kept: CallbackHandle| Dispatch { handle: kept, delta }).filter(
            call_of_other_than(handle),
        ),
    decreases registered.len(),
{
    reveal(Seq::filter);
    let call = |kept: CallbackHandle| Dispatch { handle: kept, delta };
    if registered.len() > 0 {
        let shorter = registered.drop_last();
        lemma_calls_of_kept(shorter, handle, delta);
        assert(registered.map_values(call).drop_last() =~= shorter.map_values(call));
    }
}

/// Unregistering a handle twice leaves the bridge as unregistering it once.
pub proof fn lemma_unregister_is_idempotent(bridge: BridgeView, handle: CallbackHandle)
    ensures
        bridge.unregister(handle).unregister(handle) == bridge.unregister(handle),
        !bridge.unregister(handle).is_registered(handle),
{
    lemma_filter_twice(bridge.registered, other_than(handle));
    broadcast use Seq::lemma_filter_pred;

}

/// After a handle was unregistered, no tick calls its closure, and a call of
/// its shim delivers nothing.
pub proof fn lemma_unregistered_never_fires(
    bridge: BridgeView,
    handle: CallbackHandle,
    delta: Number,
    arguments: Seq<ValueView>,
)
    ensures
        forall|i: int|
            0 <= i < bridge.unregister(handle).dispatched(delta).len() ==> (
            #[trigger] bridge.unregister(handle).dispatched(delta)[i]).handle.id != handle.id,
        delivered(bridge.unregister(handle), handle, arguments) == Ok::<
            Option<Number>,
            ConversionError,
        >(None),
{
    lemma_unregister_is_idempotent(bridge, handle);
}

/// On every tick, whatever its delta, a callback that is registered is
/// called.
pub proof fn lemma_registered_fires_on_every_tick(
    bridge: BridgeView,
    handle: CallbackHandle,
    delta: Number,
)
    requires
        bridge.is_registered(handle),
    ensures
        exists|i: int|
            0 <= i < bridge.dispatched(delta).len() && (#[trigger] bridge.dispatched(
                delta,
            )[i]).handle.id == handle.id,
{
    let i = choose|i: int|
        0 <= i < bridge.registered.len() && (#[trigger] bridge.registered[i]).id == handle.id;
    assert(bridge.dispatched(delta)[i].handle.id == handle.id);
}

/// A tick calls every registered callback once, in the order of
/// registration, each with the tick's delta: a delta that is not negative
/// reaches every closure as such.
pub proof fn lemma_tick_calls_in_registration_order(bridge: BridgeView, delta: Number)
    ensures
        bridge.dispatched(delta).len() == bridge.registered.len(),
        forall|i: int|
            0 <= i < bridge.registered.len() ==> #[trigger] bridge.dispatched(delta)[i]
                == (Dispatch { handle: bridge.registered[i], delta }),
        delta.non_negative() ==> forall|i: int|
            0 <= i < bridge.dispatched(delta).len() ==> (#[trigger] bridge.dispatched(
                delta,
            )[i]).delta.non_negative(),
{
}

/// A callback that was just registered is called last: after every callback
/// that was registered before it, whose calls stay as they were.
pub proof fn lemma_registered_is_called_last(
    bridge: BridgeView,
    scheduler: ForeignReference,
    shim: ForeignReference,
    delta: Number,
)
    ensures
        bridge.register(scheduler, shim).dispatched(delta) == bridge.dispatched(delta).push(
            Dispatch { handle: bridge.next_handle(scheduler, shim), delta },
        ),
{
}

/// Unregistering a handle takes its calls out of a tick and leaves the calls
/// of every other callback, in their order.
pub proof fn lemma_unregister_keeps_the_others(
    bridge: BridgeView,
    handle: CallbackHandle,
    delta: Number,
)
    ensures
        bridge.unregister(handle).dispatched(delta) == bridge.dispatched(delta).filter(
            call_of_other_than(handle),
        ),
{
    lemma_calls_of_kept(bridge.registered, handle, delta);
}

} // verus!
