//! The runtime context of one thread: the chain of layers it is built from,
//! the states it goes through, and the values handed out of it.
//!
//! A context is a chain of four layers, each living inside the one before it:
//! the engine, the runtime, the execution context and the interpreter. The
//! host allocates and frees the layers; a [`ThreadRegistry`] decides in which
//! order, refuses a second context while one exists, and counts generations so
//! that a value handed out of a context is refused once that context is gone.

use crate::config::Config;
use crate::errors::LifecycleError;
use vstd::prelude::*;

verus! {

/// One layer of a runtime context, outermost first.
#[derive(Clone, Copy, Debug, PartialEq, Eq, Hash, Structural)]
pub enum Layer {
    /// The engine handle, which owns the native engine resources.
    Engine,
    /// The runtime, which binds the engine to one thread.
    Runtime,
    /// The execution context, which owns the interpreter stack and heap roots.
    Context,
    /// The interpreter and module system, which own the module loader.
    Interpreter,
}

/// The number of layers in a complete chain.
pub const LAYER_COUNT: u8 = 4;

/// The layer at position `i` of the chain, counted from the engine.
pub open spec fn layer_at(i: int) -> Layer {
    if i == 0 {
        Layer::Engine
    } else if i == 1 {
        Layer::Runtime
    } else if i == 2 {
        Layer::Context
    } else {
        Layer::Interpreter
    }
}

/// The first `n` layers of the chain, innermost first: the order they are
/// freed in.
pub open spec fn release_order(n: int) -> Seq<Layer> {
    Seq::new(n as nat, |i: int| layer_at(n - 1 - i))
}

/// Where the context of a thread stands.
#[derive(Clone, Copy, Debug, PartialEq, Eq, Structural)]
pub enum ContextState {
    /// No context has been created.
    Uninitialized,
    /// The context is being built; this many layers exist so far.
    Initializing(u8),
    /// The context is complete and may be used.
    Ready,
    /// The context has been torn down; a new one may be created.
    Disposed,
}

/// The mathematical value of a [`ThreadRegistry`].
pub struct RegistryView {
    /// The identity the host gave the registry, distinct for each registry.
    pub id: u64,
    pub state: ContextState,
    /// How many contexts have become ready so far.
    pub generation: u64,
    /// The configuration fixed by the first creation.
    pub config: Option<Config>,
}

/// What starting to create a context does: refused while one exists or is
/// being built; otherwise the engine is the first layer to allocate, and the
/// first configuration ever given stays in force.
pub open spec fn begin_outcome(m: RegistryView, requested: Config) -> (RegistryView, Result<Layer, LifecycleError>) {
    match m.state {
        ContextState::Ready | ContextState::Initializing(_) => (m, Err(LifecycleError::Conflict)),
        _ => (
            RegistryView {
                state: ContextState::Initializing(0),
                config: match m.config {
                    Some(c) => Some(c),
                    None => Some(requested),
                },
                ..m
            },
            Ok(Layer::Engine),
        ),
    }
}

/// What the allocation of the next layer does while `built` layers exist: the
/// layer after it is the next to allocate, and after the interpreter the
/// context is ready under a new generation.
pub open spec fn allocated_outcome(m: RegistryView, built: u8) -> (RegistryView, Option<Layer>) {
    if built + 1 == LAYER_COUNT {
        (RegistryView { state: ContextState::Ready, generation: (m.generation + 1) as u64, ..m }, None)
    } else {
        (RegistryView { state: ContextState::Initializing((built + 1) as u8), ..m }, Some(layer_at(built + 1)))
    }
}

/// What a failed allocation does while `built` layers exist: those layers are
/// freed, innermost first, and the thread is left with no context.
pub open spec fn failed_outcome(m: RegistryView, built: u8) -> (RegistryView, Seq<Layer>) {
    (RegistryView { state: ContextState::Uninitialized, ..m }, release_order(built as int))
}

/// What disposing does: a ready context is freed, innermost layer first;
/// in any other state nothing happens.
pub open spec fn dispose_outcome(m: RegistryView) -> (RegistryView, Seq<Layer>) {
    if m.state == ContextState::Ready {
        (RegistryView { state: ContextState::Disposed, ..m }, release_order(LAYER_COUNT as int))
    } else {
        (m, Seq::empty())
    }
}

/// Whether a value handed out by the registry `id` under `generation` may be
/// read: only while that registry's context of that generation is ready.
pub open spec fn readable(m: RegistryView, id: u64, generation: u64) -> bool {
    m.state == ContextState::Ready && id == m.id && generation == m.generation
}

/// The per-thread record of the runtime context.
pub struct ThreadRegistry {
    id: u64,
    state: ContextState,
    generation: u64,
    config: Option<Config>,
}

impl View for ThreadRegistry {
    type V = RegistryView;

    closed spec fn view(&self) -> RegistryView {
        RegistryView { id: self.id, state: self.state, generation: self.generation, config: self.config }
    }
}

/// Access to a ready context, for the length of one use of it.
pub struct Scope {
    registry: u64,
    generation: u64,
}

impl View for Scope {
    /// The registry and the generation of the context.
    type V = (u64, u64);

    closed spec fn view(&self) -> (u64, u64) {
        (self.registry, self.generation)
    }
}

/// A value produced inside a [`Scope`], valid while that scope lasts.
pub struct Scoped<V> {
    registry: u64,
    generation: u64,
    value: V,
}

impl<V> View for Scoped<V> {
    /// The registry and the generation of its context, and the value.
    type V = (u64, u64, V);

    closed spec fn view(&self) -> (u64, u64, V) {
        (self.registry, self.generation, self.value)
    }
}

/// A value handed out of a context, to be read back only through
/// [`ThreadRegistry::read`], which checks that its context still exists.
pub struct Promoted<V> {
    registry: u64,
    generation: u64,
    value: V,
}

impl<V> View for Promoted<V> {
    /// The registry and the generation of its context, and the value.
    type V = (u64, u64, V);

    closed spec fn view(&self) -> (u64, u64, V) {
        (self.registry, self.generation, self.value)
    }
}

/// Extends a value's lifetime from one use of the context to the life of the
/// context: the value is the same, only how long it may be kept changes.
pub trait ExtendLifetime: Sized + View {
    type Output: View<V = Self::V>;

    fn extend_lifetime(self) -> (r: Self::Output)
        ensures
            r@ == self@,
    ;
}

impl<V> ExtendLifetime for Scoped<V> {
    type Output = Promoted<V>;

    fn extend_lifetime(self) -> (r: Promoted<V>) {
        Promoted { registry: self.registry, generation: self.generation, value: self.value }
    }
}

impl Scope {
    /// The generation of the context this scope uses.
    pub fn generation(&self) -> (r: u64)
        ensures
            r == self@.1,
    {
        self.generation
    }

    /// Ties a value produced in this scope to it.
    pub fn bind<V>(&self, value: V) -> (r: Scoped<V>)
        ensures
            r@ == (self@.0, self@.1, value),
    {
        Scoped { registry: self.registry, generation: self.generation, value }
    }
}

impl<V> Scoped<V> {
    /// The value, for use within its scope.
    pub fn value(&self) -> (r: &V)
        ensures
            *r == self@.2,
    {
        &self.value
    }
}

impl<V> Promoted<V> {
    /// The registry the value came from.
    pub fn registry(&self) -> (r: u64)
        ensures
            r == self@.0,
    {
        self.registry
    }

    /// The generation of the context the value came from.
    pub fn generation(&self) -> (r: u64)
        ensures
            r == self@.1,
    {
        self.generation
    }
}

impl ThreadRegistry {
    /// Whether a context being built has a valid layer count and room for
    /// one more generation.
    pub closed spec fn wf(&self) -> bool {
        match self.state {
            ContextState::Initializing(n) => n < LAYER_COUNT && self.generation < u64::MAX,
            _ => true,
        }
    }

    /// A thread with no context, in a registry the host identifies by `id`;
    /// the host gives each registry its own identity, so that a value handed
    /// out by one is never read through another.
    pub fn new(id: u64) -> (r: Self)
        ensures
            r.wf(),
            r@ == (RegistryView { id, state: ContextState::Uninitialized, generation: 0, config: None }),
    {
        ThreadRegistry { id, state: ContextState::Uninitialized, generation: 0, config: None }
    }

    /// The identity of this registry.
    pub fn id(&self) -> (r: u64)
        ensures
            r == self@.id,
    {
        self.id
    }

    /// Where the context of this thread stands.
    pub fn state(&self) -> (r: ContextState)
        ensures
            r == self@.state,
    {
        self.state
    }

    /// How many contexts have become ready on this thread.
    pub fn generation(&self) -> (r: u64)
        ensures
            r == self@.generation,
    {
        self.generation
    }

    /// The configuration in force, once a context has been created.
    pub fn config(&self) -> (r: Option<Config>)
        ensures
            r == self@.config,
    {
        self.config
    }

    /// Starts creating a context with the requested configuration, and names
    /// the first layer to allocate. Refused with a conflict while a context
    /// exists or is being built, which is then left as it was.
    pub fn begin_create(&mut self, requested: Config) -> (r: Result<Layer, LifecycleError>)
        requires
            old(self).wf(),
            old(self)@.state is Ready || old(self)@.state is Initializing || old(self)@.generation < u64::MAX,
        ensures
            final(self).wf(),
            (final(self)@, r) == begin_outcome(old(self)@, requested),
    {
        match self.state {
            ContextState::Ready | ContextState::Initializing(_) => Err(LifecycleError::Conflict),
            _ => {
                self.state = ContextState::Initializing(0);
                if self.config.is_none() {
                    self.config = Some(requested);
                }
                Ok(Layer::Engine)
            },
        }
    }

    /// Records that the next layer was allocated, and names the one after it;
    /// nothing once the chain is complete and the context ready.
    pub fn layer_allocated(&mut self) -> (r: Option<Layer>)
        requires
            old(self).wf(),
            old(self)@.state is Initializing,
        ensures
            final(self).wf(),
            (final(self)@, r) == allocated_outcome(old(self)@, old(self)@.state->Initializing_0),
    {
        let built = match self.state {
            ContextState::Initializing(n) => n,
            _ => 0,
        };
        if built + 1 == LAYER_COUNT {
            self.state = ContextState::Ready;
            self.generation = self.generation + 1;
            None
        } else {
            self.state = ContextState::Initializing(built + 1);
            Some(
                if built == 0 {
                    Layer::Runtime
                } else if built == 1 {
                    Layer::Context
                } else {
                    Layer::Interpreter
                },
            )
        }
    }

    /// Records that allocating the next layer failed: the whole chain is
    /// abandoned. Returns the layers built so far, in the order to free them.
    pub fn layer_failed(&mut self) -> (r: Vec<Layer>)
        requires
            old(self).wf(),
            old(self)@.state is Initializing,
        ensures
            final(self).wf(),
            (final(self)@, r@) == failed_outcome(old(self)@, old(self)@.state->Initializing_0),
    {
        let built = match self.state {
            ContextState::Initializing(n) => n,
            _ => 0,
        };
        self.state = ContextState::Uninitialized;
        release_layers(built)
    }

    /// Tears a ready context down and returns its layers in the order to free
    /// them, interpreter first. Does nothing in any other state.
    pub fn dispose(&mut self) -> (r: Vec<Layer>)
        requires
            old(self).wf(),
        ensures
            final(self).wf(),
            (final(self)@, r@) == dispose_outcome(old(self)@),
    {
        if self.state == ContextState::Ready {
            self.state = ContextState::Disposed;
            release_layers(LAYER_COUNT)
        } else {
            Vec::new()
        }
    }

    /// Access to the context for one use of it; a usage violation unless the
    /// context is ready.
    pub fn enter(&self) -> (r: Result<Scope, LifecycleError>)
        ensures
            self@.state == ContextState::Ready <==> r is Ok,
            r matches Ok(s) ==> s@ == (self@.id, self@.generation),
            r matches Err(e) ==> e == LifecycleError::UsageViolation,
    {
        if self.state == ContextState::Ready {
            Ok(Scope { registry: self.id, generation: self.generation })
        } else {
            Err(LifecycleError::UsageViolation)
        }
    }

    /// Reads a value handed out of a context: a usage violation unless that
    /// context is the one of this registry ready now.
    pub fn read<'a, V>(&self, p: &'a Promoted<V>) -> (r: Result<&'a V, LifecycleError>)
        ensures
            readable(self@, p@.0, p@.1) <==> r is Ok,
            r matches Ok(v) ==> *v == p@.2,
            r matches Err(e) ==> e == LifecycleError::UsageViolation,
    {
        if self.state == ContextState::Ready && p.registry == self.id && p.generation == self.generation {
            Ok(&p.value)
        } else {
            Err(LifecycleError::UsageViolation)
        }
    }
}

/// The first `n` layers, innermost first.
fn release_layers(n: u8) -> (r: Vec<Layer>)
    requires
        n <= LAYER_COUNT,
    ensures
        r@ == release_order(n as int),
{
    let mut out: Vec<Layer> = Vec::new();
    let mut i: u8 = n;
    while i > 0
        invariant
            i <= n,
            out@ == release_order(n as int).subrange(0, (n - i) as int),
        decreases i,
    {
        i = i - 1;
        let layer = if i == 0 {
            Layer::Engine
        } else if i == 1 {
            Layer::Runtime
        } else if i == 2 {
            Layer::Context
        } else {
            Layer::Interpreter
        };
        out.push(layer);
        assert(out@ =~= release_order(n as int).subrange(0, (n - i) as int));
    }
    assert(out@ =~= release_order(n as int));
    out
}

/// A context is built engine first, then runtime, execution context and
/// interpreter, each allocated only after the one before it; after the
/// interpreter the context is ready under a new generation.
pub proof fn lemma_layers_built_in_order(m: RegistryView, requested: Config)
    requires
        m.state == ContextState::Uninitialized || m.state == ContextState::Disposed,
        m.generation < u64::MAX,
    ensures
        ({
            let (b0, first) = begin_outcome(m, requested);
            let (b1, second) = allocated_outcome(b0, 0);
            let (b2, third) = allocated_outcome(b1, 1);
            let (b3, fourth) = allocated_outcome(b2, 2);
            let (b4, done) = allocated_outcome(b3, 3);
            &&& first == Ok::<Layer, LifecycleError>(Layer::Engine)
            &&& second == Some(Layer::Runtime)
            &&& third == Some(Layer::Context)
            &&& fourth == Some(Layer::Interpreter)
            &&& done is None
            &&& b4.state == ContextState::Ready
            &&& b4.generation == m.generation + 1
        }),
{
}

/// While a context is ready, creating another fails with a conflict and leaves
/// the first exactly as it was, still ready and still readable.
pub proof fn lemma_second_create_conflicts(m: RegistryView, requested: Config)
    requires
        m.state == ContextState::Ready,
    ensures
        begin_outcome(m, requested) == (m, Err::<Layer, LifecycleError>(LifecycleError::Conflict)),
        readable(begin_outcome(m, requested).0, m.id, m.generation),
{
}

/// Disposing a ready context frees its layers interpreter first and lets the
/// thread create a new context. The disposed context is not ready, so entering
/// it is a usage violation, and no value handed out of it can be read: not
/// after the disposal, and not once a new context is ready.
pub proof fn lemma_dispose_then_recreate(m: RegistryView, requested: Config, handed_out: u64)
    requires
        m.state == ContextState::Ready,
        m.generation < u64::MAX,
        handed_out <= m.generation,
    ensures
        ({
            let (d, freed) = dispose_outcome(m);
            let (b0, first) = begin_outcome(d, requested);
            let b4 = allocated_outcome(allocated_outcome(allocated_outcome(allocated_outcome(b0, 0).0, 1).0, 2).0, 3).0;
            &&& freed == seq![Layer::Interpreter, Layer::Context, Layer::Runtime, Layer::Engine]
            &&& d.state == ContextState::Disposed
            &&& !readable(d, m.id, handed_out)
            &&& first == Ok::<Layer, LifecycleError>(Layer::Engine)
            &&& b4.state == ContextState::Ready
            &&& !readable(b4, m.id, handed_out)
        }),
{
    let (d, freed) = dispose_outcome(m);
    assert(freed =~= seq![Layer::Interpreter, Layer::Context, Layer::Runtime, Layer::Engine]);
}

/// A value handed out by one registry is never read through another.
pub proof fn lemma_other_registry_refused(m: RegistryView, id: u64, generation: u64)
    requires
        id != m.id,
    ensures
        !readable(m, id, generation),
{
}

} // verus!
