//! The rendering cache handle: the server configuration, the factory of UI
//! trees, and the rendering engine, which is built on first use and never
//! replaced.
//!
//! The handle is written for one owner at a time. A server that shares it
//! among requests puts it behind a lock, so that the first uses line up one
//! after the other.

use std::sync::Arc;
use vstd::prelude::*;

verus! {

/// `Arc::clone`: another pointer to the same value.
#[verifier::external_body]
fn share<E>(engine: &Arc<E>) -> (shared: Arc<E>)
    ensures
        shared == *engine,
{
    Arc::clone(engine)
}

/// A factory that builds each UI tree from one root component.
#[derive(Clone)]
pub struct RootFactory<R> {
    pub root: R,
}

/// The server configuration: the part that configures incremental rendering,
/// from which the engine is built, and the settings that the render path
/// carries along.
#[derive(Clone)]
pub struct ServeConfig<I, S> {
    pub incremental: I,
    pub settings: S,
}

/// The parts of a rendering cache handle.
pub struct RenderHandleView<I, S, F, E> {
    /// The server configuration.
    pub config: ServeConfig<I, S>,
    /// What makes a fresh UI tree for each render.
    pub build_virtual_dom: F,
    /// The rendering engine, once there is one.
    pub engine: Option<Arc<E>>,
}

/// State of the render path: configuration, tree factory, and the engine that
/// is shared by all renders. A copy of a handle shares the engine that the
/// handle has at that time.
pub struct RenderHandleState<I, S, F, E> {
    config: ServeConfig<I, S>,
    build_virtual_dom: F,
    ssr_state: Option<Arc<E>>,
}

impl<I, S, F, E> View for RenderHandleState<I, S, F, E> {
    type V = RenderHandleView<I, S, F, E>;

    closed spec fn view(&self) -> RenderHandleView<I, S, F, E> {
        RenderHandleView {
            config: self.config,
            build_virtual_dom: self.build_virtual_dom,
            engine: self.ssr_state,
        }
    }
}

impl<I: Clone, S: Clone, F: Clone, E> Clone for RenderHandleState<I, S, F, E> {
    /// A handle of its own with copies of configuration and factory. It
    /// shares the engine if there is one; if there is none yet, the copy
    /// will build its own.
    fn clone(&self) -> (copy: Self)
        ensures
            copy@.engine == self@.engine,
    {
        RenderHandleState {
            config: self.config.clone(),
            build_virtual_dom: self.build_virtual_dom.clone(),
            ssr_state: match &self.ssr_state {
                Some(engine) => Some(share(engine)),
                None => None,
            },
        }
    }
}

impl<I, S, R, E> RenderHandleState<I, S, RootFactory<R>, E> {
    /// A handle whose UI trees are built from `root`. It has no engine yet.
    pub fn new(config: ServeConfig<I, S>, root: R) -> (state: Self)
        ensures
            state@.config == config,
            state@.build_virtual_dom == (RootFactory { root }),
            state@.engine is None,
    {
        RenderHandleState { config, build_virtual_dom: RootFactory { root }, ssr_state: None }
    }
}

impl<I, S, F, E> RenderHandleState<I, S, F, E> {
    /// A handle whose UI trees are built by `build_virtual_dom`, which may
    /// hand context to the root component. It has no engine yet.
    pub fn new_with_virtual_dom_factory(config: ServeConfig<I, S>, build_virtual_dom: F) -> (state:
        Self)
        ensures
            state@.config == config,
            state@.build_virtual_dom == build_virtual_dom,
            state@.engine is None,
    {
        RenderHandleState { config, build_virtual_dom, ssr_state: None }
    }

    /// Replaces the configuration. The factory and the engine stay.
    pub fn with_config(self, config: ServeConfig<I, S>) -> (state: Self)
        ensures
            state@.config == config,
            state@.build_virtual_dom == self@.build_virtual_dom,
            state@.engine == self@.engine,
    {
        RenderHandleState {
            config,
            build_virtual_dom: self.build_virtual_dom,
            ssr_state: self.ssr_state,
        }
    }

    /// Supplies the engine, so that several handles can share one. The handle
    /// must not have an engine already: an engine is never replaced.
    pub fn with_ssr_state(self, ssr_state: Arc<E>) -> (state: Self)
        requires
            self@.engine is None,
        ensures
            state@.config == self@.config,
            state@.build_virtual_dom == self@.build_virtual_dom,
            state@.engine == Some(ssr_state),
    {
        RenderHandleState {
            config: self.config,
            build_virtual_dom: self.build_virtual_dom,
            ssr_state: Some(ssr_state),
        }
    }

    /// Whether the handle has its engine.
    pub fn is_initialized(&self) -> (initialized: bool)
        ensures
            initialized == self@.engine is Some,
    {
        self.ssr_state.is_some()
    }

    /// The server configuration.
    pub fn config(&self) -> (config: &ServeConfig<I, S>)
        ensures
            *config == self@.config,
    {
        &self.config
    }

    /// What makes a fresh UI tree for each render.
    pub fn virtual_dom_factory(&self) -> (factory: &F)
        ensures
            *factory == self@.build_virtual_dom,
    {
        &self.build_virtual_dom
    }

    /// The engine. The first call builds it with `build`, from the incremental
    /// rendering part of the configuration and from nothing else, and keeps
    /// it; every later call hands out the engine that is kept and does not
    /// run `build`. The factory of UI trees is not run.
    pub fn ssr_state<B: FnOnce(&I) -> Arc<E>>(&mut self, build: B) -> (engine: Arc<E>)
        requires
            old(self)@.engine is None ==> call_requires(build, (&old(self)@.config.incremental,)),
        ensures
            final(self)@.config == old(self)@.config,
            final(self)@.build_virtual_dom == old(self)@.build_virtual_dom,
            final(self)@.engine == Some(engine),
            engine == engine_served(old(self)@.engine, engine),
            old(self)@.engine is None ==> call_ensures(
                build,
                (&old(self)@.config.incremental,),
                engine,
            ),
    {
        match &self.ssr_state {
            Some(kept) => share(kept),
            None => {
                let built = build(&self.config.incremental);
                let engine = share(&built);
                self.ssr_state = Some(built);
                engine
            },
        }
    }
}

/// The engine that [`RenderHandleState::ssr_state`] hands out: the one that
/// the handle keeps, or else the one that this request builds. The handle
/// keeps it from then on.
pub open spec fn engine_served<E>(kept: Option<E>, built: E) -> E {
    match kept {
        Some(engine) => engine,
        None => built,
    }
}

/// The engines that a run of calls of [`RenderHandleState::ssr_state`] on one
/// handle hands out, each call finding the handle as the call before left
/// it. Call `i` would build `candidates[i]` if it had to build one.
pub open spec fn engines_served<E>(kept: Option<E>, candidates: Seq<E>) -> Seq<E>
    decreases candidates.len(),
{
    if candidates.len() == 0 {
        Seq::empty()
    } else {
        let first = engine_served(kept, candidates[0]);
        seq![first] + engines_served(Some(first), candidates.drop_first())
    }
}

/// How many engines such a run of calls builds.
pub open spec fn engines_built<E>(kept: Option<E>, candidates: Seq<E>) -> nat
    decreases candidates.len(),
{
    if candidates.len() == 0 {
        0
    } else {
        let first = engine_served(kept, candidates[0]);
        let here: nat = if kept is None {
            1
        } else {
            0
        };
        here + engines_built(Some(first), candidates.drop_first())
    }
}

/// Once a handle keeps an engine, no request builds one, and every request
/// is served with the engine that is kept.
pub proof fn lemma_engine_is_kept<E>(kept: E, candidates: Seq<E>)
    ensures
        engines_built(Some(kept), candidates) == 0,
        engines_served(Some(kept), candidates).len() == candidates.len(),
        forall|i: int|
            0 <= i < candidates.len() ==> #[trigger] engines_served(Some(kept), candidates)[i]
                == kept,
    decreases candidates.len(),
{
    if candidates.len() > 0 {
        lemma_engine_is_kept(kept, candidates.drop_first());
    }
}

/// However many requests come to a fresh handle, and in whatever order they
/// are served, exactly one engine is built, by the first, and all requests
/// are served with that one.
pub proof fn lemma_engine_built_once<E>(candidates: Seq<E>)
    requires
        candidates.len() > 0,
    ensures
        engines_built(None, candidates) == 1,
        engines_served(None, candidates).len() == candidates.len(),
        forall|i: int|
            0 <= i < candidates.len() ==> #[trigger] engines_served(None, candidates)[i]
                == candidates[0],
{
    lemma_engine_is_kept(candidates[0], candidates.drop_first());
}

} // verus!
