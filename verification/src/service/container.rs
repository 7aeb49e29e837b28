//! Defines the [`ServiceContainer`] and its related errors.
//!
//! Note: Don't reference this module's children from this module's path
//! directly! Instead, use its parent module, [`service`](super).

use vstd::prelude::*;

verus! {

/// A selection of services used to run the game, each a single slot that can
/// be registered exactly once.
///
/// Each service is expected to be implemented and registered by whichever
/// front end uses the library: an asset loader `A`, a render context `R`, an
/// input manager `I`, and a video chip `V`.
pub struct ServiceContainer<A, R, I, V> {
    asset_loader: Option<A>,
    render_context: Option<R>,
    input_manager: Option<I>,
    vfc: Option<V>,
}

impl<A, R, I, V> ServiceContainer<A, R, I, V> {
    /// The registered asset loader, as seen by specifications.
    pub closed spec fn spec_asset_loader(&self) -> Option<A> {
        self.asset_loader
    }

    /// The registered render context, as seen by specifications.
    pub closed spec fn spec_render_context(&self) -> Option<R> {
        self.render_context
    }

    /// The registered input manager, as seen by specifications.
    pub closed spec fn spec_input_manager(&self) -> Option<I> {
        self.input_manager
    }

    /// The registered video chip, as seen by specifications.
    pub closed spec fn spec_vfc(&self) -> Option<V> {
        self.vfc
    }

    /// Constructs a `ServiceContainer` with no services registered.
    pub fn new() -> (container: ServiceContainer<A, R, I, V>)
        ensures
            container.spec_asset_loader() is None,
            container.spec_render_context() is None,
            container.spec_input_manager() is None,
            container.spec_vfc() is None,
    {
        Self::default()
    }

    /// Registers an asset loader to the service container. If one has
    /// already been registered, this function instead returns an error and
    /// changes nothing.
    pub fn register_asset_loader(&mut self, asset_loader: A) -> (result: Result<
        (),
        AlreadyRegisteredError,
    >)
        ensures
            old(self).spec_asset_loader() is Some ==> result is Err && *final(self) == *old(self),
            old(self).spec_asset_loader() is None ==> {
                &&& result is Ok
                &&& final(self).spec_asset_loader() == Some(asset_loader)
                &&& final(self).spec_render_context() == old(self).spec_render_context()
                &&& final(self).spec_input_manager() == old(self).spec_input_manager()
                &&& final(self).spec_vfc() == old(self).spec_vfc()
            },
    {
        if self.asset_loader.is_some() {
            return Err(AlreadyRegisteredError::new());
        }
        self.asset_loader = Some(asset_loader);
        Ok(())
    }

    /// Returns the asset loader that has been registered to the system. If
    /// one has not yet been registered, this function instead returns an
    /// error.
    pub fn asset_loader_mut(&mut self) -> (result: Result<&mut A, NotYetRegisteredError>)
        ensures
            old(self).spec_asset_loader() is Some <==> result is Ok,
            result is Err ==> *final(self) == *old(self),
            result matches Ok(loader) ==> {
                &&& old(self).spec_asset_loader() == Some(*loader)
                &&& final(self).spec_asset_loader() == Some(*final(loader))
                &&& final(self).spec_render_context() == old(self).spec_render_context()
                &&& final(self).spec_input_manager() == old(self).spec_input_manager()
                &&& final(self).spec_vfc() == old(self).spec_vfc()
            },
    {
        match &mut self.asset_loader {
            None => Err(NotYetRegisteredError::new()),
            Some(asset_loader) => Ok(asset_loader),
        }
    }

    /// Registers a render context to the service container. If one has
    /// already been registered, this function instead returns an error and
    /// changes nothing.
    pub fn register_render_context(&mut self, render_context: R) -> (result: Result<
        (),
        AlreadyRegisteredError,
    >)
        ensures
            old(self).spec_render_context() is Some ==> result is Err && *final(self) == *old(self),
            old(self).spec_render_context() is None ==> {
                &&& result is Ok
                &&& final(self).spec_render_context() == Some(render_context)
                &&& final(self).spec_asset_loader() == old(self).spec_asset_loader()
                &&& final(self).spec_input_manager() == old(self).spec_input_manager()
                &&& final(self).spec_vfc() == old(self).spec_vfc()
            },
    {
        if self.render_context.is_some() {
            return Err(AlreadyRegisteredError::new());
        }
        self.render_context = Some(render_context);
        Ok(())
    }

    /// Returns the render context that has been registered to the system. If
    /// one has not yet been registered, this function instead returns an
    /// error.
    pub fn render_context_mut(&mut self) -> (result: Result<&mut R, NotYetRegisteredError>)
        ensures
            old(self).spec_render_context() is Some <==> result is Ok,
            result is Err ==> *final(self) == *old(self),
            result matches Ok(render_context) ==> {
                &&& old(self).spec_render_context() == Some(*render_context)
                &&& final(self).spec_render_context() == Some(*final(render_context))
                &&& final(self).spec_asset_loader() == old(self).spec_asset_loader()
                &&& final(self).spec_input_manager() == old(self).spec_input_manager()
                &&& final(self).spec_vfc() == old(self).spec_vfc()
            },
    {
        match &mut self.render_context {
            None => Err(NotYetRegisteredError::new()),
            Some(render_context) => Ok(render_context),
        }
    }

    /// Registers an input manager to the service container. If one has
    /// already been registered, this function instead returns an error and
    /// changes nothing.
    pub fn register_input_manager(&mut self, input_manager: I) -> (result: Result<
        (),
        AlreadyRegisteredError,
    >)
        ensures
            old(self).spec_input_manager() is Some ==> result is Err && *final(self) == *old(self),
            old(self).spec_input_manager() is None ==> {
                &&& result is Ok
                &&& final(self).spec_input_manager() == Some(input_manager)
                &&& final(self).spec_asset_loader() == old(self).spec_asset_loader()
                &&& final(self).spec_render_context() == old(self).spec_render_context()
                &&& final(self).spec_vfc() == old(self).spec_vfc()
            },
    {
        if self.input_manager.is_some() {
            return Err(AlreadyRegisteredError::new());
        }
        self.input_manager = Some(input_manager);
        Ok(())
    }

    /// Returns the input manager that has been registered to the system. If
    /// one has not yet been registered, this function instead returns an
    /// error.
    pub fn input_manager_mut(&mut self) -> (result: Result<&mut I, NotYetRegisteredError>)
        ensures
            old(self).spec_input_manager() is Some <==> result is Ok,
            result is Err ==> *final(self) == *old(self),
            result matches Ok(input_manager) ==> {
                &&& old(self).spec_input_manager() == Some(*input_manager)
                &&& final(self).spec_input_manager() == Some(*final(input_manager))
                &&& final(self).spec_asset_loader() == old(self).spec_asset_loader()
                &&& final(self).spec_render_context() == old(self).spec_render_context()
                &&& final(self).spec_vfc() == old(self).spec_vfc()
            },
    {
        match &mut self.input_manager {
            None => Err(NotYetRegisteredError::new()),
            Some(input_manager) => Ok(input_manager),
        }
    }

    /// Registers a video chip to the service container. If one has already
    /// been registered, this function instead returns an error and changes
    /// nothing.
    pub fn register_vfc(&mut self, vfc: V) -> (result: Result<(), AlreadyRegisteredError>)
        ensures
            old(self).spec_vfc() is Some ==> result is Err && *final(self) == *old(self),
            old(self).spec_vfc() is None ==> {
                &&& result is Ok
                &&& final(self).spec_vfc() == Some(vfc)
                &&& final(self).spec_asset_loader() == old(self).spec_asset_loader()
                &&& final(self).spec_render_context() == old(self).spec_render_context()
                &&& final(self).spec_input_manager() == old(self).spec_input_manager()
            },
    {
        if self.vfc.is_some() {
            return Err(AlreadyRegisteredError::new());
        }
        self.vfc = Some(vfc);
        Ok(())
    }

    /// Returns the video chip that has been registered to the system. If one
    /// has not yet been registered, this function instead returns an error.
    pub fn vfc_mut(&mut self) -> (result: Result<&mut V, NotYetRegisteredError>)
        ensures
            old(self).spec_vfc() is Some <==> result is Ok,
            result is Err ==> *final(self) == *old(self),
            result matches Ok(vfc) ==> {
                &&& old(self).spec_vfc() == Some(*vfc)
                &&& final(self).spec_vfc() == Some(*final(vfc))
                &&& final(self).spec_asset_loader() == old(self).spec_asset_loader()
                &&& final(self).spec_render_context() == old(self).spec_render_context()
                &&& final(self).spec_input_manager() == old(self).spec_input_manager()
            },
    {
        match &mut self.vfc {
            None => Err(NotYetRegisteredError::new()),
            Some(vfc) => Ok(vfc),
        }
    }
}

impl<A, R, I, V> Default for ServiceContainer<A, R, I, V> {
    fn default() -> (container: ServiceContainer<A, R, I, V>)
        ensures
            container.spec_asset_loader() is None,
            container.spec_render_context() is None,
            container.spec_input_manager() is None,
            container.spec_vfc() is None,
    {
        ServiceContainer {
            asset_loader: None,
            render_context: None,
            input_manager: None,
            vfc: None,
        }
    }
}

/// An error that arises when trying to register a service that has already
/// been registered.
#[derive(Debug)]
pub struct AlreadyRegisteredError {}

impl AlreadyRegisteredError {
    fn new() -> Self {
        AlreadyRegisteredError {  }
    }
}

/// An error that arises when requesting a service that has not yet been
/// registered.
#[derive(Debug)]
pub struct NotYetRegisteredError {}

impl NotYetRegisteredError {
    fn new() -> Self {
        NotYetRegisteredError {  }
    }
}

} // verus!
