//! The process-wide hook slot, modelled explicitly: one configuration at a
//! time; installing another replaces it. The application's start-up code
//! owns one registry and connects it to the runtime's failure hook.

use vstd::prelude::*;

use crate::config::ConfigView;
use crate::config::VisualPanic;
use crate::handler::DialogRequest;
use crate::handler::HandlerError;
use crate::handler::PanicDetails;
use crate::handler::handle_panic;
use crate::handler::handler_outcome;
use crate::handler::outcome_view;

verus! {

/// The single per-process slot for the failure handler's configuration.
/// There is no teardown: once registered, a configuration stays until
/// another replaces it.
pub struct HookRegistry {
    installed: Option<VisualPanic>,
}

impl View for HookRegistry {
    type V = Option<ConfigView>;

    closed spec fn view(&self) -> Option<ConfigView> {
        match self.installed {
            Some(c) => Some(c@),
            None => None,
        }
    }
}

/// What installing a configuration does to the slot: the new
/// configuration takes it, whatever held it before.
pub open spec fn spec_install(slot: Option<ConfigView>, c: ConfigView) -> Option<ConfigView> {
    Some(c)
}

impl HookRegistry {
    /// A registry with nothing installed yet.
    pub fn new() -> (r: Self)
        ensures
            r@ == None::<ConfigView>,
    {
        HookRegistry { installed: None }
    }

    /// Installs `config` as the process-wide handler configuration,
    /// consuming it. A previously installed configuration is discarded,
    /// not chained.
    pub fn install(&mut self, config: VisualPanic)
        ensures
            final(self)@ == spec_install(old(self)@, config@),
    {
        self.installed = Some(config);
    }

    /// The installed configuration, if any.
    pub fn current(&self) -> (r: &Option<VisualPanic>)
        ensures
            match r {
                Some(c) => self@ == Some(c@),
                None => self@ is None,
            },
    {
        &self.installed
    }

    /// Handles a failure with the installed configuration: `None` when
    /// nothing is registered, else exactly what the installed
    /// configuration's handler produces for these diagnostics.
    pub fn handle(&self, details: &PanicDetails) -> (r: Option<
        Result<DialogRequest, HandlerError>,
    >)
        ensures
            self@ is None ==> r is None,
            self@ matches Some(c) ==> r matches Some(out) && outcome_view(out)
                == handler_outcome(c, details@),
    {
        match &self.installed {
            Some(config) => Some(handle_panic(config, details)),
            None => None,
        }
    }
}

/// Registering a configuration and then a second one leaves the slot
/// exactly as registering the second alone would: only the second
/// configuration's resolution governs later failures.
pub proof fn lemma_install_replaces(slot: Option<ConfigView>, first: ConfigView, second: ConfigView)
    ensures
        spec_install(spec_install(slot, first), second) == spec_install(slot, second),
        spec_install(spec_install(slot, first), second) == Some(second),
{
}

} // verus!
