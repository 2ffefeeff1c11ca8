//! The configuration of the engine over the life of a process: settings
//! that can be registered once, an engine that is set up once from them,
//! and penetration factors with a one-time default of their own.

use vstd::prelude::*;
use crate::error::{Error, ErrorView};
use crate::settings::{Penetration, PenetrationFactors, SettingUpdate, Settings};

verus! {

/// The configuration state as a mathematical value.
pub struct ConfigurationView<F> {
    /// The settings used where none are registered.
    pub defaults: Settings<F>,
    /// The registered settings, once there are any.
    pub registered: Option<Settings<F>>,
    /// The settings that the engine was set up from, once it is set up.
    pub applied: Option<Settings<F>>,
    /// The penetration factors in force, once any were written.
    pub penetration: Option<PenetrationFactors<F>>,
    /// Whether the one-time default of the penetration factors was taken.
    pub latched: bool,
}

impl<F: Copy> ConfigurationView<F> {
    /// The state of a process in which nothing has happened yet.
    pub open spec fn fresh(defaults: Settings<F>) -> Self {
        ConfigurationView {
            defaults,
            registered: None,
            applied: None,
            penetration: None,
            latched: false,
        }
    }

    /// Whether settings can still be registered.
    pub open spec fn accepts(self) -> bool {
        self.registered is None
    }

    /// The state after an attempt to register `settings`: they are stored
    /// if none were before, and otherwise nothing changes.
    pub open spec fn configure(self, settings: Settings<F>) -> Self {
        if self.accepts() {
            ConfigurationView {
                defaults: self.defaults,
                registered: Some(settings),
                applied: self.applied,
                penetration: self.penetration,
                latched: self.latched,
            }
        } else {
            self
        }
    }

    /// The settings that an engine set up now would get: the registered
    /// ones, or the defaults where there are none.
    pub open spec fn effective(self) -> Settings<F> {
        match self.registered {
            Some(settings) => settings,
            None => self.defaults,
        }
    }

    /// The state after the engine was asked for: if it was not set up
    /// yet, it is now, from the settings in effect at this moment, whose
    /// penetration factors come into force. Otherwise nothing changes.
    pub open spec fn initialize(self) -> Self {
        if self.applied is None {
            ConfigurationView {
                defaults: self.defaults,
                registered: self.registered,
                applied: Some(self.effective()),
                penetration: Some(self.effective().penetration_factors()),
                latched: self.latched,
            }
        } else {
            self
        }
    }

    /// The state after a pattern that takes a penetration factor was
    /// called: the first such call puts the default factors in force,
    /// whatever was registered; later calls change nothing.
    pub open spec fn latch(self) -> Self {
        if self.latched {
            self
        } else {
            ConfigurationView {
                defaults: self.defaults,
                registered: self.registered,
                applied: self.applied,
                penetration: Some(self.defaults.penetration_factors()),
                latched: true,
            }
        }
    }

    /// The penetration factor of the given kind that is in force.
    pub open spec fn factor(self, kind: Penetration) -> F {
        match self.penetration {
            Some(factors) => factors.of(kind),
            None => self.defaults.penetration_of(kind),
        }
    }

    /// Settings can be registered once: from a state without settings the
    /// first attempt is accepted and every later one refused, and an
    /// engine set up after them gets exactly the settings of the first
    /// attempt.
    pub proof fn lemma_single_configuration(self, first: Settings<F>, second: Settings<F>)
        requires
            self.registered is None,
            self.applied is None,
        ensures
            self.accepts(),
            !self.configure(first).accepts(),
            self.configure(first).configure(second) == self.configure(first),
            self.configure(first).configure(second).initialize().applied == Some(first),
    {
    }

    /// The engine is set up once: asking for it again changes nothing,
    /// and neither registering settings nor a call with a penetration
    /// factor changes what it was set up from.
    pub proof fn lemma_set_up_once(self, settings: Settings<F>)
        ensures
            self.initialize().initialize() == self.initialize(),
            self.initialize().applied is Some,
            self.initialize().configure(settings).applied == self.initialize().applied,
            self.initialize().latch().applied == self.initialize().applied,
            self.applied is Some ==> self.initialize() == self,
    {
    }

    /// The default of the penetration factors is taken once, and does not
    /// depend on what is registered: the first call puts the defaults in
    /// force, and later calls change nothing.
    pub proof fn lemma_latch_fires_once(self, settings: Settings<F>)
        ensures
            self.latch().latched,
            self.latch().latch() == self.latch(),
            !self.latched ==> self.latch().penetration == Some(
                self.defaults.penetration_factors(),
            ),
            !self.latched ==> self.configure(settings).latch().penetration == Some(
                self.defaults.penetration_factors(),
            ),
            self.latch().registered == self.registered,
    {
    }
}

/// The configuration state of a process.
#[derive(Debug)]
pub struct Configuration<F> {
    defaults: Settings<F>,
    registered: Option<Settings<F>>,
    applied: Option<Settings<F>>,
    penetration: Option<PenetrationFactors<F>>,
    latched: bool,
}

impl<F: Copy> View for Configuration<F> {
    type V = ConfigurationView<F>;

    closed spec fn view(&self) -> ConfigurationView<F> {
        ConfigurationView {
            defaults: self.defaults,
            registered: self.registered,
            applied: self.applied,
            penetration: self.penetration,
            latched: self.latched,
        }
    }
}

impl<F: Copy> Configuration<F> {
    /// A state in which nothing is registered and nothing set up.
    pub fn new(defaults: Settings<F>) -> (configuration: Self)
        ensures
            configuration@ == ConfigurationView::fresh(defaults),
    {
        Configuration { defaults, registered: None, applied: None, penetration: None, latched: false }
    }

    /// Registers the settings for the engine. Only the first call
    /// succeeds; every later one fails and leaves the state as it was.
    pub fn configure(&mut self, settings: Settings<F>) -> (configured: Result<(), Error>)
        ensures
            final(self)@ == old(self)@.configure(settings),
            old(self)@.accepts() <==> configured is Ok,
            configured matches Err(e) ==> e@ == ErrorView::AlreadyConfigured,
    {
        match self.registered {
            None => {
                self.registered = Some(settings);
                Ok(())
            },
            Some(_) => Err(Error::AlreadyConfigured),
        }
    }

    /// Sets the engine up if it is not set up yet, and returns the updates
    /// that the engine is to be given in that case: those of the
    /// registered settings, or of the defaults where none are registered.
    /// Returns `None` where the engine was set up before.
    pub fn initialize(&mut self) -> (updates: Option<Vec<SettingUpdate<F>>>)
        ensures
            final(self)@ == old(self)@.initialize(),
            old(self)@.applied is None <==> updates is Some,
            updates matches Some(list) ==> list@ == old(self)@.effective().updates(),
    {
        match self.applied {
            Some(_) => None,
            None => {
                let settings = match self.registered {
                    Some(settings) => settings,
                    None => self.defaults,
                };
                let (updates, penetration) = settings.apply_settings();
                self.applied = Some(settings);
                self.penetration = Some(penetration);
                Some(updates)
            },
        }
    }

    /// Returns the penetration factor that a pattern of the given kind is
    /// called with. The first call, of whatever kind, puts the default
    /// factors in force.
    pub fn penetration_factor(&mut self, kind: Penetration) -> (factor: F)
        ensures
            final(self)@ == old(self)@.latch(),
            factor == final(self)@.factor(kind),
    {
        if !self.latched {
            self.penetration = Some(
                PenetrationFactors {
                    star: self.defaults.star_penetration_factor,
                    piercing: self.defaults.piercing_penetration_factor,
                },
            );
            self.latched = true;
        }
        match self.penetration {
            Some(factors) => match kind {
                Penetration::Star => factors.star,
                Penetration::Piercing => factors.piercing,
            },
            None => self.defaults.penetration(kind),
        }
    }
}

} // verus!
