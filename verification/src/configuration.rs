//! Standard configuration lifecycle shared by every Nexus.
//!
//! Persistence remains in the component's Sema, beside its typed
//! configuration record. This module owns the lifecycle rule applied inside
//! that Sema write boundary: ordinary Configure stays open until a meta
//! Configure occurs, and only a meta reversal opens it again.
use vstd::prelude::*;

verus! {

/// The persisted standard Nexus configuration metadata.
#[derive(Clone, Debug, PartialEq, Eq)]
pub struct ConfigurationState<Configuration> {
    pub desired_configuration: Configuration,
    pub meta_configure_occurred: bool,
}

/// A refused standard configuration lifecycle transition.
#[derive(Clone, Copy, Debug, PartialEq, Eq, Structural)]
pub enum ConfigurationTransitionError {
    OrdinaryConfigureClosed,
}

impl ConfigurationTransitionError {
    /// The human-readable description of the refusal.
    pub fn message(&self) -> (text: &'static str)
        ensures
            text@ == "ordinary Configure is closed after meta Configure"@,
    {
        match self {
            ConfigurationTransitionError::OrdinaryConfigureClosed => "ordinary Configure is closed after meta Configure",
        }
    }
}

/// The state a fresh Sema is seeded with.
pub open spec fn seeded<Configuration>(desired_configuration: Configuration) -> ConfigurationState<Configuration> {
    ConfigurationState { desired_configuration, meta_configure_occurred: false }
}

/// The state after an ordinary Configure with `configuration`: applied while
/// ordinary Configure is open, and no change at all once it is closed.
pub open spec fn ordinary_configured<Configuration>(
    state: ConfigurationState<Configuration>,
    configuration: Configuration,
) -> ConfigurationState<Configuration> {
    if state.meta_configure_occurred {
        state
    } else {
        ConfigurationState { desired_configuration: configuration, meta_configure_occurred: false }
    }
}

/// What an ordinary Configure answers in `state`.
pub open spec fn ordinary_outcome<Configuration>(state: ConfigurationState<Configuration>) -> Result<(), ConfigurationTransitionError> {
    if state.meta_configure_occurred {
        Err(ConfigurationTransitionError::OrdinaryConfigureClosed)
    } else {
        Ok(())
    }
}

/// The state after a meta Configure with `configuration`.
pub open spec fn meta_configured<Configuration>(
    state: ConfigurationState<Configuration>,
    configuration: Configuration,
) -> ConfigurationState<Configuration> {
    ConfigurationState { desired_configuration: configuration, meta_configure_occurred: true }
}

/// The state after a meta reversal.
pub open spec fn meta_reversed<Configuration>(state: ConfigurationState<Configuration>) -> ConfigurationState<Configuration> {
    ConfigurationState { desired_configuration: state.desired_configuration, meta_configure_occurred: false }
}

impl<Configuration> ConfigurationState<Configuration> {
    /// Seed a fresh Sema with the executable's built-in default.
    pub fn from_default(desired_configuration: Configuration) -> (state: Self)
        ensures
            state == seeded(desired_configuration),
    {
        Self { desired_configuration, meta_configure_occurred: false }
    }
}

/// Capability to apply the standard Nexus configuration transitions.
///
/// Ordinary Configure remains available until a meta Configure occurs. Only
/// the meta surface can close or reopen ordinary Configure.
pub trait Configurable<Configuration> {
    fn desired_configuration(&self) -> &Configuration;

    fn meta_configure_occurred(&self) -> bool;

    fn ordinary_configure_if_unset(&mut self, configuration: Configuration) -> Result<
        (),
        ConfigurationTransitionError,
    >;

    fn meta_configure(&mut self, configuration: Configuration);

    fn meta_reverse(&mut self);
}

impl<Configuration> Configurable<Configuration> for ConfigurationState<Configuration> {
    fn desired_configuration(&self) -> (desired: &Configuration)
        ensures
            *desired == self.desired_configuration,
    {
        &self.desired_configuration
    }

    fn meta_configure_occurred(&self) -> (occurred: bool)
        ensures
            occurred == self.meta_configure_occurred,
    {
        self.meta_configure_occurred
    }

    fn ordinary_configure_if_unset(&mut self, configuration: Configuration) -> (outcome: Result<
        (),
        ConfigurationTransitionError,
    >)
        ensures
            outcome == ordinary_outcome(*old(self)),
            *final(self) == ordinary_configured(*old(self), configuration),
    {
        if self.meta_configure_occurred {
            return Err(ConfigurationTransitionError::OrdinaryConfigureClosed);
        }
        self.desired_configuration = configuration;
        Ok(())
    }

    fn meta_configure(&mut self, configuration: Configuration)
        ensures
            *final(self) == meta_configured(*old(self), configuration),
    {
        self.desired_configuration = configuration;
        self.meta_configure_occurred = true;
    }

    fn meta_reverse(&mut self)
        ensures
            *final(self) == meta_reversed(*old(self)),
    {
        self.meta_configure_occurred = false;
    }
}

/// One transition of the configuration lifecycle, as a history records it.
pub enum ConfigureOperation<Configuration> {
    /// An ordinary Configure with the given configuration.
    Ordinary(Configuration),
    /// A meta Configure with the given configuration.
    Meta(Configuration),
    /// A meta reversal.
    MetaReverse,
}

/// The state after one transition.
pub open spec fn operated<Configuration>(
    state: ConfigurationState<Configuration>,
    operation: ConfigureOperation<Configuration>,
) -> ConfigurationState<Configuration> {
    match operation {
        ConfigureOperation::Ordinary(configuration) => ordinary_configured(state, configuration),
        ConfigureOperation::Meta(configuration) => meta_configured(state, configuration),
        ConfigureOperation::MetaReverse => meta_reversed(state),
    }
}

/// The state after a history of transitions, applied in order.
pub open spec fn operated_all<Configuration>(
    state: ConfigurationState<Configuration>,
    history: Seq<ConfigureOperation<Configuration>>,
) -> ConfigurationState<Configuration>
    decreases history.len(),
{
    if history.len() == 0 {
        state
    } else {
        operated(operated_all(state, history.drop_last()), history.last())
    }
}

/// Whether the last meta operation of a history is a meta Configure (rather
/// than a reversal, or no meta operation at all).
pub open spec fn closed_by<Configuration>(history: Seq<ConfigureOperation<Configuration>>) -> bool
    decreases history.len(),
{
    if history.len() == 0 {
        false
    } else {
        match history.last() {
            ConfigureOperation::Ordinary(_) => closed_by(history.drop_last()),
            ConfigureOperation::Meta(_) => true,
            ConfigureOperation::MetaReverse => false,
        }
    }
}

/// Whether every transition of a history is an ordinary Configure.
pub open spec fn ordinary_only<Configuration>(history: Seq<ConfigureOperation<Configuration>>) -> bool {
    forall|i: int| 0 <= i < history.len() ==> history[i] is Ordinary
}

/// Starting from a freshly seeded Sema, ordinary Configure is refused after a
/// history exactly when that history's last meta operation was a meta
/// Configure: ordinary Configure never closes it, and only a meta reversal
/// opens it again.
pub proof fn lemma_ordinary_configure_closed_exactly_after_meta<Configuration>(
    default_configuration: Configuration,
    history: Seq<ConfigureOperation<Configuration>>,
)
    ensures
        operated_all(seeded(default_configuration), history).meta_configure_occurred == closed_by(history),
        ordinary_outcome(operated_all(seeded(default_configuration), history)) is Err
            <==> closed_by(history),
    decreases history.len(),
{
    if history.len() > 0 {
        lemma_ordinary_configure_closed_exactly_after_meta(default_configuration, history.drop_last());
    }
}

/// Ordinary Configure never touches the meta marker, and a refused ordinary
/// Configure leaves the whole state as it was.
pub proof fn lemma_ordinary_configure_keeps_the_marker<Configuration>(
    state: ConfigurationState<Configuration>,
    configuration: Configuration,
)
    ensures
        ordinary_configured(state, configuration).meta_configure_occurred == state.meta_configure_occurred,
        ordinary_outcome(state) is Err ==> ordinary_configured(state, configuration) == state,
        ordinary_outcome(state) is Ok ==> ordinary_configured(state, configuration).desired_configuration
            == configuration,
{
}

/// Once a meta Configure has occurred, no run of ordinary Configures changes
/// anything: neither the desired configuration nor the closed marker.
pub proof fn lemma_ordinary_history_cannot_reopen<Configuration>(
    state: ConfigurationState<Configuration>,
    configuration: Configuration,
    history: Seq<ConfigureOperation<Configuration>>,
)
    requires
        ordinary_only(history),
    ensures
        operated_all(meta_configured(state, configuration), history) == meta_configured(state, configuration),
    decreases history.len(),
{
    if history.len() > 0 {
        assert(ordinary_only(history.drop_last()));
        lemma_ordinary_history_cannot_reopen(state, configuration, history.drop_last());
        assert(history.last() is Ordinary);
    }
}

/// A meta reversal reopens ordinary Configure and keeps the desired
/// configuration; the next ordinary Configure is then applied.
pub proof fn lemma_meta_reversal_reopens<Configuration>(
    state: ConfigurationState<Configuration>,
    configuration: Configuration,
)
    ensures
        ordinary_outcome(meta_reversed(state)) is Ok,
        meta_reversed(state).desired_configuration == state.desired_configuration,
        ordinary_configured(meta_reversed(state), configuration) == seeded(configuration),
{
}

/// A meta Configure always applies, whatever the state, and closes ordinary
/// Configure.
pub proof fn lemma_meta_configure_always_applies<Configuration>(
    state: ConfigurationState<Configuration>,
    configuration: Configuration,
)
    ensures
        meta_configured(state, configuration).desired_configuration == configuration,
        ordinary_outcome(meta_configured(state, configuration)) is Err,
{
}

} // verus!
