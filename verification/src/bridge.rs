//! Bridge settings and their resolution.

use crate::constraints::{Constraint, Match};
use crate::custom_list::CustomListsSettings;
use crate::describe::Describe;
use crate::net::{CustomProxy, TransportProtocol};
use crate::providers::{Ownership, Providers};
use crate::relay_constraints::{
    location_accepts, LocationConstraint, LocationConstraintFormatter,
};
use crate::relay_list::Relay;
use vstd::prelude::*;
use vstd::string::StringExecFns;

verus! {

/// Which of the two bridge configurations is in use.
#[derive(Debug, Clone, Copy, PartialEq, Eq, Structural)]
pub enum BridgeType {
    /// Let the relay selection algorithm decide on bridges, based on the relay list
    /// and normal bridge constraints.
    Normal,
    /// Use custom bridge configuration.
    Custom,
}

impl Describe for BridgeType {
    open spec fn description(&self) -> Seq<char> {
        match self {
            BridgeType::Normal => "normal"@,
            BridgeType::Custom => "custom"@,
        }
    }

    fn describe(&self) -> (text: String) {
        match self {
            BridgeType::Normal => String::from_str("normal"),
            BridgeType::Custom => String::from_str("custom"),
        }
    }
}

impl Default for BridgeType {
    fn default() -> (bridge_type: Self)
        ensures
            bridge_type == BridgeType::Normal,
    {
        BridgeType::Normal
    }
}

/// Returned when the custom bridge is asked for and none is configured.
#[derive(Debug)]
pub struct MissingCustomBridgeSettings(());

impl Describe for MissingCustomBridgeSettings {
    open spec fn description(&self) -> Seq<char> {
        "Missing custom bridge settings"@
    }

    fn describe(&self) -> (text: String) {
        String::from_str("Missing custom bridge settings")
    }
}

/// Limits the set of bridge servers to use.
#[derive(Debug, PartialEq, Eq)]
pub struct BridgeConstraints {
    pub location: Constraint<LocationConstraint>,
    pub providers: Constraint<Providers>,
    pub ownership: Constraint<Ownership>,
}

impl BridgeConstraints {
    /// Whether a relay meets the constraints: it lies where `location` asks,
    /// and it is of a provider and of an ownership that are asked for.
    pub open spec fn accepts(&self, custom_lists: &CustomListsSettings, relay: &Relay) -> bool {
        &&& location_accepts(&self.location, custom_lists, relay)
        &&& self.providers.accepts(relay)
        &&& self.ownership.accepts(relay)
    }
}

impl Default for BridgeConstraints {
    /// Constraints that accept every bridge.
    fn default() -> (constraints: Self)
        ensures
            constraints.location is Any,
            constraints.providers is Any,
            constraints.ownership is Any,
    {
        BridgeConstraints {
            location: Constraint::Any,
            providers: Constraint::Any,
            ownership: Constraint::Any,
        }
    }
}

/// Bridge constraints together with the custom lists, among which the name
/// of the list that the location refers to is looked up.
pub struct BridgeConstraintsFormatter<'a> {
    pub constraints: &'a BridgeConstraints,
    pub custom_lists: &'a CustomListsSettings,
}

/// The location, or `any location`; then `using` and the providers, or
/// `any provider`; then, if one is asked for, `and` and the ownership.
impl<'a> Describe for BridgeConstraintsFormatter<'a> {
    open spec fn description(&self) -> Seq<char> {
        let location = match self.constraints.location {
            Constraint::Any => "any location"@,
            Constraint::Only(constraint) => (LocationConstraintFormatter {
                constraint: &constraint,
                custom_lists: self.custom_lists,
            }).description(),
        };
        let providers = match self.constraints.providers {
            Constraint::Any => "any provider"@,
            Constraint::Only(providers) => providers.description(),
        };
        let ownership = match self.constraints.ownership {
            Constraint::Any => Seq::<char>::empty(),
            Constraint::Only(ownership) => " and "@ + ownership.description(),
        };
        location + " using "@ + providers + ownership
    }

    fn describe(&self) -> (text: String) {
        let mut text = match &self.constraints.location {
            Constraint::Any => String::from_str("any location"),
            Constraint::Only(constraint) => (LocationConstraintFormatter {
                constraint,
                custom_lists: self.custom_lists,
            }).describe(),
        };
        text.append(" using ");
        match &self.constraints.providers {
            Constraint::Any => text.append("any provider"),
            Constraint::Only(providers) => text.append(providers.describe().as_str()),
        }
        let ghost without_ownership = text@;
        match &self.constraints.ownership {
            Constraint::Any => {
                assert(text@ =~= without_ownership + Seq::<char>::empty());
            },
            Constraint::Only(ownership) => {
                text.append(" and ");
                text.append(ownership.describe().as_str());
                assert(text@ =~= without_ownership + (" and "@ + ownership.description()));
            },
        }
        text
    }
}

/// Specifies a specific endpoint or [`BridgeConstraints`] to use when a
/// bridge server is selected.
#[derive(Debug, PartialEq, Eq)]
pub struct BridgeSettings {
    pub bridge_type: BridgeType,
    pub normal: BridgeConstraints,
    pub custom: Option<CustomProxy>,
}

impl Default for BridgeSettings {
    fn default() -> (settings: Self)
        ensures
            settings.bridge_type == BridgeType::Normal,
            settings.normal.location is Any,
            settings.normal.providers is Any,
            settings.normal.ownership is Any,
            settings.custom is None,
    {
        BridgeSettings {
            bridge_type: BridgeType::default(),
            normal: BridgeConstraints::default(),
            custom: None,
        }
    }
}

/// The bridge configuration in use.
#[derive(Debug, PartialEq, Eq)]
pub enum ResolvedBridgeSettings<'a> {
    Normal(&'a BridgeConstraints),
    Custom(&'a CustomProxy),
}

impl BridgeSettings {
    /// Picks the configuration that `bridge_type` asks for: the constraints
    /// for `Normal`, whether or not a custom proxy is configured too, and the
    /// custom proxy for `Custom`. `Custom` without a custom proxy is an error.
    pub fn resolve(&self) -> (resolved: Result<ResolvedBridgeSettings<'_>, MissingCustomBridgeSettings>)
        ensures
            match (self.bridge_type, self.custom) {
                (BridgeType::Normal, _) => resolved matches Ok(ResolvedBridgeSettings::Normal(normal))
                    && *normal == self.normal,
                (BridgeType::Custom, Some(proxy)) => resolved matches Ok(
                    ResolvedBridgeSettings::Custom(custom),
                ) && *custom == proxy,
                (BridgeType::Custom, None) => resolved is Err,
            },
    {
        match self.bridge_type {
            BridgeType::Normal => Ok(ResolvedBridgeSettings::Normal(&self.normal)),
            BridgeType::Custom => match &self.custom {
                Some(custom) => Ok(ResolvedBridgeSettings::Custom(custom)),
                None => Err(MissingCustomBridgeSettings(())),
            },
        }
    }
}

/// Setting indicating whether to connect to a bridge server, or to handle it automatically.
#[derive(Debug, Clone, Copy, PartialEq, Eq, Structural)]
pub enum BridgeState {
    Auto,
    On,
    Off,
}

impl Describe for BridgeState {
    open spec fn description(&self) -> Seq<char> {
        match self {
            BridgeState::Auto => "auto"@,
            BridgeState::On => "on"@,
            BridgeState::Off => "off"@,
        }
    }

    fn describe(&self) -> (text: String) {
        match self {
            BridgeState::Auto => String::from_str("auto"),
            BridgeState::On => String::from_str("on"),
            BridgeState::Off => String::from_str("off"),
        }
    }
}

/// Bridge constraints together with the transport protocol that the bridge
/// is reached over.
#[derive(Debug, PartialEq, Eq)]
pub struct InternalBridgeConstraints {
    pub location: Constraint<LocationConstraint>,
    pub providers: Constraint<Providers>,
    pub ownership: Constraint<Ownership>,
    pub transport_protocol: Constraint<TransportProtocol>,
}

} // verus!
