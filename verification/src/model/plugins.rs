//! Extension points: actions, widgets and the plugin that bundles them.
//!
//! Detectors are the shipped extension point (see `scan::walk::Detector`);
//! the traits here give actions and widgets the same shape. Nothing in the
//! library implements them: they are for downstream crates.

use std::sync::Arc;
use vstd::prelude::*;

use crate::model::error::Error;
use crate::model::vobe::Vobe;

verus! {

/// The JSON value that a widget hands to its renderer.
#[verifier::external_type_specification]
#[verifier::external_body]
pub struct ExJsonValue(serde_json::Value);

/// What an action is invoked with: the vobe it targets, if any, and a
/// free-form argument whose parsing the action defines.
#[derive(Clone)]
pub struct ActionContext {
    pub vobe: Option<Arc<Vobe>>,
    pub argument: Option<String>,
}

/// A user-runnable operation, addressed from a command palette.
pub trait Action: Send + Sync {
    /// Stable id, unique across all plugins.
    fn id(&self) -> &str;

    /// One-line label.
    fn label(&self) -> &str;

    /// Longer help text.
    fn description(&self) -> &str;

    /// Runs the action; an error aborts any chained invocations.
    fn run(&self, ctx: &ActionContext) -> Result<(), Error>;
}

/// A read-only panel on a vobe's detail view.
pub trait Widget: Send + Sync {
    /// Stable id, unique across all plugins.
    fn id(&self) -> &str;

    /// Panel header.
    fn label(&self) -> &str;

    /// The data to render for a vobe.
    fn render(&self, vobe: &Vobe) -> Result<WidgetPayload, Error>;
}

/// What a widget returns: a plugin-defined JSON body.
pub struct WidgetPayload {
    pub body: serde_json::Value,
}

/// A bundle of actions and widgets that a downstream crate contributes.
pub trait Plugin: Send + Sync {
    /// Stable plugin id.
    fn id(&self) -> &str;

    /// The actions this plugin contributes.
    fn actions(&self) -> Vec<Box<dyn Action>>;

    /// The widgets this plugin contributes.
    fn widgets(&self) -> Vec<Box<dyn Widget>>;

    /// Called once at startup to hand the pieces to the host.
    fn register(&self);
}

/// The id of the built-in plugin, which supplies the stock detectors and
/// actions.
pub const BUILTIN_PLUGIN_ID: &'static str = "land.jyz.vobes.builtin";

} // verus!
