//! rubevy: mruby scripts as tasks of one SabiRuby VM, bridged to a Bevy world.
//!
//! One VM for the whole app ([`ScriptWorld`]), and one task per script: a [`Script`] becomes
//! a task of the VM's scheduler, and every frame the scheduler gets a budget of
//! instructions. What a script sees of the host is the `Rubevy` module ([`host_api`]): its
//! natives leave [`HostCommand`]s in the VM, which are routed after the frame's scripts have
//! run ([`route_commands`]): a question (`Rubevy.ask`) becomes a [`Request`] the game
//! answers with an [`Answer`], everything else a [`WorldAction`] the game carries out.
//!
//! Entities cross as `Entity::to_bits` ([`entity`]); numbers cross as the VM's own values
//! and are read by the game.

pub mod asset;
pub mod command;
pub mod entity;
pub mod host_api;
pub mod request;
pub mod script;
pub mod text;
pub mod vm;
pub mod world;

pub use asset::{MrbAsset, MrbLoadError, MrbLoader};
pub use command::{route_commands, HostCommand, HostState, WorldAction};
pub use entity::{entity_inspect, entity_of, ENTITY_TAG};
pub use request::{Answer, Arg, Request};
pub use script::{RubevyPlugin, Script, ScriptDone, ScriptEnded, ScriptStats, ScriptStatus, ScriptTask, SpawnedByScript};
pub use world::{pending_command_count, ScriptWorld};
