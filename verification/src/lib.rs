//! Instance-lifecycle registry of the alias editor plugin.
//!
//! The plugin hands editor panels to a host while it stays the only owner of
//! what backs them. This crate holds the part of the plugin that decides:
//! which identity an editor gets, what the registry holds after each
//! operation, which path an editor is bound to, and what is left after the
//! plugin is unloaded.

pub mod descriptor;
pub mod identity;
pub mod laws;
pub mod path;
pub mod plugin;
pub mod registry;
pub mod wrapper;

pub use descriptor::{
    ContentField, EditorMetadata, FileIcon, FileStructure, FileTypeDefinition, PluginError,
    PluginMetadata,
};
pub use identity::IdentityAllocator;
pub use path::resolve_artifact_path;
pub use plugin::{AliasEditorPlugin, PluginState};
pub use registry::{EditorStorage, InstanceRegistry};
pub use wrapper::AliasEditorWrapper;
