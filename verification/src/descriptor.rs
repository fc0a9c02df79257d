//! What the plugin declares of itself: its metadata, its file types, its
//! editors, and the error it reports.

use vstd::prelude::*;

verus! {

/// The descriptor under which a host lists the plugin.
#[derive(Clone, Debug, PartialEq, Eq)]
pub struct PluginMetadata {
    pub id: String,
    pub name: String,
    pub version: String,
    pub author: String,
    pub description: String,
}

/// The icons that a file type of this plugin is shown with.
#[derive(Clone, Copy, Debug, PartialEq, Eq, Structural)]
pub enum FileIcon {
    Code,
}

/// How a file type lies on disk.
#[derive(Clone, Debug, PartialEq, Eq)]
pub enum FileStructure {
    /// A folder that the host shows as one file. `marker_file` is the file in
    /// it that marks it and holds its content; `template_structure` lists what
    /// else a new folder is made with.
    FolderBased { marker_file: String, template_structure: Vec<String> },
}

/// One field of the content that a new file is made with.
#[derive(Clone, Debug, PartialEq, Eq)]
pub struct ContentField {
    pub key: String,
    pub value: String,
}

/// A file type that the plugin's editors open.
#[derive(Clone, Debug, PartialEq, Eq)]
pub struct FileTypeDefinition {
    pub id: String,
    pub extension: String,
    pub display_name: String,
    pub icon: FileIcon,
    /// The colour of the icon, as 0xRRGGBB.
    pub color: u32,
    pub structure: FileStructure,
    /// The fields of the object that a new file holds, in order.
    pub default_content: Vec<ContentField>,
    pub categories: Vec<String>,
}

/// An editor that the plugin offers.
#[derive(Clone, Debug, PartialEq, Eq)]
pub struct EditorMetadata {
    pub id: String,
    pub display_name: String,
    pub supported_file_types: Vec<String>,
}

/// What the plugin reports to the host when it cannot do what was asked.
#[derive(Clone, Debug, PartialEq, Eq)]
pub enum PluginError {
    /// The host asked for an editor that the plugin does not declare.
    EditorNotFound { editor_id: String },
}

/// The identifier of the one editor that the plugin declares.
pub open spec fn alias_editor_id() -> Seq<char> {
    "alias-editor"@
}

/// The identifier of the one file type that the plugin declares.
pub open spec fn alias_file_type_id() -> Seq<char> {
    "alias"@
}

/// Whether the plugin declares an editor under `editor_id`.
pub open spec fn declares_editor(editor_id: Seq<char>) -> bool {
    editor_id == alias_editor_id()
}

/// Whether `list` holds an editor under `editor_id`.
pub open spec fn lists_editor(list: Seq<EditorMetadata>, editor_id: Seq<char>) -> bool {
    exists|i: int| 0 <= i < list.len() && #[trigger] list[i].id@ == editor_id
}

/// Whether `m` is the plugin's descriptor.
pub open spec fn is_plugin_metadata(m: PluginMetadata) -> bool {
    &&& m.id@ == "com.pulsar.alias-editor"@
    &&& m.name@ == "Alias Editor"@
    &&& m.version@ == "0.1.0"@
    &&& m.author@ == "Pulsar Team"@
    &&& m.description@ == "Visual block-based editor for creating type aliases"@
}

/// Whether `d` is the type-alias file type: a folder marked by the marker
/// file, new ones holding the alias `NewAlias` of `i32`.
pub open spec fn is_alias_file_type(d: FileTypeDefinition) -> bool {
    &&& d.id@ == alias_file_type_id()
    &&& d.extension@ == "alias"@
    &&& d.display_name@ == "Type Alias"@
    &&& d.icon == FileIcon::Code
    &&& d.color == 0x3F51B5
    &&& match d.structure {
        FileStructure::FolderBased { marker_file, template_structure } => {
            &&& marker_file@ == crate::path::marker_file()
            &&& template_structure@.len() == 0
        },
    }
    &&& d.default_content@.len() == 2
    &&& d.default_content@[0].key@ == "name"@
    &&& d.default_content@[0].value@ == "NewAlias"@
    &&& d.default_content@[1].key@ == "target"@
    &&& d.default_content@[1].value@ == "i32"@
    &&& d.categories@.len() == 1
    &&& d.categories@[0]@ == "Types"@
}

/// Whether `e` is the alias editor, offered for type aliases.
pub open spec fn is_alias_editor(e: EditorMetadata) -> bool {
    &&& e.id@ == alias_editor_id()
    &&& e.display_name@ == "Alias Editor"@
    &&& e.supported_file_types@.len() == 1
    &&& e.supported_file_types@[0]@ == alias_file_type_id()
}

/// Whether the plugin declares an editor under `editor_id`.
pub fn is_declared_editor(editor_id: &String) -> (r: bool)
    ensures
        r == declares_editor(editor_id@),
{
    let declared = "alias-editor".to_owned();
    *editor_id == declared
}

} // verus!
