use alias_editor::{
    resolve_artifact_path, AliasEditorPlugin, ContentField, EditorMetadata, FileIcon,
    FileStructure, FileTypeDefinition, PluginMetadata,
};

type Plugin = AliasEditorPlugin<u8, u8>;

#[test]
fn directory_resolves_to_its_marker_file() {
    assert_eq!(
        resolve_artifact_path("/x/MyAlias.alias".to_string(), true),
        "/x/MyAlias.alias/alias.json"
    );
    assert_eq!(resolve_artifact_path("types/Id.alias".to_string(), true), "types/Id.alias/alias.json");
}

#[test]
fn directory_with_trailing_separator_gets_no_second_one() {
    assert_eq!(resolve_artifact_path("/x/MyAlias.alias/".to_string(), true), "/x/MyAlias.alias/alias.json");
}

#[test]
fn file_path_resolves_to_itself() {
    assert_eq!(
        resolve_artifact_path("/x/MyAlias.alias/alias.json".to_string(), false),
        "/x/MyAlias.alias/alias.json"
    );
    assert_eq!(resolve_artifact_path("/x/MyAlias.alias".to_string(), false), "/x/MyAlias.alias");
    assert_eq!(resolve_artifact_path(String::new(), false), "");
}

#[test]
fn metadata_is_the_fixed_descriptor() {
    let plugin: Plugin = Default::default();
    let expected = PluginMetadata {
        id: "com.pulsar.alias-editor".to_string(),
        name: "Alias Editor".to_string(),
        version: "0.1.0".to_string(),
        author: "Pulsar Team".to_string(),
        description: "Visual block-based editor for creating type aliases".to_string(),
    };
    assert_eq!(plugin.metadata(), expected);
    assert_eq!(plugin.metadata(), plugin.metadata());
}

#[test]
fn file_types_declare_the_folder_based_alias() {
    let plugin: Plugin = Default::default();
    let expected = FileTypeDefinition {
        id: "alias".to_string(),
        extension: "alias".to_string(),
        display_name: "Type Alias".to_string(),
        icon: FileIcon::Code,
        color: 0x3F51B5,
        structure: FileStructure::FolderBased {
            marker_file: "alias.json".to_string(),
            template_structure: vec![],
        },
        default_content: vec![
            ContentField { key: "name".to_string(), value: "NewAlias".to_string() },
            ContentField { key: "target".to_string(), value: "i32".to_string() },
        ],
        categories: vec!["Types".to_string()],
    };
    assert_eq!(plugin.file_types(), vec![expected]);
}

#[test]
fn editors_declare_the_alias_editor() {
    let plugin: Plugin = Default::default();
    let expected = EditorMetadata {
        id: "alias-editor".to_string(),
        display_name: "Alias Editor".to_string(),
        supported_file_types: vec!["alias".to_string()],
    };
    assert_eq!(plugin.editors(), vec![expected]);
}

#[test]
fn every_declared_editor_can_be_created_for_every_declared_file_type() {
    let mut plugin: Plugin = Default::default();
    let types = plugin.file_types();
    let mut made = 0;
    for editor in plugin.editors() {
        for supported in &editor.supported_file_types {
            assert!(types.iter().any(|t| &t.id == supported));
            let r = plugin.create_editor(editor.id.clone(), "/a".to_string(), false, |_| (0, 0));
            assert_eq!(r, Ok(made));
            made += 1;
        }
    }
    assert_eq!(plugin.editor_count(), 1);
}
