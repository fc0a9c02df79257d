//! The plugin as the host sees it.

use crate::descriptor::{
    declares_editor, is_alias_editor, is_alias_file_type, is_declared_editor, is_plugin_metadata,
    lists_editor, ContentField, EditorMetadata, FileIcon, FileStructure, FileTypeDefinition,
    PluginError, PluginMetadata,
};
use crate::identity::IdentityAllocator;
use crate::path::{resolve_artifact_path, resolved_path};
use crate::registry::{EditorStorage, InstanceRegistry};
use crate::wrapper::AliasEditorWrapper;
use vstd::prelude::*;

verus! {

/// What the plugin holds, as contracts speak of it: the identity that the next
/// editor gets, and the live editors under their identities.
pub struct PluginState<P, E> {
    pub next: usize,
    pub editors: Map<usize, EditorStorage<P, E>>,
}

impl<P, E> PluginState<P, E> {
    /// The state of a plugin that was just constructed.
    pub open spec fn initial() -> Self {
        PluginState { next: 0, editors: Map::empty() }
    }

    /// Every live editor has an identity that was handed out already.
    pub open spec fn well_formed(self) -> bool {
        &&& self.editors.dom().finite()
        &&& forall|id: usize| self.editors.contains_key(id) ==> id < self.next
    }

    /// The number of live editors.
    pub open spec fn live(self) -> nat {
        self.editors.len()
    }

    /// The state after `instance` was registered: it stands under the
    /// identity that was next, and the following identity is next.
    pub open spec fn registered(self, instance: EditorStorage<P, E>) -> Self {
        PluginState {
            next: (self.next + 1) as usize,
            editors: self.editors.insert(self.next, instance),
        }
    }

    /// The state after an unload: no editor is live. Identities that were
    /// handed out stay used.
    pub open spec fn unloaded(self) -> Self {
        PluginState { next: self.next, editors: Map::empty() }
    }

    /// The state after the editors of `items` were registered one by one, in
    /// order.
    pub open spec fn after_creations(self, items: Seq<EditorStorage<P, E>>) -> Self
        decreases items.len(),
    {
        if items.len() == 0 {
            self
        } else {
            self.after_creations(items.drop_last()).registered(items.last())
        }
    }

    /// The identity that the editor `items[i]` gets when the editors of
    /// `items` are registered one by one.
    pub open spec fn nth_identity(self, items: Seq<EditorStorage<P, E>>, i: int) -> usize {
        self.after_creations(items.take(i)).next
    }
}

/// Whether `instance` is what `build` made for the path `path`, bound to that
/// path.
pub open spec fn built_by<P, E, F: FnOnce(String) -> (P, E)>(
    build: F,
    path: Seq<char>,
    instance: EditorStorage<P, E>,
) -> bool {
    &&& instance.wrapper.bound_path() == path
    &&& exists|p: String|
        p@ == path && #[trigger] call_ensures(
            build,
            (p,),
            (instance.panel, instance.wrapper.handle()),
        )
}

/// The alias editor plugin: the registry of its live editors and the
/// allocator of their identities.
///
/// `P` is the display handle that the plugin shares with the host, `E` the
/// handle through which an editor is saved and reloaded. The plugin stores
/// both and looks into neither.
pub struct AliasEditorPlugin<P, E> {
    editors: InstanceRegistry<P, E>,
    next_editor_id: IdentityAllocator,
}

impl<P, E> View for AliasEditorPlugin<P, E> {
    type V = PluginState<P, E>;

    closed spec fn view(&self) -> PluginState<P, E> {
        PluginState { next: self.next_editor_id.upcoming(), editors: self.editors@ }
    }
}

impl<P, E> Default for AliasEditorPlugin<P, E> {
    /// A plugin without editors, whose first editor gets the identity zero.
    fn default() -> (r: Self)
        ensures
            r@ == PluginState::<P, E>::initial(),
            r.wf(),
    {
        let r = AliasEditorPlugin {
            editors: InstanceRegistry::new(),
            next_editor_id: IdentityAllocator::new(),
        };
        proof {
            r.editors.lemma_finite();
        }
        r
    }
}

impl<P, E> AliasEditorPlugin<P, E> {
    /// The plugin's invariant: that of its state.
    pub open spec fn wf(&self) -> bool {
        self@.well_formed()
    }

    /// The plugin's descriptor. It is the same at every call.
    pub fn metadata(&self) -> (r: PluginMetadata)
        ensures
            is_plugin_metadata(r),
    {
        PluginMetadata {
            id: "com.pulsar.alias-editor".to_owned(),
            name: "Alias Editor".to_owned(),
            version: "0.1.0".to_owned(),
            author: "Pulsar Team".to_owned(),
            description: "Visual block-based editor for creating type aliases".to_owned(),
        }
    }

    /// The file types that the plugin's editors open: the type alias, and no
    /// other.
    pub fn file_types(&self) -> (r: Vec<FileTypeDefinition>)
        ensures
            r@.len() == 1,
            is_alias_file_type(r@[0]),
    {
        let mut default_content: Vec<ContentField> = Vec::new();
        default_content.push(ContentField { key: "name".to_owned(), value: "NewAlias".to_owned() });
        default_content.push(ContentField { key: "target".to_owned(), value: "i32".to_owned() });
        let mut categories: Vec<String> = Vec::new();
        categories.push("Types".to_owned());
        let mut types: Vec<FileTypeDefinition> = Vec::new();
        types.push(
            FileTypeDefinition {
                id: "alias".to_owned(),
                extension: "alias".to_owned(),
                display_name: "Type Alias".to_owned(),
                icon: FileIcon::Code,
                color: 0x3F51B5,
                structure: FileStructure::FolderBased {
                    marker_file: "alias.json".to_owned(),
                    template_structure: Vec::new(),
                },
                default_content,
                categories,
            },
        );
        types
    }

    /// The editors that the plugin offers: the alias editor, and no other. The
    /// identifiers in the list are exactly those that `declares_editor`
    /// accepts, and so those for which an editor is created.
    pub fn editors(&self) -> (r: Vec<EditorMetadata>)
        ensures
            r@.len() == 1,
            is_alias_editor(r@[0]),
            forall|editor_id: Seq<char>|
                lists_editor(r@, editor_id) <==> declares_editor(editor_id),
    {
        let mut supported: Vec<String> = Vec::new();
        supported.push("alias".to_owned());
        let mut list: Vec<EditorMetadata> = Vec::new();
        list.push(
            EditorMetadata {
                id: "alias-editor".to_owned(),
                display_name: "Alias Editor".to_owned(),
                supported_file_types: supported,
            },
        );
        proof {
            assert forall|editor_id: Seq<char>|
                lists_editor(list@, editor_id) <==> declares_editor(editor_id) by {
                if declares_editor(editor_id) {
                    assert(list@[0].id@ == editor_id);
                }
            }
        }
        list
    }

    /// The first step of creating an editor, which touches no state: refuses
    /// an identifier that the plugin does not declare, handing it back in the
    /// error, and otherwise resolves the path that the editor is bound to.
    /// `is_dir` says whether `file_path` is a directory on disk.
    pub fn resolve_editor(editor_id: String, file_path: String, is_dir: bool) -> (r: Result<
        String,
        PluginError,
    >)
        ensures
            match r {
                Ok(path) => declares_editor(editor_id@) && path@ == resolved_path(
                    file_path@,
                    is_dir,
                ),
                Err(e) => !declares_editor(editor_id@) && e == (PluginError::EditorNotFound {
                    editor_id,
                }),
            },
    {
        if is_declared_editor(&editor_id) {
            Ok(resolve_artifact_path(file_path, is_dir))
        } else {
            Err(PluginError::EditorNotFound { editor_id })
        }
    }

    /// Whether an identity is left for one more editor.
    pub fn can_register(&self) -> (r: bool)
        ensures
            r == (self@.next < usize::MAX),
    {
        self.next_editor_id.has_next()
    }

    /// The last step of creating an editor: allocates the next identity and
    /// stores the editor under it. The plugin owns `panel` and `wrapper` from
    /// here on.
    pub fn register_editor(&mut self, panel: P, wrapper: AliasEditorWrapper<E>) -> (id: usize)
        requires
            old(self).wf(),
            old(self)@.next < usize::MAX,
        ensures
            id == old(self)@.next,
            final(self)@ == old(self)@.registered((EditorStorage { panel, wrapper })),
            final(self)@.live() == old(self)@.live() + 1,
            final(self).wf(),
    {
        let id: usize = self.next_editor_id.next();
        self.editors.insert(id, EditorStorage { panel, wrapper });
        proof {
            self.editors.lemma_finite();
        }
        id
    }

    /// Creates an editor under `editor_id` for `file_path`.
    ///
    /// An identifier that the plugin does not declare is refused with
    /// `EditorNotFound`, which carries it; `build` is not called then and the
    /// plugin stays as it was. Otherwise `build` makes the editor object for
    /// the resolved path, and the plugin stores it, bound to that path, under
    /// the next identity, which it returns.
    pub fn create_editor<F: FnOnce(String) -> (P, E)>(
        &mut self,
        editor_id: String,
        file_path: String,
        is_dir: bool,
        build: F,
    ) -> (r: Result<usize, PluginError>)
        requires
            old(self).wf(),
            old(self)@.next < usize::MAX,
            declares_editor(editor_id@) ==> forall|p: String|
                p@ == resolved_path(file_path@, is_dir) ==> call_requires(build, (p,)),
        ensures
            final(self).wf(),
            match r {
                Ok(id) => {
                    &&& declares_editor(editor_id@)
                    &&& id == old(self)@.next
                    &&& final(self)@.editors.contains_key(id)
                    &&& built_by(
                        build,
                        resolved_path(file_path@, is_dir),
                        final(self)@.editors[id],
                    )
                    &&& final(self)@ == old(self)@.registered(final(self)@.editors[id])
                    &&& final(self)@.live() == old(self)@.live() + 1
                },
                Err(e) => {
                    &&& !declares_editor(editor_id@)
                    &&& e == (PluginError::EditorNotFound { editor_id })
                    &&& final(self)@ == old(self)@
                },
            },
    {
        match Self::resolve_editor(editor_id, file_path, is_dir) {
            Ok(path) => {
                let bound = path.clone();
                let (panel, handle) = build(path);
                let wrapper = AliasEditorWrapper::new(handle, bound);
                let id: usize = self.register_editor(panel, wrapper);
                proof {
                    let instance = EditorStorage { panel, wrapper };
                    assert(self@.editors[id] == instance);
                    assert(call_ensures(build, (path,), (instance.panel, instance.wrapper.handle())));
                }
                Ok(id)
            },
            Err(e) => Err(e),
        }
    }

    /// The plugin was loaded. Nothing of its state changes.
    pub fn on_load(&mut self)
        ensures
            *final(self) == *old(self),
    {
    }

    /// The plugin is unloaded: every editor is removed and dropped, whoever
    /// still holds a display handle. Returns how many editors were released;
    /// on a plugin without editors that is zero.
    pub fn on_unload(&mut self) -> (count: usize)
        ensures
            count == old(self)@.live(),
            final(self)@ == old(self)@.unloaded(),
            old(self).wf() ==> final(self).wf(),
    {
        let count: usize = self.editors.clear();
        count
    }

    /// The number of live editors.
    pub fn editor_count(&self) -> (r: usize)
        ensures
            r == self@.live(),
    {
        self.editors.len()
    }

    /// The display handle of the editor `id`, to be shared with the host;
    /// `None` where no such editor is live.
    pub fn display_handle(&self, id: usize) -> (r: Option<&P>)
        ensures
            match r {
                Some(panel) => self@.editors.contains_key(id) && *panel == self@.editors[id].panel,
                None => !self@.editors.contains_key(id),
            },
    {
        match self.editors.get(id) {
            Some(instance) => Some(&instance.panel),
            None => None,
        }
    }

    /// The control handle of the editor `id`: a reference to the wrapper,
    /// which stays the plugin's; `None` where no such editor is live.
    pub fn control_handle(&self, id: usize) -> (r: Option<&AliasEditorWrapper<E>>)
        ensures
            match r {
                Some(wrapper) => self@.editors.contains_key(id) && *wrapper
                    == self@.editors[id].wrapper,
                None => !self@.editors.contains_key(id),
            },
    {
        match self.editors.get(id) {
            Some(instance) => Some(&instance.wrapper),
            None => None,
        }
    }
}

} // verus!
