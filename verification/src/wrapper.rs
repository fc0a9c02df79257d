//! The control wrapper of one editor.

use vstd::prelude::*;

verus! {

/// The control wrapper of one editor: a handle of its own to the editor
/// object, and the path that the editor was bound to when it was made.
///
/// `E` is the host's handle to the editor object. The wrapper carries it and
/// never looks into it.
pub struct AliasEditorWrapper<E> {
    panel: E,
    file_path: String,
}

impl<E> AliasEditorWrapper<E> {
    /// The handle to the editor object.
    pub closed spec fn handle(&self) -> E {
        self.panel
    }

    /// The path that the editor is bound to.
    pub closed spec fn bound_path(&self) -> Seq<char> {
        self.file_path@
    }

    /// Binds an editor object to the path it was opened for.
    pub fn new(panel: E, file_path: String) -> (r: Self)
        ensures
            r.handle() == panel,
            r.bound_path() == file_path@,
    {
        AliasEditorWrapper { panel, file_path }
    }

    /// The path bound at construction. No operation of the wrapper changes it.
    pub fn file_path(&self) -> (r: &String)
        ensures
            r@ == self.bound_path(),
    {
        &self.file_path
    }

    /// The handle through which the editor object is saved and reloaded.
    pub fn panel(&self) -> (r: &E)
        ensures
            *r == self.handle(),
    {
        &self.panel
    }

    /// Whether the editor holds changes that were not saved. The wrapper keeps
    /// no record of changes, so it always answers no.
    pub fn is_dirty(&self) -> (r: bool)
        ensures
            !r,
    {
        false
    }
}

} // verus!
