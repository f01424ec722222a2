use vstd::prelude::*;

verus! {

/// The family of the graphics API that a context speaks.
#[derive(Clone, Copy, Debug, PartialEq, Eq, Structural)]
pub enum Api {
    Gl,
    GlEs,
}

/// A driver version: API, major number, minor number.
#[derive(Clone, Copy, Debug, PartialEq, Eq, Structural)]
pub struct Version(pub Api, pub u8, pub u8);

/// The extensions of a context that buffers care about.
#[derive(Clone, Copy, Debug, PartialEq, Eq, Structural)]
pub struct ExtensionsList {
    /// Attributes that advance once per instance.
    pub gl_arb_instanced_arrays: bool,
    /// Immutable storage, which persistent mapping needs.
    pub gl_arb_buffer_storage: bool,
    /// Reading a buffer's contents back to the client.
    pub gl_read_buffer: bool,
}

/// `v` is an OpenGL version of at least `major.minor`.
pub open spec fn gl_at_least(v: Version, major: u8, minor: u8) -> bool {
    v.0 == Api::Gl && (v.1 > major || (v.1 == major && v.2 >= minor))
}

/// Instancing is there from OpenGL 3.3 on, or through its extension.
pub open spec fn instancing_supported(v: Version, e: ExtensionsList) -> bool {
    gl_at_least(v, 3, 3) || e.gl_arb_instanced_arrays
}

/// Persistent mapping needs the buffer-storage extension.
pub open spec fn persistent_mapping_supported(e: ExtensionsList) -> bool {
    e.gl_arb_buffer_storage
}

/// Reading buffers back needs the read-buffer capability.
pub open spec fn read_back_supported(e: ExtensionsList) -> bool {
    e.gl_read_buffer
}

/// What a context looks like from outside.
pub ghost struct ContextView {
    pub version: Version,
    pub extensions: ExtensionsList,
    /// The handle that the next allocation receives.
    pub next_id: u32,
}

/// A driver context: its capabilities and the buffer handles it gives out.
pub struct Context {
    version: Version,
    extensions: ExtensionsList,
    next_id: u32,
}

impl View for Context {
    type V = ContextView;

    closed spec fn view(&self) -> ContextView {
        ContextView { version: self.version, extensions: self.extensions, next_id: self.next_id }
    }
}

impl Context {
    /// A context with the given capabilities that has handed out no handle yet.
    pub fn new(version: Version, extensions: ExtensionsList) -> (r: Context)
        ensures
            r@.version == version,
            r@.extensions == extensions,
            r@.next_id == 1,
    {
        Context { version, extensions, next_id: 1 }
    }

    /// The driver's version.
    pub fn get_version(&self) -> (r: Version)
        ensures
            r == self@.version,
    {
        self.version
    }

    /// The driver's extensions.
    pub fn get_extensions(&self) -> (r: ExtensionsList)
        ensures
            r == self@.extensions,
    {
        self.extensions
    }

    /// Whether buffers of this context may be mapped persistently.
    pub fn supports_persistent_mapping(&self) -> (r: bool)
        ensures
            r == persistent_mapping_supported(self@.extensions),
    {
        self.extensions.gl_arb_buffer_storage
    }

    /// Hands out a fresh buffer handle, or `None` once all handles are used.
    pub fn allocate_id(&mut self) -> (r: Option<u32>)
        ensures
            final(self)@.version == old(self)@.version,
            final(self)@.extensions == old(self)@.extensions,
            old(self)@.next_id < u32::MAX ==> r == Some(old(self)@.next_id)
                && final(self)@.next_id == old(self)@.next_id + 1,
            old(self)@.next_id == u32::MAX ==> r.is_none() && final(self)@ == old(self)@,
    {
        if self.next_id == u32::MAX {
            None
        } else {
            let id = self.next_id;
            self.next_id = self.next_id + 1;
            Some(id)
        }
    }
}

} // verus!
