//! The pieces a job is declared with: bind points, dispatch sizes, kernels,
//! and the links between kernels and buffers.

use vstd::prelude::*;

verus! {

/// Where a buffer is attached inside a kernel's resource layout.
#[derive(Clone, Copy, Debug, PartialEq, Eq, Structural)]
pub struct BindPoint {
    /// Descriptor set. Resources are all bound in set 0; this field is kept
    /// for callers but not used when binding.
    pub set: u32,
    /// Binding slot inside the set.
    pub bind: u32,
}

impl BindPoint {
    pub fn new(set: u32, bind: u32) -> (r: BindPoint)
        ensures
            r.set == set,
            r.bind == bind,
    {
        BindPoint { set, bind }
    }
}

/// Workgroup counts of one kernel run.
#[derive(Clone, Copy, Debug, PartialEq, Eq, Structural)]
pub struct Dispatch {
    pub x: u32,
    pub y: u32,
    pub z: u32,
}

impl Dispatch {
    pub fn new(x: u32, y: u32, z: u32) -> (r: Dispatch)
        ensures
            r.x == x,
            r.y == y,
            r.z == z,
    {
        Dispatch { x, y, z }
    }

    /// Each count is at least one.
    pub open spec fn is_valid(self) -> bool {
        self.x >= 1 && self.y >= 1 && self.z >= 1
    }

    pub fn valid(&self) -> (r: bool)
        ensures
            r == self.is_valid(),
    {
        self.x >= 1 && self.y >= 1 && self.z >= 1
    }
}

/// The two kinds of buffer a kernel can see.
#[derive(Clone, Copy, Debug, PartialEq, Eq, Structural)]
pub enum BufferType {
    /// A storage buffer, read and written by kernels.
    Storage,
    /// A uniform block, read only.
    Uniform,
}

/// One compute kernel: its compiled binary (entered at `main`) and the
/// workgroup counts it is dispatched with.
#[derive(Debug)]
pub struct Shader {
    pub binary: Vec<u8>,
    pub dispatch: Dispatch,
}

impl Shader {
    pub fn new(binary: Vec<u8>, dispatch: (u32, u32, u32)) -> (r: Shader)
        ensures
            r.binary@ == binary@,
            r.dispatch == (Dispatch { x: dispatch.0, y: dispatch.1, z: dispatch.2 }),
    {
        Shader { binary, dispatch: Dispatch::new(dispatch.0, dispatch.1, dispatch.2) }
    }
}

/// A buffer of a declaration: its kind and its initial bytes.
#[derive(Debug)]
pub struct Buffer {
    pub data: Vec<u8>,
    pub buffer_type: BufferType,
}

impl Buffer {
    pub fn new(data: Vec<u8>, buffer_type: BufferType) -> (r: Buffer)
        ensures
            r.data@ == data@,
            r.buffer_type == buffer_type,
    {
        Buffer { data, buffer_type }
    }

    /// Size in bytes.
    pub fn size(&self) -> (r: usize)
        ensures
            r == self.data@.len(),
    {
        self.data.len()
    }
}

/// Attaches buffer `buffer_id` to kernel `shader_id` at `bind`.
#[derive(Clone, Copy, Debug, PartialEq, Eq, Structural)]
pub struct Link {
    pub shader_id: usize,
    pub buffer_id: usize,
    pub bind: BindPoint,
}

impl Link {
    pub fn new(shader_id: usize, buffer_id: usize, bind: BindPoint) -> (r: Link)
        ensures
            r.shader_id == shader_id,
            r.buffer_id == buffer_id,
            r.bind == bind,
    {
        Link { shader_id, buffer_id, bind }
    }
}

/// A job declaration as ordered lists of kernels, buffers and links, each
/// entry named by its position.
pub struct JobDefinition {
    pub shaders: Vec<Shader>,
    pub buffers: Vec<Buffer>,
    pub links: Vec<Link>,
}

impl JobDefinition {
    pub fn new() -> (r: JobDefinition)
        ensures
            r.shaders@.len() == 0,
            r.buffers@.len() == 0,
            r.links@.len() == 0,
    {
        JobDefinition { shaders: Vec::new(), buffers: Vec::new(), links: Vec::new() }
    }

    /// Appends a kernel and returns its position.
    pub fn add_shader(&mut self, shader: Shader) -> (r: usize)
        ensures
            final(self).shaders@ == old(self).shaders@.push(shader),
            final(self).buffers@ == old(self).buffers@,
            final(self).links@ == old(self).links@,
            r == old(self).shaders@.len(),
    {
        self.shaders.push(shader);
        self.shaders.len() - 1
    }

    /// Appends a buffer and returns its position.
    pub fn add_buffer(&mut self, buffer: Buffer) -> (r: usize)
        ensures
            final(self).buffers@ == old(self).buffers@.push(buffer),
            final(self).shaders@ == old(self).shaders@,
            final(self).links@ == old(self).links@,
            r == old(self).buffers@.len(),
    {
        self.buffers.push(buffer);
        self.buffers.len() - 1
    }

    /// Records that kernel `shader_id` sees buffer `buffer_id` at `bind`, and
    /// returns the link's position.
    pub fn link(&mut self, shader_id: usize, buffer_id: usize, bind: BindPoint) -> (r: usize)
        ensures
            final(self).links@ == old(self).links@.push(
                Link { shader_id, buffer_id, bind },
            ),
            final(self).shaders@ == old(self).shaders@,
            final(self).buffers@ == old(self).buffers@,
            r == old(self).links@.len(),
    {
        self.links.push(Link::new(shader_id, buffer_id, bind));
        self.links.len() - 1
    }
}

} // verus!
