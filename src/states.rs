//! The device objects of a job, gathered per kernel and for the memory.

use crate::binding::KernelBindings;
use ash::vk;
use ash::vk::Buffer as BufferHandle;
use vstd::prelude::*;

verus! {

/// ash's `vk::ShaderModule`, a handle carried as it is.
#[verifier::external_type_specification]
#[verifier::external_body]
pub struct ExShaderModule(vk::ShaderModule);

/// ash's `vk::DescriptorSet`, a handle carried as it is.
#[verifier::external_type_specification]
#[verifier::external_body]
pub struct ExDescriptorSet(vk::DescriptorSet);

/// ash's `vk::Pipeline`, a handle carried as it is.
#[verifier::external_type_specification]
#[verifier::external_body]
pub struct ExPipeline(vk::Pipeline);

/// ash's `vk::DeviceMemory`, a handle carried as it is.
#[verifier::external_type_specification]
#[verifier::external_body]
pub struct ExDeviceMemory(vk::DeviceMemory);

/// ash's `vk::Buffer` (imported as `BufferHandle`), a handle carried as it is.
#[verifier::external_type_specification]
#[verifier::external_body]
pub struct ExBuffer(BufferHandle);

/// Every object that one kernel's execution needs.
pub struct ShaderState {
    pub shader: vk::ShaderModule,
    pub descriptor: vk::DescriptorSet,
    pub write_descriptor: KernelBindings,
    pub pipeline: vk::Pipeline,
}

/// Gathers the objects of a `ShaderState` one at a time.
pub struct ShaderStateBuilder {
    pub shader: Option<vk::ShaderModule>,
    pub descriptor: Option<vk::DescriptorSet>,
    pub write_descriptor: Option<KernelBindings>,
    pub pipeline: Option<vk::Pipeline>,
}

impl ShaderStateBuilder {
    pub fn new() -> (r: ShaderStateBuilder)
        ensures
            r.shader is None,
            r.descriptor is None,
            r.write_descriptor is None,
            r.pipeline is None,
    {
        ShaderStateBuilder { shader: None, descriptor: None, write_descriptor: None, pipeline: None }
    }

    pub fn shader(self, shader: vk::ShaderModule) -> (r: ShaderStateBuilder)
        ensures
            r == (ShaderStateBuilder { shader: Some(shader), ..self }),
    {
        ShaderStateBuilder { shader: Some(shader), ..self }
    }

    pub fn descriptor(self, descriptor: vk::DescriptorSet) -> (r: ShaderStateBuilder)
        ensures
            r == (ShaderStateBuilder { descriptor: Some(descriptor), ..self }),
    {
        ShaderStateBuilder { descriptor: Some(descriptor), ..self }
    }

    pub fn write_descriptor(self, write_descriptor: KernelBindings) -> (r: ShaderStateBuilder)
        ensures
            r == (ShaderStateBuilder { write_descriptor: Some(write_descriptor), ..self }),
    {
        ShaderStateBuilder { write_descriptor: Some(write_descriptor), ..self }
    }

    pub fn pipeline(self, pipeline: vk::Pipeline) -> (r: ShaderStateBuilder)
        ensures
            r == (ShaderStateBuilder { pipeline: Some(pipeline), ..self }),
    {
        ShaderStateBuilder { pipeline: Some(pipeline), ..self }
    }

    /// The gathered state, or `None` while an object is missing.
    pub fn build(self) -> (r: Option<ShaderState>)
        ensures
            r is Some <==> self.shader is Some && self.descriptor is Some
                && self.write_descriptor is Some && self.pipeline is Some,
            r matches Some(st) ==> st == (ShaderState {
                shader: self.shader->0,
                descriptor: self.descriptor->0,
                write_descriptor: self.write_descriptor->0,
                pipeline: self.pipeline->0,
            }),
    {
        match (self.shader, self.descriptor, self.write_descriptor, self.pipeline) {
            (Some(shader), Some(descriptor), Some(write_descriptor), Some(pipeline)) => Some(
                ShaderState { shader, descriptor, write_descriptor, pipeline },
            ),
            _ => None,
        }
    }
}

/// The job's allocation and the buffers bound in it.
pub struct MemoryState {
    pub memory: vk::DeviceMemory,
    pub buffers: Vec<BufferHandle>,
}

pub struct MemoryStateBuilder {
    pub memory: Option<vk::DeviceMemory>,
    pub buffers: Vec<BufferHandle>,
}

impl MemoryStateBuilder {
    pub fn new() -> (r: MemoryStateBuilder)
        ensures
            r.memory is None,
            r.buffers@.len() == 0,
    {
        MemoryStateBuilder { memory: None, buffers: Vec::new() }
    }

    pub fn memory(self, mem: vk::DeviceMemory) -> (r: MemoryStateBuilder)
        ensures
            r.memory == Some(mem),
            r.buffers@ == self.buffers@,
    {
        MemoryStateBuilder { memory: Some(mem), ..self }
    }

    pub fn add_buffer(self, buffer: BufferHandle) -> (r: MemoryStateBuilder)
        ensures
            r.memory == self.memory,
            r.buffers@ == self.buffers@.push(buffer),
    {
        let mut b = self;
        b.buffers.push(buffer);
        b
    }

    /// The gathered state, or `None` while the allocation is missing.
    pub fn build(self) -> (r: Option<MemoryState>)
        ensures
            r is Some <==> self.memory is Some,
            r matches Some(st) ==> st.memory == self.memory->0 && st.buffers@ == self.buffers@,
    {
        match self.memory {
            Some(memory) => Some(MemoryState { memory, buffers: self.buffers }),
            None => None,
        }
    }
}

/// Everything a job holds on the device.
pub struct ExecutionState {
    pub memory_state: MemoryState,
    pub shaders_states: Vec<ShaderState>,
}

pub struct ExecutionStateBuilder {
    pub memory_state: Option<MemoryState>,
    pub shaders_states: Vec<ShaderState>,
}

impl ExecutionStateBuilder {
    pub fn new() -> (r: ExecutionStateBuilder)
        ensures
            r.memory_state is None,
            r.shaders_states@.len() == 0,
    {
        ExecutionStateBuilder { memory_state: None, shaders_states: Vec::new() }
    }

    pub fn memory_state(self, state: MemoryState) -> (r: ExecutionStateBuilder)
        ensures
            r.memory_state == Some(state),
            r.shaders_states@ == self.shaders_states@,
    {
        ExecutionStateBuilder { memory_state: Some(state), ..self }
    }

    pub fn add_shaders_states(self, state: ShaderState) -> (r: ExecutionStateBuilder)
        ensures
            r.memory_state == self.memory_state,
            r.shaders_states@ == self.shaders_states@.push(state),
    {
        let mut b = self;
        b.shaders_states.push(state);
        b
    }

    /// The gathered state, or `None` while the memory state is missing.
    pub fn build(self) -> (r: Option<ExecutionState>)
        ensures
            r is Some <==> self.memory_state is Some,
            r matches Some(st) ==> st.memory_state == self.memory_state->0
                && st.shaders_states@ == self.shaders_states@,
    {
        match self.memory_state {
            Some(memory_state) => Some(
                ExecutionState { memory_state, shaders_states: self.shaders_states },
            ),
            None => None,
        }
    }
}

} // verus!
