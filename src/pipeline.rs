use vstd::prelude::*;

use crate::error::{BuildStage, GpuError};

verus! {

/// Binding slot of the storage buffer in the program's bind group.
pub const STORAGE_BINDING: u32 = 0;

/// Binding slot of the auxiliary uniform buffer in the program's bind group.
pub const AUX_BINDING: u32 = 1;

/// Buffer copies must cover a whole multiple of this many bytes.
pub const COPY_ALIGNMENT: u64 = 4;

/// A compute program: a diagnostic label and its source text.
pub struct ShaderData<'a> {
    pub name: &'a str,
    pub source: &'a str,
}

impl<'a> ShaderData<'a> {
    pub fn new(name: &'a str, source: &'a str) -> (r: ShaderData<'a>)
        ensures
            r.name@ == name@,
            r.source@ == source@,
    {
        ShaderData { name, source }
    }
}

/// The byte layout of one element of a host array.
#[derive(Clone, Copy, Debug, PartialEq, Eq, Structural)]
pub struct ElementLayout {
    pub size: usize,
    pub count: usize,
}

/// The limits of the opened device that buffer sizes and dispatches must respect.
#[derive(Clone, Copy, Debug, PartialEq, Eq, Structural)]
pub struct DeviceLimits {
    pub max_storage_binding: u32,
    pub max_uniform_binding: u32,
    pub max_groups_per_dimension: u32,
}

/// The sizes of the three buffers of a pipeline.
#[derive(Clone, Copy, Debug, PartialEq, Eq, Structural)]
pub struct BufferPlan {
    pub element_count: usize,
    pub element_size: usize,
    pub storage_bytes: u64,
    pub staging_bytes: u64,
    pub aux_bytes: u64,
}

pub open spec fn byte_len(l: ElementLayout) -> int {
    l.count as int * l.size as int
}

/// A byte size as reported in an error: saturated at the largest `u64`.
pub open spec fn reported_size(n: int) -> u64 {
    if n > u64::MAX {
        u64::MAX
    } else {
        n as u64
    }
}

impl BufferPlan {
    /// Storage and staging both hold exactly the input array, which is not
    /// empty, fits in host memory and can be copied as a whole.
    pub open spec fn wf(&self) -> bool {
        &&& self.storage_bytes == self.element_count as int * self.element_size as int
        &&& self.staging_bytes == self.storage_bytes
        &&& 0 < self.storage_bytes <= usize::MAX
        &&& self.storage_bytes % COPY_ALIGNMENT == 0
        &&& self.aux_bytes > 0
    }
}

/// The buffers a program with this input and auxiliary data needs, or why
/// the device would refuse them.
pub open spec fn pipeline_plan(input: ElementLayout, aux: ElementLayout, limits: DeviceLimits) -> Result<BufferPlan, GpuError> {
    let ib = byte_len(input);
    let ab = byte_len(aux);
    if ib == 0 || ib > limits.max_storage_binding {
        Err(GpuError::PipelineBuildFailure { stage: BuildStage::StorageBuffer, size: reported_size(ib) })
    } else if ib % (COPY_ALIGNMENT as int) != 0 {
        Err(GpuError::LayoutMismatch { bytes: ib as u64, unit: COPY_ALIGNMENT })
    } else if ab == 0 || ab > limits.max_uniform_binding {
        Err(GpuError::PipelineBuildFailure { stage: BuildStage::AuxBuffer, size: reported_size(ab) })
    } else {
        Ok(
            BufferPlan {
                element_count: input.count,
                element_size: input.size,
                storage_bytes: ib as u64,
                staging_bytes: ib as u64,
                aux_bytes: ab as u64,
            },
        )
    }
}

/// The byte length of an array, or `None` where it exceeds `u64`.
fn checked_byte_len(l: ElementLayout) -> (r: Option<u64>)
    ensures
        r == (if byte_len(l) <= u64::MAX {
            Some(byte_len(l) as u64)
        } else {
            None::<u64>
        }),
{
    (l.count as u64).checked_mul(l.size as u64)
}

/// Sizes the storage, staging and auxiliary buffers of a pipeline, checking
/// each against what the device accepts so that a refusal is reported here
/// rather than raised by the device.
pub fn plan_pipeline(input: ElementLayout, aux: ElementLayout, limits: DeviceLimits) -> (r: Result<BufferPlan, GpuError>)
    ensures
        r == pipeline_plan(input, aux, limits),
        r matches Ok(p) ==> p.wf(),
{
    let ib = match checked_byte_len(input) {
        Some(n) => n,
        None => {
            return Err(GpuError::PipelineBuildFailure { stage: BuildStage::StorageBuffer, size: u64::MAX });
        },
    };
    if ib == 0 || ib > limits.max_storage_binding as u64 {
        return Err(GpuError::PipelineBuildFailure { stage: BuildStage::StorageBuffer, size: ib });
    }
    if ib % COPY_ALIGNMENT != 0 {
        return Err(GpuError::LayoutMismatch { bytes: ib, unit: COPY_ALIGNMENT });
    }
    let ab = match checked_byte_len(aux) {
        Some(n) => n,
        None => {
            return Err(GpuError::PipelineBuildFailure { stage: BuildStage::AuxBuffer, size: u64::MAX });
        },
    };
    if ab == 0 || ab > limits.max_uniform_binding as u64 {
        return Err(GpuError::PipelineBuildFailure { stage: BuildStage::AuxBuffer, size: ab });
    }
    Ok(
        BufferPlan {
            element_count: input.count,
            element_size: input.size,
            storage_bytes: ib,
            staging_bytes: ib,
            aux_bytes: ab,
        },
    )
}

} // verus!
