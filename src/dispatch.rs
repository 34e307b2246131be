use vstd::prelude::*;

use crate::error::GpuError;
use crate::pipeline::BufferPlan;

verus! {

/// The sizes of one dispatch: `groups` work groups along one axis, a copy of
/// `copy_bytes` bytes from the storage buffer to the staging buffer, read back
/// as `output_count` output elements.
#[derive(Clone, Copy, Debug, PartialEq, Eq, Structural)]
pub struct DispatchShape {
    pub groups: u32,
    pub copy_bytes: u64,
    pub output_count: usize,
}

/// One step of a dispatch, to be performed in the order the plan lists them.
#[derive(Clone, Copy, Debug, PartialEq, Eq, Structural)]
pub enum DispatchStep {
    /// Queue a write of the plan's upload bytes to the storage buffer at offset 0.
    WriteStorage { bytes: u64 },
    /// Record a fresh command sequence and begin a compute pass in it.
    BeginPass,
    /// Bind the compiled pipeline.
    SetPipeline,
    /// Bind the bind group at this index.
    SetBindGroup { index: u32 },
    /// Tag the pass with the program's name.
    DebugMarker,
    /// Dispatch this many work groups.
    Dispatch { x: u32, y: u32, z: u32 },
    /// End the compute pass.
    EndPass,
    /// Record a copy of this many bytes from the storage to the staging buffer.
    CopyToStaging { bytes: u64 },
    /// Submit the recorded commands to the queue.
    Submit,
    /// Ask for a host-readable mapping of the staging buffer.
    MapStaging,
    /// Block, polling the device, until the mapping is ready or has failed.
    WaitForDevice,
}

/// A planned dispatch: its sizes, the bytes to upload to the storage buffer,
/// and the steps to perform, in order.
pub struct DispatchPlan {
    pub shape: DispatchShape,
    pub upload: Vec<u8>,
    pub steps: Vec<DispatchStep>,
}

impl DispatchPlan {
    pub open spec fn model(&self) -> (DispatchShape, Seq<u8>, Seq<DispatchStep>) {
        (self.shape, self.upload@, self.steps@)
    }
}

/// The steps of a dispatch of this shape. The input is uploaded first; the
/// copy is recorded after the dispatch and before the submission; the mapping
/// is asked for only after the submission. An empty dispatch has no steps.
pub open spec fn dispatch_steps(s: DispatchShape) -> Seq<DispatchStep> {
    if s.copy_bytes == 0 {
        Seq::empty()
    } else {
        seq![
            DispatchStep::WriteStorage { bytes: s.copy_bytes },
            DispatchStep::BeginPass,
            DispatchStep::SetPipeline,
            DispatchStep::SetBindGroup { index: 0 },
            DispatchStep::DebugMarker,
            DispatchStep::Dispatch { x: s.groups, y: 1, z: 1 },
            DispatchStep::EndPass,
            DispatchStep::CopyToStaging { bytes: s.copy_bytes },
            DispatchStep::Submit,
            DispatchStep::MapStaging,
            DispatchStep::WaitForDevice,
        ]
    }
}

/// The sizes of a dispatch of `input_count` elements, given as `input_len`
/// bytes, against `res`, or why it is refused. An empty input records no work
/// at all and reads back nothing.
pub open spec fn dispatch_shape(
    res: BufferPlan,
    input_count: usize,
    input_len: int,
    output_size: usize,
    max_groups: u32,
) -> Result<DispatchShape, GpuError> {
    if input_count == 0 {
        Ok(DispatchShape { groups: 0, copy_bytes: 0, output_count: 0 })
    } else if input_count != res.element_count {
        Err(GpuError::CountMismatch { built_for: res.element_count as u64, given: input_count as u64 })
    } else if input_len != res.storage_bytes {
        Err(GpuError::LayoutMismatch { bytes: input_len as u64, unit: res.element_size as u64 })
    } else if output_size == 0 || res.staging_bytes % (output_size as u64) != 0 {
        Err(GpuError::LayoutMismatch { bytes: res.staging_bytes, unit: output_size as u64 })
    } else if input_count > max_groups {
        Err(GpuError::DispatchTooLarge { groups: input_count as u64, limit: max_groups })
    } else {
        Ok(
            DispatchShape {
                groups: input_count as u32,
                copy_bytes: res.staging_bytes,
                output_count: (res.staging_bytes / (output_size as u64)) as usize,
            },
        )
    }
}

/// The whole plan of a dispatch of `input` (the bytes of `input_count`
/// elements) against `res`: its sizes, the input as the bytes to upload, and
/// its steps.
pub open spec fn planned(
    res: BufferPlan,
    input: Seq<u8>,
    input_count: usize,
    output_size: usize,
    max_groups: u32,
) -> Result<(DispatchShape, Seq<u8>, Seq<DispatchStep>), GpuError> {
    match dispatch_shape(res, input_count, input.len() as int, output_size, max_groups) {
        Ok(s) => Ok((s, if s.copy_bytes == 0 { Seq::empty() } else { input }, dispatch_steps(s))),
        Err(e) => Err(e),
    }
}

/// The first `n` bytes of `m`, in a fresh vector.
fn copy_prefix(m: &[u8], n: usize) -> (r: Vec<u8>)
    requires
        n <= m@.len(),
    ensures
        r@ == m@.subrange(0, n as int),
{
    let mut out: Vec<u8> = Vec::with_capacity(n);
    let mut i: usize = 0;
    while i < n
        invariant
            n <= m@.len(),
            i <= n,
            out@ == m@.subrange(0, i as int),
        decreases n - i,
    {
        out.push(m[i]);
        i += 1;
        assert(out@ =~= m@.subrange(0, i as int));
    }
    out
}

/// Plans one dispatch of `input`, the bytes of `input_count` elements: upload
/// the input over the whole storage buffer, run one work item per element,
/// and copy the whole storage buffer to the staging buffer.
pub fn plan_dispatch(
    res: &BufferPlan,
    input: &[u8],
    input_count: usize,
    output_size: usize,
    max_groups: u32,
) -> (r: Result<DispatchPlan, GpuError>)
    requires
        res.wf(),
    ensures
        match (r, planned(*res, input@, input_count, output_size, max_groups)) {
            (Ok(p), Ok(m)) => p.model() == m,
            (Err(e), Err(f)) => e == f,
            _ => false,
        },
{
    if input_count == 0 {
        let shape = DispatchShape { groups: 0, copy_bytes: 0, output_count: 0 };
        let steps: Vec<DispatchStep> = Vec::new();
        let upload: Vec<u8> = Vec::new();
        proof {
            assert(steps@ =~= dispatch_steps(shape));
            assert(upload@ =~= Seq::<u8>::empty());
        }
        return Ok(DispatchPlan { shape, upload, steps });
    }
    if input_count != res.element_count {
        return Err(GpuError::CountMismatch { built_for: res.element_count as u64, given: input_count as u64 });
    }
    if input.len() as u64 != res.storage_bytes {
        return Err(GpuError::LayoutMismatch { bytes: input.len() as u64, unit: res.element_size as u64 });
    }
    if output_size == 0 || res.staging_bytes % (output_size as u64) != 0 {
        return Err(GpuError::LayoutMismatch { bytes: res.staging_bytes, unit: output_size as u64 });
    }
    if input_count > max_groups as usize {
        return Err(GpuError::DispatchTooLarge { groups: input_count as u64, limit: max_groups });
    }
    let n = res.staging_bytes / (output_size as u64);
    assert(n <= res.staging_bytes);
    let shape = DispatchShape { groups: input_count as u32, copy_bytes: res.staging_bytes, output_count: n as usize };
    let upload = copy_prefix(input, input.len());
    assert(upload@ =~= input@);
    let steps: Vec<DispatchStep> = vec![
        DispatchStep::WriteStorage { bytes: shape.copy_bytes },
        DispatchStep::BeginPass,
        DispatchStep::SetPipeline,
        DispatchStep::SetBindGroup { index: 0 },
        DispatchStep::DebugMarker,
        DispatchStep::Dispatch { x: shape.groups, y: 1, z: 1 },
        DispatchStep::EndPass,
        DispatchStep::CopyToStaging { bytes: shape.copy_bytes },
        DispatchStep::Submit,
        DispatchStep::MapStaging,
        DispatchStep::WaitForDevice,
    ];
    assert(steps@ =~= dispatch_steps(shape));
    Ok(DispatchPlan { shape, upload, steps })
}

impl DispatchPlan {
    /// Whether the dispatch records any GPU work; when it does not, nothing is
    /// uploaded or submitted and no mapping is requested.
    pub fn needs_gpu(&self) -> (r: bool)
        ensures
            r == (self.shape.copy_bytes > 0),
    {
        self.shape.copy_bytes > 0
    }
}

pub open spec fn mapped_view(mapped: Option<&[u8]>) -> Option<Seq<u8>> {
    match mapped {
        Some(m) => Some(m@),
        None => None,
    }
}

/// The result of a dispatch, from what mapping the staging buffer gave
/// (`None` where the mapping failed): exactly the copied bytes, or
/// `BufferMapFailure`.
pub open spec fn readback(s: DispatchShape, mapped: Option<Seq<u8>>) -> Result<Seq<u8>, GpuError> {
    if s.copy_bytes == 0 {
        Ok(Seq::empty())
    } else {
        match mapped {
            None => Err(GpuError::BufferMapFailure),
            Some(m) => if m.len() < s.copy_bytes {
                Err(GpuError::BufferMapFailure)
            } else {
                Ok(m.subrange(0, s.copy_bytes as int))
            },
        }
    }
}

/// Copies the mapped bytes of the staging buffer into a fresh vector that the
/// caller owns; the staging buffer can be unmapped as soon as this returns.
pub fn collect_readback(plan: &DispatchPlan, mapped: Option<&[u8]>) -> (r: Result<Vec<u8>, GpuError>)
    ensures
        match (r, readback(plan.shape, mapped_view(mapped))) {
            (Ok(v), Ok(s)) => v@ == s,
            (Err(e), Err(f)) => e == f,
            _ => false,
        },
{
    if plan.shape.copy_bytes == 0 {
        return Ok(Vec::new());
    }
    match mapped {
        None => Err(GpuError::BufferMapFailure),
        Some(m) => {
            if (m.len() as u64) < plan.shape.copy_bytes {
                return Err(GpuError::BufferMapFailure);
            }
            Ok(copy_prefix(m, plan.shape.copy_bytes as usize))
        },
    }
}

/// Within a non-empty dispatch the input upload comes first, the dispatch
/// before the copy, the copy before the single submission, and the mapping
/// only after it, followed by the wait.
pub proof fn lemma_dispatch_steps_in_order(s: DispatchShape)
    requires
        s.copy_bytes > 0,
    ensures
        ({
            let st = dispatch_steps(s);
            &&& st.len() == 11
            &&& st[0] == DispatchStep::WriteStorage { bytes: s.copy_bytes }
            &&& st[5] == DispatchStep::Dispatch { x: s.groups, y: 1, z: 1 }
            &&& st[7] == DispatchStep::CopyToStaging { bytes: s.copy_bytes }
            &&& st[8] == DispatchStep::Submit
            &&& st[9] == DispatchStep::MapStaging
            &&& st[10] == DispatchStep::WaitForDevice
            &&& forall|i: int| 0 <= i < st.len() && #[trigger] st[i] == DispatchStep::Submit ==> i == 8
            &&& forall|i: int| 0 <= i < st.len() && #[trigger] st[i] == DispatchStep::MapStaging ==> i == 9
        }),
{
    let st = dispatch_steps(s);
    assert forall|i: int| 0 <= i < st.len() && #[trigger] st[i] == DispatchStep::Submit implies i == 8 by {
        assert(0 <= i < 11);
        if i != 8 {
            assert(i == 0 || i == 1 || i == 2 || i == 3 || i == 4 || i == 5 || i == 6 || i == 7 || i == 9 || i
                == 10);
        }
    }
    assert forall|i: int| 0 <= i < st.len() && #[trigger] st[i] == DispatchStep::MapStaging implies i == 9 by {
        if i != 9 {
            assert(i == 0 || i == 1 || i == 2 || i == 3 || i == 4 || i == 5 || i == 6 || i == 7 || i == 8 || i
                == 10);
        }
    }
}

} // verus!

verus! {

/// A dispatch of a non-empty input whose bytes fill the storage buffer its
/// resources were built with uploads exactly those bytes, records one work
/// item per input element, copies the whole storage buffer back, and reads
/// back whole output elements: as many as there are inputs when the output
/// element is as large as the input element.
pub proof fn lemma_one_work_item_per_element(
    res: BufferPlan,
    input: Seq<u8>,
    n: usize,
    output_size: usize,
    max_groups: u32,
)
    requires
        res.wf(),
        n == res.element_count,
        input.len() == res.storage_bytes,
        0 < n <= max_groups,
        output_size > 0,
        res.staging_bytes % (output_size as u64) == 0,
    ensures
        planned(res, input, n, output_size, max_groups) matches Ok(m) && m.1 == input && m.0.groups == n
            && m.0.copy_bytes == n as int * res.element_size as int && m.0.output_count as int
            * output_size as int == n as int * res.element_size as int,
        output_size == res.element_size ==> (planned(res, input, n, output_size, max_groups) matches Ok(m)
            && m.0.output_count == n),
{
    let b = res.staging_bytes as int;
    let o = output_size as int;
    let q = b / o;
    assert(q * o == b) by (nonlinear_arith)
        requires
            o > 0,
            b % o == 0,
            q == b / o,
    ;
    if output_size == res.element_size {
        assert(q == n as int) by (nonlinear_arith)
            requires
                q * o == b,
                b == n as int * o,
                o > 0,
        ;
    }
}

/// An empty input uploads nothing, records no GPU work and reads back an
/// empty result, whatever the staging buffer holds or whether it could be
/// mapped.
pub proof fn lemma_empty_input_reads_back_nothing(
    res: BufferPlan,
    input: Seq<u8>,
    output_size: usize,
    max_groups: u32,
    mapped: Option<Seq<u8>>,
)
    ensures
        planned(res, input, 0, output_size, max_groups) matches Ok(m) && m.0.groups == 0 && m.0.copy_bytes
            == 0 && m.0.output_count == 0 && m.1.len() == 0 && m.2.len() == 0 && readback(m.0, mapped)
            == Ok::<Seq<u8>, GpuError>(Seq::empty()),
{
}

/// Two dispatches of inputs of equal length against the same resources are
/// independent. Both are accepted or refused alike, with the same sizes and
/// steps. A non-empty one first uploads its own input over the whole storage
/// buffer, so the program runs on that input and on nothing an earlier
/// dispatch left behind. Its result is exactly the bytes its own copy wrote,
/// which cover the whole staging buffer.
pub proof fn lemma_no_residue_between_dispatches(
    res: BufferPlan,
    first: Seq<u8>,
    second: Seq<u8>,
    n: usize,
    output_size: usize,
    max_groups: u32,
    mapped: Seq<u8>,
)
    requires
        res.wf(),
        first.len() == second.len(),
    ensures
        match (planned(res, first, n, output_size, max_groups), planned(res, second, n, output_size, max_groups)) {
            (Ok(a), Ok(b)) => a.0 == b.0 && a.2 == b.2 && (n > 0 ==> {
                &&& b.1 == second
                &&& b.1.len() == res.storage_bytes
                &&& b.2[0] == DispatchStep::WriteStorage { bytes: res.storage_bytes }
                &&& b.0.copy_bytes == res.storage_bytes
                &&& readback(b.0, Some(mapped)) matches Ok(v) ==> v == mapped.subrange(
                    0,
                    res.staging_bytes as int,
                )
            }),
            (Err(e), Err(f)) => e == f,
            _ => false,
        },
{
}

} // verus!
