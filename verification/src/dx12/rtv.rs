//! Descriptors of the back buffers.

use crate::text::{append_decimal, decimal};
use vstd::prelude::*;
use vstd::string::StringExecFns;

verus! {

/// How many render targets there can be at once.
pub const MAX_RENDER_TARGETS: usize = 8;

pub const HEAP_RTV: i32 = 2;

pub const HEAP_FLAG_NONE: i32 = 0;

/// A heap of descriptors.
#[derive(Debug, Clone, Copy, PartialEq, Eq, Structural)]
pub struct HeapPlan {
    pub heap_type: i32,
    pub flags: i32,
    pub num_descriptors: u32,
}

/// The heap of the back buffers' descriptors: room for every render target.
pub fn descriptor_heap() -> (r: HeapPlan)
    ensures
        r == (HeapPlan {
            heap_type: HEAP_RTV,
            flags: HEAP_FLAG_NONE,
            num_descriptors: MAX_RENDER_TARGETS as u32,
        }),
{
    HeapPlan { heap_type: HEAP_RTV, flags: HEAP_FLAG_NONE, num_descriptors: MAX_RENDER_TARGETS as u32 }
}

/// The index of a back buffer is beyond what the descriptors are there for.
#[derive(Debug, Clone, Copy, PartialEq, Eq, Structural)]
pub struct IndexError {
    pub index: usize,
}

impl IndexError {
    pub open spec fn text(self) -> Seq<char> {
        "backbuffer index "@ + decimal(self.index as nat)
            + " exceeds RTV descriptor heap capacity ("@ + decimal(MAX_RENDER_TARGETS as nat) + ")"@
    }

    /// What went wrong.
    pub fn message(&self) -> (r: String)
        ensures
            r@ == self.text(),
    {
        let mut text = "backbuffer index ".to_owned();
        append_decimal(&mut text, self.index as u64);
        text.append(" exceeds RTV descriptor heap capacity (");
        append_decimal(&mut text, MAX_RENDER_TARGETS as u64);
        text.append(")");
        text
    }
}

/// The descriptor of a back buffer.
#[derive(Debug, Clone, Copy, PartialEq, Eq, Structural)]
pub struct RtvDescriptor {
    /// Its address.
    pub ptr: usize,
    /// Whether a view is yet to be made there.
    pub create: bool,
}

/// Descriptors for the back buffers of a swapchain.
#[derive(Debug, Clone, Copy, PartialEq, Eq, Structural)]
pub struct RtvDescriptors {
    /// Address of the first.
    pub heap_start: usize,
    /// The bit of each back buffer whose view was asked for.
    pub flags: u32,
    /// Distance from one to the next.
    pub descriptor_size: usize,
}

impl RtvDescriptors {
    /// Whether the view of back buffer `index` was asked for.
    pub open spec fn has_view(self, index: usize) -> bool {
        (self.flags >> (index as u32)) & 1 == 1
    }

    /// All descriptors have an address.
    pub open spec fn wf(self) -> bool {
        self.heap_start + self.descriptor_size * MAX_RENDER_TARGETS <= usize::MAX
    }

    /// The address of descriptor `index`.
    pub open spec fn address(self, index: usize) -> int {
        self.heap_start + self.descriptor_size * index
    }

    /// Descriptors without views.
    pub fn new(heap_start: usize, descriptor_size: usize) -> (r: RtvDescriptors)
        ensures
            r == (RtvDescriptors { heap_start, flags: 0, descriptor_size }),
    {
        RtvDescriptors { heap_start, flags: 0, descriptor_size }
    }

    /// Forgets the views, as the back buffers go.
    pub fn reset(&mut self)
        ensures
            *final(self) == (RtvDescriptors { flags: 0, ..*old(self) }),
    {
        self.flags = 0;
    }

    /// Gives the descriptor of back buffer `index`, and says whether its view is to be made, which
    /// is asked for once. An index beyond the descriptors is refused.
    pub fn with_next_swapchain(&mut self, index: usize) -> (r: Result<RtvDescriptor, IndexError>)
        requires
            index < MAX_RENDER_TARGETS ==> old(self).wf(),
        ensures
            index >= MAX_RENDER_TARGETS ==> r == Err::<RtvDescriptor, IndexError>(
                IndexError { index },
            ) && *final(self) == *old(self),
            index < MAX_RENDER_TARGETS ==> {
                &&& r is Ok
                &&& r->Ok_0.ptr == old(self).address(index)
                &&& r->Ok_0.create == !old(self).has_view(index)
                &&& *final(self) == (RtvDescriptors {
                    flags: old(self).flags | (1u32 << (index as u32)),
                    ..*old(self)
                })
            },
    {
        if index >= MAX_RENDER_TARGETS {
            return Err(IndexError { index });
        }
        let ptr: usize = self.desc_for(index);
        let bit: u32 = index as u32;
        let create = (self.flags >> bit) & 1 != 1;
        if create {
            self.flags = self.flags | (1u32 << bit);
        } else {
            let flags = self.flags;
            assert(flags == flags | (1u32 << bit)) by (bit_vector)
                requires
                    (flags >> bit) & 1 == 1,
                    bit < 32,
            ;
        }
        Ok(RtvDescriptor { ptr, create })
    }

    fn desc_for(&self, backbuffer_index: usize) -> (r: usize)
        requires
            self.wf(),
            backbuffer_index < MAX_RENDER_TARGETS,
        ensures
            r == self.address(backbuffer_index),
    {
        proof {
            assert(self.descriptor_size * backbuffer_index <= self.descriptor_size
                * MAX_RENDER_TARGETS) by (nonlinear_arith)
                requires
                    backbuffer_index < MAX_RENDER_TARGETS,
            ;
        }
        self.heap_start + self.descriptor_size * backbuffer_index
    }
}

/// A back buffer's view is asked for once until the descriptors are reset, and getting one back
/// buffer's descriptor changes nothing about the others'.
pub proof fn law_view_asked_for_once(rtv: RtvDescriptors, index: usize, other: usize)
    requires
        index < MAX_RENDER_TARGETS,
        other < MAX_RENDER_TARGETS,
    ensures
        ({
            let after = RtvDescriptors { flags: rtv.flags | (1u32 << (index as u32)), ..rtv };
            &&& after.has_view(index)
            &&& other != index ==> after.has_view(other) == rtv.has_view(other)
        }),
        !(RtvDescriptors { flags: 0, ..rtv }).has_view(index),
{
    let flags = rtv.flags;
    let i = index as u32;
    let j = other as u32;
    assert(((flags | (1u32 << i)) >> i) & 1 == 1) by (bit_vector)
        requires
            i < 8,
    ;
    assert(i != j ==> ((flags | (1u32 << i)) >> j) & 1 == (flags >> j) & 1) by (bit_vector)
        requires
            i < 8,
            j < 8,
    ;
    assert((0u32 >> i) & 1 == 0) by (bit_vector);
}

/// The descriptors of different back buffers lie apart, and within the heap.
pub proof fn law_descriptors_apart(rtv: RtvDescriptors, a: usize, b: usize)
    requires
        rtv.wf(),
        a < b,
        b < MAX_RENDER_TARGETS,
    ensures
        rtv.address(a) + rtv.descriptor_size <= rtv.address(b),
        rtv.address(b) + rtv.descriptor_size <= rtv.heap_start + rtv.descriptor_size
            * MAX_RENDER_TARGETS,
{
    let size = rtv.descriptor_size as int;
    let (a, b) = (a as int, b as int);
    assert(size * a + size <= size * b) by (nonlinear_arith)
        requires
            a + 1 <= b,
            size >= 0,
    ;
    assert(size * b + size <= size * 8) by (nonlinear_arith)
        requires
            b + 1 <= 8,
            size >= 0,
    ;
}

/// A refusal tells the index, and then how many descriptors there are.
pub proof fn law_refusal_names_index(index: usize)
    ensures
        ({
            let text = (IndexError { index }).text();
            let told = decimal(index as nat);
            let after = 17int + told.len();
            &&& text.subrange(17, after) == told
            &&& text.skip(after + 39).drop_last() == decimal(8)
        }),
{
    reveal_strlit("backbuffer index ");
    reveal_strlit(" exceeds RTV descriptor heap capacity (");
    reveal_strlit(")");
}

} // verus!
