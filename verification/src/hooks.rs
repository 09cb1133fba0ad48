//! Which functions of the system are hooked, and in which order.

use vstd::prelude::*;

verus! {

/// A function that is hooked.
#[derive(Debug, Clone, Copy, PartialEq, Eq, Structural)]
pub enum HookPoint {
    ClipCursor,
    SetCursorPos,
    GetClipCursor,
    GetCursorPos,
    GetPhysicalCursorPos,
    GetAsyncKeyState,
    GetKeyState,
    GetKeyboardState,
    GetRawInputData,
    GetRawInputBuffer,
    Dx9Reset,
    Dx9Release,
    Dx9ResetEx,
    Dx9Present,
    Dx9SwapchainPresent,
    Dx9PresentEx,
    DxgiResizeBuffers,
    DxgiResizeBuffers1,
    DxgiPresent,
    DxgiPresent1,
}

/// The functions by which a program asks for input.
pub open spec fn input_hook_order() -> Seq<HookPoint> {
    seq![
        HookPoint::ClipCursor,
        HookPoint::SetCursorPos,
        HookPoint::GetClipCursor,
        HookPoint::GetCursorPos,
        HookPoint::GetPhysicalCursorPos,
        HookPoint::GetAsyncKeyState,
        HookPoint::GetKeyState,
        HookPoint::GetKeyboardState,
        HookPoint::GetRawInputData,
        HookPoint::GetRawInputBuffer,
    ]
}

/// The functions by which a program resets and gives up a Direct3D 9 device, and presents.
pub open spec fn dx9_hook_order() -> Seq<HookPoint> {
    seq![
        HookPoint::Dx9Reset,
        HookPoint::Dx9Release,
        HookPoint::Dx9ResetEx,
        HookPoint::Dx9Present,
        HookPoint::Dx9SwapchainPresent,
        HookPoint::Dx9PresentEx,
    ]
}

/// The functions by which a program resizes a DXGI swapchain and presents, as far as there are
/// any.
pub open spec fn dxgi_hook_order(present1: bool, resize_buffers1: bool) -> Seq<HookPoint> {
    let resize = if resize_buffers1 {
        seq![HookPoint::DxgiResizeBuffers, HookPoint::DxgiResizeBuffers1]
    } else {
        seq![HookPoint::DxgiResizeBuffers]
    };
    let present = if present1 {
        seq![HookPoint::DxgiPresent, HookPoint::DxgiPresent1]
    } else {
        seq![HookPoint::DxgiPresent]
    };
    resize + present
}

/// The functions that are hooked.
#[derive(Debug)]
pub struct HookSet {
    attached: Vec<HookPoint>,
}

impl View for HookSet {
    type V = Seq<HookPoint>;

    closed spec fn view(&self) -> Seq<HookPoint> {
        self.attached@
    }
}

/// The first of `order` that is not among `attached`.
pub open spec fn first_missing(order: Seq<HookPoint>, attached: Seq<HookPoint>) -> Option<HookPoint>
    decreases order.len(),
{
    if order.len() == 0 {
        None
    } else if !attached.contains(order[0]) {
        Some(order[0])
    } else {
        first_missing(order.drop_first(), attached)
    }
}

impl HookSet {
    /// Nothing is hooked.
    pub fn new() -> (r: HookSet)
        ensures
            r@ == Seq::<HookPoint>::empty(),
    {
        HookSet { attached: Vec::new() }
    }

    /// The next of `order` to hook. What is hooked is not hooked again.
    pub fn next(&self, order: &Vec<HookPoint>) -> (r: Option<HookPoint>)
        ensures
            r == first_missing(order@, self@),
    {
        let mut i: usize = 0;
        assert(order@.skip(0) =~= order@);
        while i < order.len()
            invariant
                i <= order.len(),
                first_missing(order@, self@) == first_missing(order@.skip(i as int), self@),
            decreases order.len() - i,
        {
            if !contains_point(&self.attached, order[i]) {
                return Some(order[i]);
            }
            assert(order@.skip(i as int).drop_first() =~= order@.skip(i + 1));
            i += 1;
        }
        None
    }

    /// Notes that a function was hooked, if it was. Where it was not, hooking ends with an error,
    /// and what was hooked before stays hooked.
    pub fn attached(&mut self, point: HookPoint, hooked: bool) -> (r: Result<(), HookPoint>)
        ensures
            hooked ==> r == Ok::<(), HookPoint>(()) && final(self)@ == old(self)@.push(point),
            !hooked ==> r == Err::<(), HookPoint>(point) && final(self)@ == old(self)@,
    {
        if hooked {
            self.attached.push(point);
            Ok(())
        } else {
            Err(point)
        }
    }

    /// Notes that a function of `order`, all of which are hooked together or not at all, was
    /// hooked, if it was. Where it was not, hooking ends with an error, and what was hooked of
    /// `order` before is to be given up, and is not hooked any more.
    pub fn attached_together(&mut self, order: &Vec<HookPoint>, point: HookPoint, hooked: bool) -> (
    r: Result<(), HookPoint>)
        ensures
            hooked ==> r == Ok::<(), HookPoint>(()) && final(self)@ == old(self)@.push(point),
            !hooked ==> r == Err::<(), HookPoint>(point) && final(self)@ == without(
                old(self)@,
                order@,
            ),
    {
        if hooked {
            self.attached.push(point);
            return Ok(());
        }
        let mut kept: Vec<HookPoint> = Vec::new();
        let mut i: usize = 0;
        while i < self.attached.len()
            invariant
                i <= self.attached.len(),
                kept@ == without(self.attached@.take(i as int), order@),
            decreases self.attached.len() - i,
        {
            let one = self.attached[i];
            proof {
                let upto = self.attached@.take(i + 1);
                assert(upto.drop_last() =~= self.attached@.take(i as int));
            }
            if !contains_point(order, one) {
                kept.push(one);
            }
            i += 1;
        }
        assert(self.attached@.take(i as int) =~= self.attached@);
        self.attached = kept;
        Err(point)
    }
}

/// What is left of `attached` without the functions of `order`.
pub open spec fn without(attached: Seq<HookPoint>, order: Seq<HookPoint>) -> Seq<HookPoint>
    decreases attached.len(),
{
    if attached.len() == 0 {
        Seq::empty()
    } else if order.contains(attached.last()) {
        without(attached.drop_last(), order)
    } else {
        without(attached.drop_last(), order).push(attached.last())
    }
}

fn contains_point(list: &Vec<HookPoint>, point: HookPoint) -> (r: bool)
    ensures
        r == list@.contains(point),
{
    let mut i: usize = 0;
    while i < list.len()
        invariant
            i <= list.len(),
            forall|j: int| 0 <= j < i ==> list@[j] != point,
        decreases list.len() - i,
    {
        if list[i] == point {
            assert(list@[i as int] == point);
            return true;
        }
        i += 1;
    }
    false
}

proof fn lemma_without(attached: Seq<HookPoint>, order: Seq<HookPoint>)
    ensures
        forall|point: HookPoint| #[trigger]
            without(attached, order).contains(point) <==> attached.contains(point)
                && !order.contains(point),
    decreases attached.len(),
{
    if attached.len() > 0 {
        let before = attached.drop_last();
        let last = attached.last();
        lemma_without(before, order);
        assert forall|point: HookPoint| #[trigger]
            without(attached, order).contains(point) <==> attached.contains(point)
                && !order.contains(point) by {
            let kept = without(before, order);
            assert(attached =~= before.push(last));
            if attached.contains(point) && !order.contains(point) {
                if point == last {
                    assert(kept.push(last)[kept.len() as int] == point);
                } else {
                    let i = choose|i: int| 0 <= i < attached.len() && attached[i] == point;
                    assert(before[i] == point);
                    assert(kept.contains(point));
                    let j = kept.index_of(point);
                    assert(kept.push(last)[j] == point);
                }
            }
            if without(attached, order).contains(point) {
                if !order.contains(last) {
                    let j = choose|j: int|
                        0 <= j < kept.push(last).len() && kept.push(last)[j] == point;
                    if j < kept.len() {
                        assert(kept[j] == point);
                        assert(kept.contains(point));
                        assert(before.contains(point));
                    } else {
                        assert(point == last);
                        assert(attached[attached.len() - 1] == point);
                    }
                }
                if point != last {
                    assert(kept.contains(point) ==> before.contains(point));
                    if before.contains(point) {
                        let i = before.index_of(point);
                        assert(attached[i] == point);
                    }
                }
            }
        }
    }
}

/// Functions that are hooked together are hooked anew after one of them failed: whatever of them
/// was hooked, the first one is next. What was hooked otherwise stays hooked.
pub proof fn law_hooked_together_or_not_at_all(
    order: Seq<HookPoint>,
    attached: Seq<HookPoint>,
    other: HookPoint,
)
    requires
        order.len() > 0,
    ensures
        first_missing(order, without(attached, order)) == Some(order[0]),
        !order.contains(other) ==> without(attached, order).contains(other) == attached.contains(
            other,
        ),
{
    lemma_without(attached, order);
    assert(order.contains(order[0]));
}

/// A function that is to be hooked is not hooked yet, and those before it are; where nothing is
/// left to hook, everything is hooked.
pub proof fn law_hooked_once_in_order(order: Seq<HookPoint>, attached: Seq<HookPoint>)
    ensures
        match first_missing(order, attached) {
            Some(point) => !attached.contains(point) && exists|i: int|
                {
                    &&& 0 <= i < order.len()
                    &&& #[trigger] order[i] == point
                    &&& forall|j: int| 0 <= j < i ==> attached.contains(#[trigger] order[j])
                },
            None => forall|i: int| 0 <= i < order.len() ==> attached.contains(#[trigger] order[i]),
        },
    decreases order.len(),
{
    if order.len() > 0 && attached.contains(order[0]) {
        let rest = order.drop_first();
        law_hooked_once_in_order(rest, attached);
        match first_missing(rest, attached) {
            Some(point) => {
                let k = choose|i: int|
                    {
                        &&& 0 <= i < rest.len()
                        &&& #[trigger] rest[i] == point
                        &&& forall|j: int| 0 <= j < i ==> attached.contains(#[trigger] rest[j])
                    };
                assert(order[k + 1] == point);
                assert forall|j: int| 0 <= j < k + 1 implies attached.contains(
                    #[trigger] order[j],
                ) by {
                    if j > 0 {
                        assert(rest[j - 1] == order[j]);
                    }
                }
            },
            None => {
                assert forall|i: int| 0 <= i < order.len() implies attached.contains(
                    #[trigger] order[i],
                ) by {
                    if i > 0 {
                        assert(rest[i - 1] == order[i]);
                    }
                }
            },
        }
    }
}

/// Of DXGI, the functions that every swapchain has are hooked, and a newer one exactly where it is
/// there. What resizes is hooked before what presents, and nothing is hooked twice.
pub proof fn law_dxgi_hooks(present1: bool, resize_buffers1: bool)
    ensures
        ({
            let order = dxgi_hook_order(present1, resize_buffers1);
            &&& order.contains(HookPoint::DxgiResizeBuffers)
            &&& order.contains(HookPoint::DxgiPresent)
            &&& order.contains(HookPoint::DxgiResizeBuffers1) <==> resize_buffers1
            &&& order.contains(HookPoint::DxgiPresent1) <==> present1
            &&& forall|i: int, j: int|
                0 <= i < j < order.len() ==> order[i] != order[j] && !((order[i] is DxgiPresent
                    || order[i] is DxgiPresent1) && (order[j] is DxgiResizeBuffers
                    || order[j] is DxgiResizeBuffers1))
        }),
{
    let order = dxgi_hook_order(present1, resize_buffers1);
    assert(order[0] == HookPoint::DxgiResizeBuffers);
    let n = if resize_buffers1 {
        2int
    } else {
        1int
    };
    assert(order[n] == HookPoint::DxgiPresent);
    if resize_buffers1 {
        assert(order[1] == HookPoint::DxgiResizeBuffers1);
    }
    if present1 {
        assert(order[n + 1] == HookPoint::DxgiPresent1);
    }
}

/// All of the functions by which a program asks for input are hooked, each once, and so are all of
/// those of a Direct3D 9 device.
pub proof fn law_all_hooked(i: int, j: int)
    ensures
        input_hook_order().len() == 10,
        dx9_hook_order().len() == 6,
        0 <= i < j < 10 ==> input_hook_order()[i] != input_hook_order()[j],
        0 <= i < j < 6 ==> dx9_hook_order()[i] != dx9_hook_order()[j],
        0 <= i < 6 ==> !input_hook_order().contains(dx9_hook_order()[i]),
{
}

} // verus!
