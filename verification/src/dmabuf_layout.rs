//! The layout checks for importing a dmabuf as a DRM-PRIME frame: one object, one layer, and
//! one to four planes, each with its offset and pitch in that object.
//!
//! A dmabuf that spans several objects cannot be described by a single object descriptor, and
//! a malformed descriptor faults inside the driver, so such buffers are turned away here and
//! the caller's downgrade path takes over.

use vstd::prelude::*;
use crate::xwayland::{decimal, push_decimal};

verus! {

/// The most planes a DRM layer descriptor holds.
pub const MAX_PLANES: usize = 4;

/// Why a dmabuf cannot be imported.
#[derive(Debug, Clone, Copy, PartialEq, Eq, Structural)]
pub enum LayoutError {
    /// The plane count is zero or more than a layer holds.
    PlaneCount(usize),
    /// The buffer spans this many objects; only one is supported.
    MultiObject(usize),
    /// The buffer has no object at all.
    NoObject,
}

/// A plane's `(offset, pitch)`: the value given for it, or zero where none was given.
pub open spec fn plane_entry(offsets: Seq<u32>, strides: Seq<u32>, i: int) -> (u32, u32) {
    (
        if i < offsets.len() { offsets[i] } else { 0 },
        if i < strides.len() { strides[i] } else { 0 },
    )
}

/// Check a dmabuf of `num_planes` planes over `objects` objects for import, and give each
/// plane's offset and pitch in the single object. The plane count is checked first, then the
/// object count.
pub fn plane_layout(num_planes: usize, objects: usize, offsets: &Vec<u32>, strides: &Vec<u32>) -> (r: Result<
    Vec<(u32, u32)>,
    LayoutError,
>)
    ensures
        (num_planes == 0 || num_planes > MAX_PLANES) <==> r == Err::<Vec<(u32, u32)>, LayoutError>(
            LayoutError::PlaneCount(num_planes),
        ),
        (1 <= num_planes <= MAX_PLANES && objects > 1) <==> r == Err::<Vec<(u32, u32)>, LayoutError>(
            LayoutError::MultiObject(objects),
        ),
        (1 <= num_planes <= MAX_PLANES && objects == 0) <==> r == Err::<Vec<(u32, u32)>, LayoutError>(
            LayoutError::NoObject,
        ),
        r is Ok <==> (1 <= num_planes <= MAX_PLANES && objects == 1),
        r matches Ok(v) ==> v@.len() == num_planes && forall|i: int|
            0 <= i < num_planes ==> #[trigger] v@[i] == plane_entry(offsets@, strides@, i),
{
    if num_planes == 0 || num_planes > MAX_PLANES {
        return Err(LayoutError::PlaneCount(num_planes));
    }
    if objects > 1 {
        return Err(LayoutError::MultiObject(objects));
    }
    if objects == 0 {
        return Err(LayoutError::NoObject);
    }
    let mut v: Vec<(u32, u32)> = Vec::new();
    let mut i: usize = 0;
    while i < num_planes
        invariant
            i <= num_planes,
            v@.len() == i,
            forall|j: int| 0 <= j < i ==> #[trigger] v@[j] == plane_entry(offsets@, strides@, j),
        decreases num_planes - i,
    {
        let off: u32 = if i < offsets.len() { offsets[i] } else { 0 };
        let pitch: u32 = if i < strides.len() { strides[i] } else { 0 };
        v.push((off, pitch));
        i = i + 1;
    }
    Ok(v)
}

impl LayoutError {
    /// The reason, as the encoder error reports it.
    pub fn message(&self) -> (text: String)
        ensures
            match self {
                LayoutError::PlaneCount(n) => text@ == "unsupported dmabuf plane count "@ + decimal(
                    *n as nat,
                ),
                LayoutError::MultiObject(n) => text@ == "multi-fd dmabuf ("@ + decimal(*n as nat)
                    + " objects) unsupported by DRM-PRIME import — only single-object (Linear) dmabufs are supported"@,
                LayoutError::NoObject => text@ == "dmabuf has no fd"@,
            },
    {
        match self {
            LayoutError::PlaneCount(n) => {
                let mut s = String::from_str("unsupported dmabuf plane count ");
                push_decimal(&mut s, *n as u64);
                s
            },
            LayoutError::MultiObject(n) => {
                let mut s = String::from_str("multi-fd dmabuf (");
                push_decimal(&mut s, *n as u64);
                s.append(
                    " objects) unsupported by DRM-PRIME import — only single-object (Linear) dmabufs are supported",
                );
                s
            },
            LayoutError::NoObject => String::from_str("dmabuf has no fd"),
        }
    }
}

} // verus!
