//! Setting up the swapchain and the viewport from what the surface reports.
use vstd::prelude::*;

verus! {

/// The number of images to ask the swapchain for: the surface's minimum,
/// but at least two.
pub fn swapchain_min_image_count(surface_min_image_count: u32) -> (r: u32)
    ensures
        r >= 2,
        r >= surface_min_image_count,
        r == 2 || r == surface_min_image_count,
        r == if surface_min_image_count >= 2 { surface_min_image_count } else { 2 },
{
    if surface_min_image_count >= 2 {
        surface_min_image_count
    } else {
        2
    }
}

/// How the compositor treats the alpha channel of the presented images.
#[derive(Clone, Copy, Debug, PartialEq, Eq, Structural)]
pub enum CompositeAlphaKind {
    Opaque,
    PreMultiplied,
    PostMultiplied,
    Inherit,
}

/// The bit that stands for a composite alpha mode in a set of them.
pub open spec fn composite_alpha_bit(k: CompositeAlphaKind) -> u32 {
    match k {
        CompositeAlphaKind::Opaque => 1,
        CompositeAlphaKind::PreMultiplied => 2,
        CompositeAlphaKind::PostMultiplied => 4,
        CompositeAlphaKind::Inherit => 8,
    }
}

/// The place of a composite alpha mode in the order in which a set of them
/// is listed.
pub open spec fn composite_alpha_order(k: CompositeAlphaKind) -> nat {
    match k {
        CompositeAlphaKind::Opaque => 0,
        CompositeAlphaKind::PreMultiplied => 1,
        CompositeAlphaKind::PostMultiplied => 2,
        CompositeAlphaKind::Inherit => 3,
    }
}

/// The set `supported` (raw bits) holds the mode `k`.
pub open spec fn alpha_supported(supported: u32, k: CompositeAlphaKind) -> bool {
    supported & composite_alpha_bit(k) != 0
}

/// Returns the first composite alpha mode, in the order opaque,
/// pre-multiplied, post-multiplied, inherit, that the set `supported` (raw
/// bits) holds; `None` where it holds none of them.
pub fn first_supported_composite_alpha(supported: u32) -> (r: Option<CompositeAlphaKind>)
    ensures
        r is None <==> forall|k: CompositeAlphaKind| !alpha_supported(supported, k),
        r matches Some(k) ==> {
            &&& alpha_supported(supported, k)
            &&& forall|j: CompositeAlphaKind|
                composite_alpha_order(j) < composite_alpha_order(k) ==> !alpha_supported(
                    supported,
                    j,
                )
        },
        (r == Some(CompositeAlphaKind::Opaque)) == (supported & 1 != 0),
        (r == Some(CompositeAlphaKind::PreMultiplied)) == (supported & 1 == 0 && supported & 2 != 0),
        (r == Some(CompositeAlphaKind::PostMultiplied)) == (supported & 3 == 0 && supported & 4 != 0),
        (r == Some(CompositeAlphaKind::Inherit)) == (supported & 7 == 0 && supported & 8 != 0),
        r is None <==> supported & 15 == 0,
{
    proof {
        let x = supported;
        assert((x & 1 == 0 && x & 2 == 0) == (x & 3 == 0)) by (bit_vector);
        assert((x & 3 == 0 && x & 4 == 0) == (x & 7 == 0)) by (bit_vector);
        assert((x & 7 == 0 && x & 8 == 0) == (x & 15 == 0)) by (bit_vector);
    }
    if supported & 1 != 0 {
        assert(alpha_supported(supported, CompositeAlphaKind::Opaque));
        Some(CompositeAlphaKind::Opaque)
    } else if supported & 2 != 0 {
        assert(alpha_supported(supported, CompositeAlphaKind::PreMultiplied));
        Some(CompositeAlphaKind::PreMultiplied)
    } else if supported & 4 != 0 {
        assert(alpha_supported(supported, CompositeAlphaKind::PostMultiplied));
        Some(CompositeAlphaKind::PostMultiplied)
    } else if supported & 8 != 0 {
        assert(alpha_supported(supported, CompositeAlphaKind::Inherit));
        Some(CompositeAlphaKind::Inherit)
    } else {
        proof {
            assert forall|k: CompositeAlphaKind| !alpha_supported(supported, k) by {
                match k {
                    CompositeAlphaKind::Opaque => {},
                    CompositeAlphaKind::PreMultiplied => {},
                    CompositeAlphaKind::PostMultiplied => {},
                    CompositeAlphaKind::Inherit => {},
                }
            }
        }
        None
    }
}

/// An image of this extent can be drawn to: neither side is zero.
pub open spec fn spec_extent_drawable(extent: [u32; 2]) -> bool {
    extent@[0] != 0 && extent@[1] != 0
}

/// Returns whether a window of this extent can be drawn to: neither side is zero.
pub fn extent_drawable(extent: [u32; 2]) -> (r: bool)
    ensures
        r == spec_extent_drawable(extent),
        r == (extent@[0] != 0 && extent@[1] != 0),
{
    extent[0] != 0 && extent[1] != 0
}

/// The extent of the viewport after the swapchain images changed: the width
/// and height of the first image.
pub fn viewport_extent(image_extents: &Vec<[u32; 3]>) -> (r: [u32; 2])
    requires
        image_extents.len() > 0,
    ensures
        r@ == seq![image_extents@[0]@[0], image_extents@[0]@[1]],
{
    let e: [u32; 3] = image_extents[0];
    let r: [u32; 2] = [e[0], e[1]];
    assert(r@ =~= seq![image_extents@[0]@[0], image_extents@[0]@[1]]);
    r
}

} // verus!

verus! {

/// The composite alpha modes are listed opaque first, then pre-multiplied,
/// post-multiplied and inherit, and each is one distinct bit of a set:
/// 1, 2, 4 and 8.
pub proof fn lemma_composite_alpha_listing()
    ensures
        composite_alpha_bit(CompositeAlphaKind::Opaque) == 1,
        composite_alpha_bit(CompositeAlphaKind::PreMultiplied) == 2,
        composite_alpha_bit(CompositeAlphaKind::PostMultiplied) == 4,
        composite_alpha_bit(CompositeAlphaKind::Inherit) == 8,
        composite_alpha_order(CompositeAlphaKind::Opaque) < composite_alpha_order(
            CompositeAlphaKind::PreMultiplied,
        ),
        composite_alpha_order(CompositeAlphaKind::PreMultiplied) < composite_alpha_order(
            CompositeAlphaKind::PostMultiplied,
        ),
        composite_alpha_order(CompositeAlphaKind::PostMultiplied) < composite_alpha_order(
            CompositeAlphaKind::Inherit,
        ),
{
}

/// A window can be drawn to exactly when neither side of it is zero.
pub proof fn lemma_extent_drawable_iff(extent: [u32; 2])
    ensures
        spec_extent_drawable(extent) <==> (extent@[0] != 0 && extent@[1] != 0),
{
}

} // verus!
