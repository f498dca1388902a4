use vstd::prelude::*;

verus! {

/// How a loaded skybox image is turned into a cube texture.
#[derive(Clone, Copy, Debug, PartialEq, Eq, Structural)]
pub enum SkyboxLayout {
    /// A zero-sized image: left untouched.
    Empty,
    /// Six square faces stacked vertically (height is six times the width).
    StackedCube,
    /// An equirectangular panorama (width is twice the height), converted
    /// to a stacked cube map.
    Equirectangular,
    /// Some other whole number of square layers stacked vertically.
    Stacked(u32),
    /// An aspect ratio that matches no layout: only the view is set to a cube.
    Unrecognized,
}

/// The layout of a `w`×`h` skybox image.
pub open spec fn skybox_layout_spec(w: int, h: int) -> SkyboxLayout {
    if w == 0 || h == 0 {
        SkyboxLayout::Empty
    } else if h == w * 6 {
        SkyboxLayout::StackedCube
    } else if w == h * 2 {
        SkyboxLayout::Equirectangular
    } else if h / w > 0 && h % w == 0 {
        SkyboxLayout::Stacked((h / w) as u32)
    } else {
        SkyboxLayout::Unrecognized
    }
}

/// What each layout says of the image: an empty image has a zero side; a
/// stacked cube is six squares tall; a panorama is twice as wide as tall;
/// a stack of `n` layers is `n` squares tall; an unrecognised image is none
/// of these.
pub proof fn lemma_layout_shapes(w: int, h: int)
    requires
        0 <= w <= u32::MAX,
        0 <= h <= u32::MAX,
    ensures
        (skybox_layout_spec(w, h) == SkyboxLayout::Empty) == (w == 0 || h == 0),
        skybox_layout_spec(w, h) == SkyboxLayout::StackedCube ==> w > 0 && h == 6 * w,
        w > 0 && h == 6 * w ==> skybox_layout_spec(w, h) == SkyboxLayout::StackedCube,
        skybox_layout_spec(w, h) == SkyboxLayout::Equirectangular ==> h > 0 && w == 2 * h,
        skybox_layout_spec(w, h) matches SkyboxLayout::Stacked(n) ==> n > 0 && h == n * w,
        skybox_layout_spec(w, h) == SkyboxLayout::Unrecognized ==> w > 0 && h > 0 && w != 2 * h
            && h % w != 0,
{
    if w > 0 && h > 0 {
        let q = h / w;
        let r = h % w;
        assert(h == q * w + r && 0 <= r < w && 0 <= q <= h) by (nonlinear_arith)
            requires
                w > 0,
                h > 0,
                q == h / w,
                r == h % w,
        ;
        if q == 0 {
            assert(r == h) by (nonlinear_arith)
                requires
                    h == q * w + r,
                    q == 0,
            ;
        }
        if r == 0 && q > 0 {
            assert(q as u32 == q);
        }
    }
}

/// Decide how to convert a skybox image of the given size to a cube map:
/// stacked six-face images are reinterpreted, 2:1 panoramas converted, other
/// whole stacks of square layers reinterpreted layer by layer.
pub fn skybox_layout(w: u32, h: u32) -> (l: SkyboxLayout)
    requires
        w * 6 <= u32::MAX,
        h * 2 <= u32::MAX,
    ensures
        l == skybox_layout_spec(w as int, h as int),
{
    if w == 0 || h == 0 {
        return SkyboxLayout::Empty;
    }
    if h == w * 6 {
        SkyboxLayout::StackedCube
    } else if w == h * 2 {
        SkyboxLayout::Equirectangular
    } else {
        let layers = h / w;
        assert(w * layers <= h) by (nonlinear_arith)
            requires
                layers == h / w,
                w > 0,
        ;
        if layers > 0 && h == w * layers {
            assert(h % w == 0) by (nonlinear_arith)
                requires
                    h == w * layers,
                    w > 0,
                    layers == h / w,
            ;
            SkyboxLayout::Stacked(layers)
        } else {
            assert(layers > 0 ==> h % w != 0) by (nonlinear_arith)
                requires
                    layers > 0 ==> h != w * layers,
                    w > 0,
                    layers == h / w,
            ;
            SkyboxLayout::Unrecognized
        }
    }
}

/// The side of each cube face made from an equirectangular image of height
/// `src_height`: half the height, at most 2048.
pub fn cubemap_face_size(src_height: usize) -> (s: usize)
    ensures
        s == (if src_height / 2 <= 2048 {
            src_height / 2
        } else {
            2048
        }),
{
    let half = src_height / 2;
    if half <= 2048 {
        half
    } else {
        2048
    }
}

} // verus!
