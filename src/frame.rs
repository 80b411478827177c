use vstd::prelude::*;

verus! {

/// Where the engine draws one frame: the framebuffer, its size in pixels, the
/// pixel-format tag (0 lets the engine pick), and the two per-render flags.
#[derive(Clone, Copy, Debug, PartialEq, Eq, Structural)]
pub struct FrameTarget {
    pub fbo: i32,
    pub width: i32,
    pub height: i32,
    pub internal_format: i32,
    /// The engine's rows come out bottom-up relative to the default
    /// framebuffer, so every render asks for them to be flipped.
    pub flip_y: bool,
    /// Lets the engine issue GPU commands on the caller's thread.
    pub advanced_control: bool,
}

/// The descriptor rebuilt for each redraw: the default framebuffer, sized to
/// the surface, flipped, with advanced control on.
pub open spec fn surface_target(width: i32, height: i32) -> FrameTarget {
    FrameTarget {
        fbo: 0,
        width,
        height,
        internal_format: 0,
        flip_y: true,
        advanced_control: true,
    }
}

impl FrameTarget {
    /// Builds the descriptor for a redraw of a surface of the given size.
    pub fn for_surface(width: i32, height: i32) -> (r: FrameTarget)
        ensures
            r == surface_target(width, height),
    {
        FrameTarget {
            fbo: 0,
            width,
            height,
            internal_format: 0,
            flip_y: true,
            advanced_control: true,
        }
    }
}

/// The row order that lands in the target framebuffer: reversed when the
/// descriptor asks for a flip, unchanged otherwise.
pub open spec fn oriented(rows: Seq<Seq<u8>>, flip_y: bool) -> Seq<Seq<u8>> {
    if flip_y {
        Seq::new(rows.len(), |i: int| rows[rows.len() - 1 - i])
    } else {
        rows
    }
}

/// A model of the flip that a `FrameTarget` asks of the engine: places the
/// engine's output rows (first row first) in the order in which the target
/// framebuffer holds them. The engine performs the flip itself on the GPU;
/// this states, and lets tests run, which row lands where.
pub fn orient_rows(rows: &Vec<Vec<u8>>, flip_y: bool) -> (r: Vec<Vec<u8>>)
    ensures
        r@.len() == rows@.len(),
        forall|i: int| 0 <= i < r@.len() ==> #[trigger] r@[i]@ == oriented(rows@.map_values(|v: Vec<u8>| v@), flip_y)[i],
        flip_y && rows@.len() > 0 ==> r@[0]@ == rows@[rows@.len() - 1]@,
{
    let n = rows.len();
    let mut r: Vec<Vec<u8>> = Vec::new();
    let mut i: usize = 0;
    while i < n
        invariant
            n == rows@.len(),
            i <= n,
            r@.len() == i,
            forall|k: int| 0 <= k < i ==> #[trigger] r@[k]@ == (if flip_y { rows@[n - 1 - k]@ } else { rows@[k]@ }),
        decreases n - i,
    {
        let src: usize = if flip_y { n - 1 - i } else { i };
        let row = rows[src].clone();
        r.push(row);
        i = i + 1;
    }
    r
}

} // verus!
