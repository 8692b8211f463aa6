use vstd::prelude::*;

verus! {

/// Width and height, in texels, of the debug texture.
pub const TEXTURE_SIZE: usize = 8;

/// Eight RGBA colours; each row of the texture shows them all.
pub open spec fn palette() -> Seq<u8> {
    seq![
        255u8, 102, 159, 255, 255, 159, 102, 255, 236, 255, 102, 255, 121, 255, 102, 255,
        102, 255, 198, 255, 102, 198, 255, 255, 121, 102, 255, 255, 236, 102, 255, 255,
    ]
}

/// Byte `k` of row `y`: each row is the palette turned right by one more
/// colour (four bytes) than the row above it.
pub open spec fn texture_byte(y: int, k: int) -> u8 {
    palette()[(k + 32 - 4 * y) % 32]
}

/// The RGBA bytes of the colourful test pattern, row after row.
pub fn uv_debug_texture_data() -> (r: Vec<u8>)
    ensures
        r@.len() == 256,
        forall|y: int, k: int| 0 <= y < 8 && 0 <= k < 32 ==> #[trigger] r@[32 * y + k] == texture_byte(y, k),
{
    let colours: Vec<u8> = vec![
        255, 102, 159, 255, 255, 159, 102, 255, 236, 255, 102, 255, 121, 255, 102, 255,
        102, 255, 198, 255, 102, 198, 255, 255, 121, 102, 255, 255, 236, 102, 255, 255,
    ];
    assert(colours@ =~= palette());
    let mut data: Vec<u8> = Vec::new();
    let mut y: usize = 0;
    while y < TEXTURE_SIZE
        invariant
            y <= 8,
            colours@ == palette(),
            data@.len() == 32 * y,
            forall|yy: int, k: int| 0 <= yy < y && 0 <= k < 32 ==> #[trigger] data@[32 * yy + k] == texture_byte(yy, k),
        decreases 8 - y,
    {
        let mut k: usize = 0;
        while k < 32
            invariant
                y < 8,
                k <= 32,
                colours@ == palette(),
                data@.len() == 32 * y + k,
                forall|yy: int, kk: int| 0 <= yy < y && 0 <= kk < 32 ==> #[trigger] data@[32 * yy + kk] == texture_byte(yy, kk),
                forall|kk: int| 0 <= kk < k ==> #[trigger] data@[32 * y + kk] == texture_byte(y as int, kk),
            decreases 32 - k,
        {
            data.push(colours[(k + 32 - 4 * y) % 32]);
            k = k + 1;
        }
        y = y + 1;
    }
    data
}

} // verus!
