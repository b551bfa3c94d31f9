use vstd::prelude::*;

verus! {

/// Number of colours in the jersey palette.
pub const JERSEY_PALETTE_LEN: usize = 10;

/// The RGB of palette entry `i`.
pub open spec fn palette_rgb(i: int) -> Seq<u8> {
    if i == 0 {
        seq![227u8, 66u8, 52u8]
    } else if i == 1 {
        seq![240u8, 140u8, 40u8]
    } else if i == 2 {
        seq![242u8, 201u8, 76u8]
    } else if i == 3 {
        seq![46u8, 160u8, 67u8]
    } else if i == 4 {
        seq![40u8, 180u8, 190u8]
    } else if i == 5 {
        seq![47u8, 129u8, 247u8]
    } else if i == 6 {
        seq![140u8, 90u8, 220u8]
    } else if i == 7 {
        seq![235u8, 90u8, 150u8]
    } else if i == 8 {
        seq![240u8, 244u8, 248u8]
    } else {
        seq![35u8, 39u8, 45u8]
    }
}

/// The name of palette entry `i`.
pub open spec fn palette_name(i: int) -> Seq<char> {
    if i == 0 {
        "红"@
    } else if i == 1 {
        "橙"@
    } else if i == 2 {
        "黄"@
    } else if i == 3 {
        "绿"@
    } else if i == 4 {
        "青"@
    } else if i == 5 {
        "蓝"@
    } else if i == 6 {
        "紫"@
    } else if i == 7 {
        "粉"@
    } else if i == 8 {
        "白"@
    } else {
        "黑"@
    }
}

/// Squared distance between two RGB colours.
pub open spec fn distance2(a: Seq<u8>, b: Seq<u8>) -> int {
    (a[0] - b[0]) * (a[0] - b[0]) + (a[1] - b[1]) * (a[1] - b[1]) + (a[2] - b[2]) * (a[2] - b[2])
}

/// Palette entry `i` is the one nearest to `c`: no entry is nearer, and
/// every earlier entry is farther.
pub open spec fn is_nearest(c: Seq<u8>, i: int) -> bool {
    &&& 0 <= i < JERSEY_PALETTE_LEN
    &&& forall|j: int|
        0 <= j < JERSEY_PALETTE_LEN ==> distance2(c, palette_rgb(i)) <= distance2(
            c,
            #[trigger] palette_rgb(j),
        )
    &&& forall|j: int|
        0 <= j < i ==> distance2(c, palette_rgb(i)) < distance2(c, #[trigger] palette_rgb(j))
}

/// Palette entry `i`: its name and its RGB.
pub fn jersey_palette_entry(i: usize) -> (r: (&'static str, [u8; 3]))
    requires
        i < JERSEY_PALETTE_LEN,
    ensures
        r.0@ == palette_name(i as int),
        r.1@ == palette_rgb(i as int),
{
    match i {
        0 => ("红", [227, 66, 52]),
        1 => ("橙", [240, 140, 40]),
        2 => ("黄", [242, 201, 76]),
        3 => ("绿", [46, 160, 67]),
        4 => ("青", [40, 180, 190]),
        5 => ("蓝", [47, 129, 247]),
        6 => ("紫", [140, 90, 220]),
        7 => ("粉", [235, 90, 150]),
        8 => ("白", [240, 244, 248]),
        _ => ("黑", [35, 39, 45]),
    }
}

/// Squared distance between two colours.
fn color_distance2(a: [u8; 3], b: [u8; 3]) -> (r: u32)
    ensures
        r == distance2(a@, b@),
{
    let dr: i32 = a[0] as i32 - b[0] as i32;
    let dg: i32 = a[1] as i32 - b[1] as i32;
    let db: i32 = a[2] as i32 - b[2] as i32;
    assert(0 <= dr * dr <= 65025) by (nonlinear_arith)
        requires
            -255 <= dr <= 255,
    ;
    assert(0 <= dg * dg <= 65025) by (nonlinear_arith)
        requires
            -255 <= dg <= 255,
    ;
    assert(0 <= db * db <= 65025) by (nonlinear_arith)
        requires
            -255 <= db <= 255,
    ;
    (dr * dr + dg * dg + db * db) as u32
}

/// The index of the palette colour nearest to `c` (the first of equally
/// near ones).
pub fn jersey_color_index(c: [u8; 3]) -> (r: usize)
    ensures
        is_nearest(c@, r as int),
{
    let mut best: usize = 0;
    let mut best_d: u32 = u32::MAX;
    let mut i: usize = 0;
    while i < JERSEY_PALETTE_LEN
        invariant
            i <= JERSEY_PALETTE_LEN,
            best < JERSEY_PALETTE_LEN,
            i == 0 ==> best_d == u32::MAX && best == 0,
            i > 0 ==> best < i && best_d == distance2(c@, palette_rgb(best as int)),
            forall|j: int| 0 <= j < i ==> best_d <= distance2(c@, #[trigger] palette_rgb(j)),
            forall|j: int| 0 <= j < best ==> best_d < distance2(c@, #[trigger] palette_rgb(j)),
        decreases JERSEY_PALETTE_LEN - i,
    {
        let (_, p) = jersey_palette_entry(i);
        let d = color_distance2(c, p);
        if d < best_d {
            best_d = d;
            best = i;
        }
        i = i + 1;
    }
    best
}

/// The name of the palette colour nearest to `c`, shown under the team
/// name on the big screen.
pub fn jersey_color_name(c: [u8; 3]) -> (r: &'static str)
    ensures
        exists|i: int| is_nearest(c@, i) && r@ == palette_name(i),
{
    let i = jersey_color_index(c);
    jersey_palette_entry(i).0
}

/// At most one palette entry is the nearest to a colour, so the name shown
/// for a jersey colour is determined by the colour.
pub proof fn law_nearest_is_unique(c: Seq<u8>, i: int, j: int)
    requires
        is_nearest(c, i),
        is_nearest(c, j),
    ensures
        i == j,
{
    if i < j {
        assert(distance2(c, palette_rgb(j)) < distance2(c, palette_rgb(i)));
        assert(distance2(c, palette_rgb(i)) <= distance2(c, palette_rgb(j)));
    } else if j < i {
        assert(distance2(c, palette_rgb(i)) < distance2(c, palette_rgb(j)));
        assert(distance2(c, palette_rgb(j)) <= distance2(c, palette_rgb(i)));
    }
}

/// A jersey colour picked from the palette is named by its own palette
/// entry.
pub proof fn law_palette_colour_names_itself(k: int)
    requires
        0 <= k < JERSEY_PALETTE_LEN,
    ensures
        is_nearest(palette_rgb(k), k),
{
    let c = palette_rgb(k);
    assert forall|j: int| 0 <= j < JERSEY_PALETTE_LEN && j != k implies distance2(
        c,
        #[trigger] palette_rgb(j),
    ) > 0 by {
        let p = palette_rgb(j);
        assert(c[0] != p[0] || c[1] != p[1] || c[2] != p[2]);
        if c[0] != p[0] {
            assert((c[0] - p[0]) * (c[0] - p[0]) > 0) by (nonlinear_arith)
                requires
                    c[0] != p[0],
            ;
        } else if c[1] != p[1] {
            assert((c[1] - p[1]) * (c[1] - p[1]) > 0) by (nonlinear_arith)
                requires
                    c[1] != p[1],
            ;
        } else {
            assert((c[2] - p[2]) * (c[2] - p[2]) > 0) by (nonlinear_arith)
                requires
                    c[2] != p[2],
            ;
        }
        assert((c[0] - p[0]) * (c[0] - p[0]) >= 0) by (nonlinear_arith);
        assert((c[1] - p[1]) * (c[1] - p[1]) >= 0) by (nonlinear_arith);
        assert((c[2] - p[2]) * (c[2] - p[2]) >= 0) by (nonlinear_arith);
    }
    assert(distance2(c, palette_rgb(k)) == 0);
}

} // verus!
