use vstd::prelude::*;

use vstd::arithmetic::div_mod::lemma_fundamental_div_mod_converse;

verus! {

/// Icon of the application in the tray.
pub const TRAY_ICON_PATH: &'static str = "assets/icons/chair.svg";

/// Icon of the `Short` preset, also used for unknown names.
pub const SHORT_ICON_PATH: &'static str = "assets/icons/short.svg";

/// Icon of the `Tall` preset.
pub const TALL_ICON_PATH: &'static str = "assets/icons/tall.svg";

/// Icon of the `Grande` preset.
pub const GRANDE_ICON_PATH: &'static str = "assets/icons/grande.svg";

/// Icon of the `Venti` preset.
pub const VENTI_ICON_PATH: &'static str = "assets/icons/venti.svg";

/// The icon file for a preset name; unknown names get the `Short` icon.
pub open spec fn svg_path_of(size: Seq<char>) -> Seq<char> {
    if size == "Short"@ {
        SHORT_ICON_PATH@
    } else if size == "Tall"@ {
        TALL_ICON_PATH@
    } else if size == "Grande"@ {
        GRANDE_ICON_PATH@
    } else if size == "Venti"@ {
        VENTI_ICON_PATH@
    } else {
        SHORT_ICON_PATH@
    }
}

/// Whether two strings hold the same characters.
fn same_text(a: &str, b: &str) -> (r: bool)
    ensures
        r == (a@ == b@),
{
    let n = a.unicode_len();
    if n != b.unicode_len() {
        return false;
    }
    let mut i: usize = 0;
    while i < n
        invariant
            n == a@.len(),
            n == b@.len(),
            i <= n,
            forall|k: int| 0 <= k < i ==> a@[k] == b@[k],
        decreases n - i,
    {
        if a.get_char(i) != b.get_char(i) {
            return false;
        }
        i = i + 1;
    }
    assert(a@ =~= b@);
    true
}

/// The SVG file of a preset's icon, by the preset's name.
pub fn get_svg_path_for_size(size: &str) -> (r: &'static str)
    ensures
        r@ == svg_path_of(size@),
{
    if same_text(size, "Short") {
        SHORT_ICON_PATH
    } else if same_text(size, "Tall") {
        TALL_ICON_PATH
    } else if same_text(size, "Grande") {
        GRANDE_ICON_PATH
    } else if same_text(size, "Venti") {
        VENTI_ICON_PATH
    } else {
        SHORT_ICON_PATH
    }
}

/// The label of a preset's menu entry: the preset name itself.
pub fn create_menu_icon(size: &str) -> (r: String)
    ensures
        r@ == size@,
{
    String::from_str(size)
}

/// The fallback icon's colour inside its circle (red, green, blue, alpha).
pub open spec fn circle_rgba() -> Seq<u8> {
    seq![66u8, 135u8, 245u8, 255u8]
}

/// Pixel (`x`, `y`) of a `size` by `size` image lies inside the circle of
/// radius `size / 3` around (`size / 2`, `size / 2`).
pub open spec fn in_fallback_circle(size: int, x: int, y: int) -> bool {
    let c = size / 2;
    let r = size / 3;
    (x - c) * (x - c) + (y - c) * (y - c) < r * r
}

/// The colour of pixel (`x`, `y`) of the fallback icon: the circle's colour
/// inside the circle, fully transparent black outside.
pub open spec fn fallback_pixel(size: int, x: int, y: int) -> Seq<u8> {
    if in_fallback_circle(size, x, y) {
        circle_rgba()
    } else {
        seq![0u8, 0u8, 0u8, 0u8]
    }
}

/// The icon used when the tray icon cannot be loaded: a `size` by `size`
/// RGBA image, row by row, of a blue disc on a transparent ground.
pub fn create_fallback_icon(size: u32) -> (rgba: Vec<u8>)
    requires
        size as int * size as int * 4 <= u32::MAX,
    ensures
        rgba@.len() == size as int * size as int * 4,
        forall|i: int|
            0 <= i < rgba@.len() ==> #[trigger] rgba@[i] == fallback_pixel(
                size as int,
                (i / 4) % (size as int),
                (i / 4) / (size as int),
            )[i % 4],
{
    let mut rgba: Vec<u8> = Vec::new();
    let center = size / 2;
    let radius = size / 3;
    let c = center as i64;
    let ghost s = size as int;
    assert(radius * radius <= u32::MAX) by (nonlinear_arith)
        requires
            s * s * 4 <= u32::MAX,
            0 <= radius <= s,
            s == size,
    ;
    let radius_sq = (radius as i64) * (radius as i64);
    let mut y: u32 = 0;
    while y < size
        invariant
            s == size as int,
            s * s * 4 <= u32::MAX,
            c == s / 2,
            radius_sq == (s / 3) * (s / 3),
            y <= size,
            rgba@.len() == 4 * (y as int * s),
            forall|i: int|
                0 <= i < rgba@.len() ==> #[trigger] rgba@[i] == fallback_pixel(
                    s,
                    (i / 4) % s,
                    (i / 4) / s,
                )[i % 4],
        decreases size - y,
    {
        let mut x: u32 = 0;
        while x < size
            invariant
                s == size as int,
                s * s * 4 <= u32::MAX,
                c == s / 2,
                radius_sq == (s / 3) * (s / 3),
                y < size,
                x <= size,
                rgba@.len() == 4 * (y as int * s + x),
                forall|i: int|
                    0 <= i < rgba@.len() ==> #[trigger] rgba@[i] == fallback_pixel(
                        s,
                        (i / 4) % s,
                        (i / 4) / s,
                    )[i % 4],
            decreases size - x,
        {
            let dx = x as i64 - c;
            let dy = y as i64 - c;
            assert(0 <= dx * dx <= s * s) by (nonlinear_arith)
                requires
                    dx == x - c,
                    0 <= x < s,
                    0 <= c <= s,
            ;
            assert(0 <= dy * dy <= s * s) by (nonlinear_arith)
                requires
                    dy == y - c,
                    0 <= y < s,
                    0 <= c <= s,
            ;
            assert(s * s <= u32::MAX) by (nonlinear_arith)
                requires
                    s * s * 4 <= u32::MAX,
            ;
            let dist_sq = dx * dx + dy * dy;
            let inside = dist_sq < radius_sq;
            let ghost p = y as int * s + x as int;
            let ghost base = rgba@.len() as int;
            proof {
                lemma_fundamental_div_mod_converse(p, s, y as int, x as int);
                assert(inside == in_fallback_circle(s, x as int, y as int));
            }
            if inside {
                rgba.push(66);
                rgba.push(135);
                rgba.push(245);
                rgba.push(255);
            } else {
                rgba.push(0);
                rgba.push(0);
                rgba.push(0);
                rgba.push(0);
            }
            proof {
                assert forall|i: int| 0 <= i < rgba@.len() implies #[trigger] rgba@[i]
                    == fallback_pixel(s, (i / 4) % s, (i / 4) / s)[i % 4] by {
                    if i >= base {
                        assert(i / 4 == p);
                        assert(i % 4 == i - base);
                    }
                }
            }
            x = x + 1;
        }
        assert(4 * (y as int * s + s) == 4 * ((y as int + 1) * s)) by (nonlinear_arith);
        y = y + 1;
    }
    proof {
        assert(rgba@.len() == s * s * 4) by (nonlinear_arith)
            requires
                rgba@.len() == 4 * (y as int * s),
                y == s,
        ;
    }
    rgba
}

} // verus!
