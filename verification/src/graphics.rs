use vstd::prelude::*;

verus! {

/// The red, green, blue and alpha channels packed into a `0xRRGGBBAA` colour.
pub open spec fn spec_rgba_channels(rgba: u32) -> (u8, u8, u8, u8) {
    (
        (rgba / 0x100_0000) as u8,
        ((rgba / 0x1_0000) % 0x100) as u8,
        ((rgba / 0x100) % 0x100) as u8,
        (rgba % 0x100) as u8,
    )
}

/// Splits a `0xRRGGBBAA` colour into its red, green, blue and alpha
/// channels (each 0..=255).
pub fn rgba_channels(rgba: u32) -> (r: (u8, u8, u8, u8))
    ensures
        r == spec_rgba_channels(rgba),
{
    let red = ((rgba >> 24u32) & 0xff) as u8;
    let green = ((rgba >> 16u32) & 0xff) as u8;
    let blue = ((rgba >> 8u32) & 0xff) as u8;
    let alpha = (rgba & 0xff) as u8;
    proof {
        assert(((rgba >> 24u32) & 0xff) == rgba / 0x100_0000) by (bit_vector);
        assert(((rgba >> 16u32) & 0xff) == (rgba / 0x1_0000) % 0x100) by (bit_vector);
        assert(((rgba >> 8u32) & 0xff) == (rgba / 0x100) % 0x100) by (bit_vector);
        assert((rgba & 0xff) == rgba % 0x100) by (bit_vector);
    }
    (red, green, blue, alpha)
}

/// The channels of a colour put back together give the colour.
pub proof fn lemma_rgba_channels_roundtrip(rgba: u32)
    ensures
        ({
            let (r, g, b, a) = spec_rgba_channels(rgba);
            r as int * 0x100_0000 + g as int * 0x1_0000 + b as int * 0x100 + a as int == rgba
        }),
{
    let x = rgba as int;
    assert(x == (x / 0x100_0000) * 0x100_0000 + ((x / 0x1_0000) % 0x100) * 0x1_0000
        + ((x / 0x100) % 0x100) * 0x100 + x % 0x100) by (nonlinear_arith)
        requires 0 <= x < 0x1_0000_0000;
}

/// The oldest time still shown by a graph whose newest sample is at `tnow`
/// and that covers `dt`.
pub open spec fn window_start(tnow: u64, dt: u64) -> int {
    if tnow >= dt {
        tnow - dt
    } else {
        0
    }
}

/// A sample taken no later than the newest one lies inside the window exactly
/// when it is at most `dt` older than the newest sample.
pub proof fn lemma_window_is_dt_back(tnow: u64, dt: u64, t: u64)
    requires
        t <= tnow,
    ensures
        (t >= window_start(tnow, dt)) == (tnow - t <= dt),
{
}

/// Whether the samples `0..=i` (newest first) all lie inside the graph's time
/// window, which starts at the first sample.
pub open spec fn in_window(times: Seq<u64>, dt: u64, i: int) -> bool {
    forall|j: int| 0 <= j <= i ==> #[trigger] times[j] >= window_start(times[0], dt)
}

/// Time offsets (from the newest sample back) of the samples a graph draws.
///
/// `times` lists sample times newest first. The graph draws samples from the
/// first one onwards and stops at the first sample older than its window of
/// `dt`; the result holds, for each drawn sample, how long before the newest
/// sample it was taken.
pub fn graph_offsets(times: &[u64], dt: u64) -> (r: Vec<u64>)
    requires
        forall|i: int| 0 <= i < times@.len() && #[trigger] in_window(times@, dt, i) ==> times@[i] <= times@[0],
    ensures
        r@.len() <= times@.len(),
        forall|j: int| 0 <= j < r@.len() ==> #[trigger] in_window(times@, dt, j),
        r@.len() < times@.len() ==> times@[r@.len() as int] < window_start(times@[0], dt),
        forall|j: int| 0 <= j < r@.len() ==> r@[j] == times@[0] - times@[j],
        forall|j: int| 0 <= j < r@.len() ==> r@[j] <= dt,
        r@.len() < times@.len() && times@[r@.len() as int] <= times@[0]
            ==> times@[0] - times@[r@.len() as int] > dt,
{
    let mut r: Vec<u64> = Vec::new();
    let n = times.len();
    if n == 0 {
        return r;
    }
    let tnow = times[0];
    let tstart = tnow.saturating_sub(dt);
    let mut i: usize = 0;
    while i < n && times[i] >= tstart
        invariant
            n == times@.len(),
            n > 0,
            tnow == times@[0],
            tstart == window_start(tnow, dt),
            forall|k: int| 0 <= k < times@.len() && #[trigger] in_window(times@, dt, k) ==> times@[k] <= times@[0],
            0 <= i <= n,
            r@.len() == i,
            forall|j: int| 0 <= j < i ==> #[trigger] in_window(times@, dt, j),
            forall|j: int| 0 <= j < i ==> r@[j] == times@[0] - times@[j],
            forall|j: int| 0 <= j < i ==> r@[j] <= dt,
        decreases n - i,
    {
        let time = times[i];
        proof {
            if i > 0 {
                assert(in_window(times@, dt, (i - 1) as int));
            }
            assert(in_window(times@, dt, i as int));
        }
        r.push(tnow - time);
        i = i + 1;
    }
    r
}

} // verus!
