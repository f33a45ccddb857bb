//! Composition of a QR bit-matrix onto the fixed display canvas, and its
//! encoding into the display's RGB 5-6-5 byte stream.
use vstd::prelude::*;

verus! {

/// Canvas width and height in pixels.
pub const CANVAS_DIM: usize = 128;

/// Number of pixels on the canvas.
pub const CANVAS_PIXELS: usize = 16384;

/// A colour as 8-bit red, green and blue.
pub type Color = (u8, u8, u8);

pub open spec fn white() -> Color {
    (255u8, 255u8, 255u8)
}

pub open spec fn black() -> Color {
    (0u8, 0u8, 0u8)
}

/// A rectangular grid of dark and light cells, row-major.
pub struct Bitmatrix {
    pub width: usize,
    pub height: usize,
    pub dark: Vec<bool>,
}

impl Bitmatrix {
    /// One cell per grid position.
    pub open spec fn wf(&self) -> bool {
        self.dark@.len() == self.width * self.height
    }

    /// Whether the cell at column `x`, row `y` is dark.
    pub open spec fn is_dark(&self, x: int, y: int) -> bool {
        self.dark@[y * self.width + x]
    }

    /// The matrix whose cells are dark exactly where the 8-bit luminance is 0.
    pub fn from_luma(width: usize, height: usize, luma: &[u8]) -> (r: Bitmatrix)
        requires
            luma@.len() == width * height,
        ensures
            r.wf(),
            r.width == width,
            r.height == height,
            forall|i: int| 0 <= i < luma@.len() ==> r.dark@[i] == (luma@[i] == 0),
    {
        let mut dark: Vec<bool> = Vec::new();
        let mut i: usize = 0;
        while i < luma.len()
            invariant
                i <= luma@.len(),
                dark@.len() == i,
                forall|j: int| 0 <= j < i ==> dark@[j] == (luma@[j] == 0),
            decreases luma@.len() - i,
        {
            dark.push(luma[i] == 0);
            i = i + 1;
        }
        Bitmatrix { width, height, dark }
    }
}

/// Offset along one axis that centres `dim` cells on the canvas (floor division).
pub open spec fn center_offset(dim: int) -> int {
    (CANVAS_DIM as int - dim) / 2
}

/// The matrix coordinate that lands on canvas coordinate `c`, if within `dim`.
pub open spec fn source_coord(c: int, dim: int) -> Option<int> {
    let b = c - center_offset(dim);
    if 0 <= b < dim {
        Some(b)
    } else {
        None
    }
}

/// The colour of canvas pixel `(x, y)`: black where a dark matrix cell lands
/// on it once the matrix is centred, white elsewhere.
pub open spec fn canvas_pixel(m: Bitmatrix, x: int, y: int) -> Color {
    match (source_coord(x, m.width as int), source_coord(y, m.height as int)) {
        (Some(bx), Some(by)) => if m.is_dark(bx, by) {
            black()
        } else {
            white()
        },
        _ => white(),
    }
}

/// The whole canvas for a matrix, row-major.
pub open spec fn canvas_of(m: Bitmatrix) -> Seq<Color> {
    Seq::new(CANVAS_PIXELS as nat, |p: int| canvas_pixel(m, p % CANVAS_DIM as int, p / CANVAS_DIM as int))
}

/// RGB 5-6-5 packing: top 5 bits of red, top 6 of green, top 5 of blue,
/// most significant first.
pub open spec fn pack565(c: Color) -> int {
    (c.0 as int / 8) * 2048 + (c.1 as int / 4) * 32 + c.2 as int / 8
}

/// Byte `j` of the little-endian 5-6-5 stream for `cells`.
pub open spec fn stream_byte(cells: Seq<Color>, j: int) -> u8 {
    let p = pack565(cells[j / 2]);
    if j % 2 == 0 {
        (p % 256) as u8
    } else {
        (p / 256) as u8
    }
}

/// The display byte stream for `cells`: one little-endian 16-bit word per cell.
pub open spec fn stream_of(cells: Seq<Color>) -> Seq<u8> {
    Seq::new(2 * cells.len(), |j: int| stream_byte(cells, j))
}

/// The display byte stream for a matrix.
pub open spec fn frame_of(m: Bitmatrix) -> Seq<u8> {
    stream_of(canvas_of(m))
}

/// Packs an 8-bit RGB colour into a 16-bit 5-6-5 word.
pub fn rgb565(r: u8, g: u8, b: u8) -> (p: u16)
    ensures
        p as int == pack565((r, g, b)),
        p == ((r as u16 & 0xF8) << 8) | ((g as u16 & 0xFC) << 3) | (b as u16 >> 3),
{
    proof {
        lemma_pack565_masks(r, g, b);
    }
    ((r as u16 & 0xF8) << 8) | ((g as u16 & 0xFC) << 3) | (b as u16 >> 3)
}

/// The 5-6-5 word is the masked channels shifted into place.
pub proof fn lemma_pack565_masks(r: u8, g: u8, b: u8)
    ensures
        pack565((r, g, b)) == (((r as u16 & 0xF8) << 8) | ((g as u16 & 0xFC) << 3) | (b as u16 >> 3)) as int,
{
    let rr = r as u16;
    let gg = g as u16;
    let bb = b as u16;
    assert(((rr & 0xF8) << 8) | ((gg & 0xFC) << 3) | (bb >> 3) == (rr / 8) * 2048 + (gg / 4) * 32 + bb / 8
        && (rr / 8) * 2048 + (gg / 4) * 32 + bb / 8 <= 0xFFFF) by (bit_vector)
        requires
            rr < 256,
            gg < 256,
            bb < 256,
    ;
}

/// Whether two colours agree in the top 5 bits of red, 6 of green and 5 of blue.
pub open spec fn same_top_bits(a: Color, b: Color) -> bool {
    a.0 / 8 == b.0 / 8 && a.1 / 4 == b.1 / 4 && a.2 / 8 == b.2 / 8
}

/// Two colours pack to the same word exactly when their top 5/6/5 bits
/// agree: the lower bits are truncated.
pub proof fn lemma_pack565_truncates(a: Color, b: Color)
    ensures
        pack565(a) == pack565(b) <==> same_top_bits(a, b),
{
    let (ra, ga, ba) = (a.0 as int / 8, a.1 as int / 4, a.2 as int / 8);
    let (rb, gb, bb) = (b.0 as int / 8, b.1 as int / 4, b.2 as int / 8);
    assert(0 <= ra < 32 && 0 <= rb < 32 && 0 <= ga < 64 && 0 <= gb < 64 && 0 <= ba < 32 && 0 <= bb < 32);
}

/// A packed word lies in 16 bits.
pub proof fn lemma_pack565_range(c: Color)
    ensures
        0 <= pack565(c) <= 0xFFFF,
{
}

/// Each cell occupies two bytes of the stream, low byte first, that together
/// give its packed word.
pub proof fn lemma_stream_word(cells: Seq<Color>, i: int)
    requires
        0 <= i < cells.len(),
    ensures
        stream_of(cells).len() == 2 * cells.len(),
        stream_of(cells)[2 * i] as int + 256 * stream_of(cells)[2 * i + 1] as int == pack565(cells[i]),
{
    lemma_pack565_range(cells[i]);
    assert((2 * i) / 2 == i);
    assert((2 * i + 1) / 2 == i);
    assert((2 * i) % 2 == 0);
    assert((2 * i + 1) % 2 == 1);
}

/// Two buffers of equal length give the same byte stream exactly when every
/// pair of corresponding colours agrees in its top 5/6/5 bits.
pub proof fn lemma_stream_truncates(a: Seq<Color>, b: Seq<Color>)
    requires
        a.len() == b.len(),
    ensures
        stream_of(a) == stream_of(b) <==> forall|i: int| 0 <= i < a.len() ==> same_top_bits(a[i], b[i]),
{
    if stream_of(a) == stream_of(b) {
        assert forall|i: int| 0 <= i < a.len() implies same_top_bits(a[i], b[i]) by {
            lemma_stream_word(a, i);
            lemma_stream_word(b, i);
            lemma_pack565_truncates(a[i], b[i]);
        }
    }
    if forall|i: int| 0 <= i < a.len() ==> same_top_bits(a[i], b[i]) {
        assert forall|j: int| 0 <= j < 2 * a.len() implies stream_byte(a, j) == stream_byte(b, j) by {
            lemma_pack565_truncates(a[j / 2], b[j / 2]);
        }
        assert(stream_of(a) =~= stream_of(b));
    }
}

/// Encodes a buffer of colours as the display's little-endian 5-6-5 stream.
pub fn encode_pixels(buffer: &[Color]) -> (r: Vec<u8>)
    requires
        2 * buffer@.len() <= usize::MAX,
    ensures
        r@ == stream_of(buffer@),
{
    let mut out: Vec<u8> = Vec::new();
    let mut i: usize = 0;
    while i < buffer.len()
        invariant
            i <= buffer@.len(),
            2 * buffer@.len() <= usize::MAX,
            out@.len() == 2 * i,
            forall|j: int| 0 <= j < 2 * i ==> out@[j] == stream_byte(buffer@, j),
        decreases buffer@.len() - i,
    {
        let (r, g, b) = buffer[i];
        let p = rgb565(r, g, b);
        out.push((p % 256) as u8);
        out.push((p / 256) as u8);
        proof {
            assert(stream_byte(buffer@, 2 * i as int) == out@[2 * i as int]);
            assert(stream_byte(buffer@, 2 * i + 1) == out@[2 * i + 1]);
        }
        i = i + 1;
    }
    assert(out@ =~= stream_of(buffer@));
    out
}

/// The matrix coordinate that lands on canvas coordinate `c`, if any.
fn source_index(c: usize, dim: usize) -> (r: Option<usize>)
    requires
        c < CANVAS_DIM,
    ensures
        match r {
            Some(b) => source_coord(c as int, dim as int) == Some(b as int),
            None => source_coord(c as int, dim as int) is None,
        },
{
    if dim <= CANVAS_DIM {
        let off = (CANVAS_DIM - dim) / 2;
        if c >= off && c - off < dim {
            Some(c - off)
        } else {
            None
        }
    } else {
        let back = (dim - 127) / 2;
        assert(center_offset(dim as int) == -(back as int));
        let b = c + back;
        if b < dim {
            Some(b)
        } else {
            None
        }
    }
}

/// Centres a matrix on a white canvas, drawing its dark cells black; cells
/// that fall outside the canvas are dropped.
pub fn compose(m: &Bitmatrix) -> (r: Vec<Color>)
    requires
        m.wf(),
    ensures
        r@ == canvas_of(*m),
{
    let mut out: Vec<Color> = Vec::new();
    let mut p: usize = 0;
    let n = m.dark.len();
    while p < CANVAS_PIXELS
        invariant
            m.wf(),
            n == m.dark@.len(),
            p <= CANVAS_PIXELS,
            out@.len() == p,
            forall|j: int| 0 <= j < p ==> out@[j] == canvas_pixel(*m, j % CANVAS_DIM as int, j / CANVAS_DIM as int),
        decreases CANVAS_PIXELS - p,
    {
        let x = p % CANVAS_DIM;
        let y = p / CANVAS_DIM;
        let mut color: Color = (255, 255, 255);
        match (source_index(x, m.width), source_index(y, m.height)) {
            (Some(bx), Some(by)) => {
                proof {
                    assert(by * m.width + bx < m.height * m.width) by (nonlinear_arith)
                        requires
                            bx < m.width,
                            by < m.height,
                    ;
                    assert(m.height * m.width == m.width * m.height) by (nonlinear_arith);
                    assert(by * m.width <= by * m.width + bx);
                    assert(0 <= by * m.width) by (nonlinear_arith);
                }
                if m.dark[by * m.width + bx] {
                    color = (0, 0, 0);
                }
            },
            _ => {},
        }
        out.push(color);
        p = p + 1;
    }
    assert(out@ =~= canvas_of(*m));
    out
}

/// The exact display byte stream for a matrix centred on the canvas.
pub fn render_frame(m: &Bitmatrix) -> (r: Vec<u8>)
    requires
        m.wf(),
    ensures
        r@ == frame_of(*m),
        r@.len() == 2 * CANVAS_PIXELS,
{
    let canvas = compose(m);
    encode_pixels(canvas.as_slice())
}

/// Rendering depends on the matrix alone: rendering the same matrix twice
/// yields byte-identical streams.
pub proof fn lemma_render_deterministic(m1: Bitmatrix, m2: Bitmatrix)
    requires
        m1.width == m2.width,
        m1.height == m2.height,
        m1.dark@ == m2.dark@,
    ensures
        frame_of(m1) == frame_of(m2),
{
    assert(canvas_of(m1) =~= canvas_of(m2));
}

} // verus!

verus! {

/// The display's frame memory: the exact bytes last handed to the display.
pub struct OrbicFramebuffer {
    pub frame: Vec<u8>,
}

impl OrbicFramebuffer {
    /// A framebuffer that has not been written yet.
    pub fn new() -> (r: OrbicFramebuffer)
        ensures
            r.frame@ == Seq::<u8>::empty(),
    {
        OrbicFramebuffer { frame: Vec::new() }
    }

    /// Replaces the frame with the 5-6-5 stream of `buffer`.
    pub fn write_buffer(&mut self, buffer: &[Color])
        requires
            2 * buffer@.len() <= usize::MAX,
        ensures
            final(self).frame@ == stream_of(buffer@),
    {
        self.frame = encode_pixels(buffer);
    }

    /// Replaces the frame with the stream for a matrix centred on the canvas.
    pub fn show_matrix(&mut self, m: &Bitmatrix)
        requires
            m.wf(),
        ensures
            final(self).frame@ == frame_of(*m),
    {
        self.frame = render_frame(m);
    }
}

/// The all-white canvas.
pub open spec fn blank_canvas() -> Seq<Color> {
    Seq::new(CANVAS_PIXELS as nat, |p: int| white())
}

/// Clears the display: the frame becomes the stream of an all-white canvas.
pub fn clear_display(fb: &mut OrbicFramebuffer)
    ensures
        final(fb).frame@ == stream_of(blank_canvas()),
{
    let mut buffer: Vec<Color> = Vec::new();
    let mut p: usize = 0;
    while p < CANVAS_PIXELS
        invariant
            p <= CANVAS_PIXELS,
            buffer@ =~= Seq::new(p as nat, |j: int| white()),
        decreases CANVAS_PIXELS - p,
    {
        buffer.push((255u8, 255u8, 255u8));
        p = p + 1;
    }
    assert(buffer@ =~= blank_canvas());
    fb.write_buffer(buffer.as_slice());
}

} // verus!
