//! The frame producer: a checkerboard of ten-pixel tiles, dark on every
//! other frame, and the count of frames produced per measuring window.

use vstd::prelude::*;

verus! {

/// The side of one checkerboard tile, in pixels.
pub const TILE: usize = 10;

/// The length of one measuring window of the frame rate, in nanoseconds.
pub const FPS_WINDOW_NANOS: u64 = 5_000_000_000;

/// Whether the tile that holds pixel (`x`, `y`) shows its level in the first
/// channel; the other tiles show it in the third.
pub open spec fn tile_in_first_channel(x: int, y: int) -> bool {
    (x / (TILE as int)) % 2 == (y / (TILE as int)) % 2
}

/// The level of row `y` on frame `frame`: the row's shade on odd frames,
/// nothing on even ones.
pub open spec fn level(shades: Seq<u8>, frame: nat, y: int) -> u8 {
    if frame % 2 == 1 {
        shades[y]
    } else {
        0
    }
}

/// Byte `j` of the frame with the given width, row shades and frame counter.
/// Pixels lie row by row, three bytes each; the middle byte is never lit.
pub open spec fn frame_byte(width: nat, shades: Seq<u8>, frame: nat, j: int) -> u8 {
    let i = j / 3;
    let x = i % (width as int);
    let y = i / (width as int);
    if j % 3 == 0 && tile_in_first_channel(x, y) {
        level(shades, frame, y)
    } else if j % 3 == 2 && !tile_in_first_channel(x, y) {
        level(shades, frame, y)
    } else {
        0
    }
}

/// The frame of `width` by `height` pixels with the given row shades and
/// frame counter.
pub open spec fn frame_of(width: nat, height: nat, shades: Seq<u8>, frame: nat) -> Seq<u8> {
    Seq::new(3 * width * height, |j: int| frame_byte(width, shades, frame, j))
}

/// What a producer is, as plain mathematical values.
pub struct ProducerView {
    pub width: nat,
    pub height: nat,
    /// The number of frames produced so far.
    pub frame: nat,
    /// The level of each row on odd frames.
    pub shades: Seq<u8>,
    /// When the current measuring window began, in nanoseconds.
    pub fps_t: nat,
    /// The number of frames produced in the current measuring window.
    pub fps_n: nat,
    /// The length of a measuring window, in nanoseconds.
    pub fps_c: nat,
}

impl ProducerView {
    /// The frame that the next call of `next_frame` returns.
    pub open spec fn pending_frame(self) -> Seq<u8> {
        frame_of(self.width, self.height, self.shades, self.frame)
    }

    /// The producer once the pending frame has been produced.
    pub open spec fn advanced(self) -> ProducerView {
        ProducerView { frame: self.frame + 1, fps_n: self.fps_n + 1, ..self }
    }

    /// Whether the measuring window has run its length at `now`.
    pub open spec fn window_over(self, now: nat) -> bool {
        now >= self.fps_t + self.fps_c
    }

    /// What the measuring window reports when it is closed at `now`.
    pub open spec fn window_report(self, now: nat) -> FpsReport {
        FpsReport { frames: self.fps_n as usize, elapsed_nanos: (now - self.fps_t) as u64 }
    }

    /// The producer once its measuring window has been closed at `now`.
    pub open spec fn reopened(self, now: nat) -> ProducerView {
        ProducerView { fps_t: now, fps_n: 0, ..self }
    }
}

/// The frames counted in one measuring window, and how long it ran.
#[derive(Debug, Clone, Copy, PartialEq, Eq, Structural)]
pub struct FpsReport {
    pub frames: usize,
    pub elapsed_nanos: u64,
}

/// Produces the frames of the checkerboard, one per call, and counts them.
pub struct Producer {
    height: usize,
    width: usize,
    frame: usize,
    shades: Vec<u8>,
    fps_t: u64,
    fps_n: usize,
    fps_c: u64,
}

impl View for Producer {
    type V = ProducerView;

    closed spec fn view(&self) -> ProducerView {
        ProducerView {
            width: self.width as nat,
            height: self.height as nat,
            frame: self.frame as nat,
            shades: self.shades@,
            fps_t: self.fps_t as nat,
            fps_n: self.fps_n as nat,
            fps_c: self.fps_c as nat,
        }
    }
}

impl Producer {
    /// One shade for each row, a frame that fits the address range, and no
    /// more frames in the window than were produced in all.
    #[verifier::type_invariant]
    closed spec fn inv(self) -> bool {
        &&& self.shades@.len() == self.height
        &&& 3 * self.width * self.height <= usize::MAX
        &&& self.fps_n <= self.frame
    }

    /// A producer of `width` by `height` frames that has produced none yet.
    /// `shades` gives the level of each row on odd frames, `now` the time at
    /// which the first measuring window begins.
    pub fn new_with_size(width: usize, height: usize, shades: Vec<u8>, now: u64) -> (producer: Self)
        requires
            shades@.len() == height,
            3 * width * height <= usize::MAX,
        ensures
            producer@ == (ProducerView {
                width: width as nat,
                height: height as nat,
                frame: 0,
                shades: shades@,
                fps_t: now as nat,
                fps_n: 0,
                fps_c: FPS_WINDOW_NANOS as nat,
            }),
    {
        Producer {
            height,
            width,
            frame: 0,
            shades,
            fps_t: now,
            fps_n: 0,
            fps_c: FPS_WINDOW_NANOS,
        }
    }

    /// Returns the pending frame and advances the frame counter and the count
    /// of the measuring window by one.
    pub fn next_frame(&mut self) -> (data: Vec<u8>)
        requires
            old(self)@.frame < usize::MAX,
        ensures
            data@ == old(self)@.pending_frame(),
            data@.len() == 3 * old(self)@.width * old(self)@.height,
            final(self)@ == old(self)@.advanced(),
    {
        proof {
            use_type_invariant(&*self);
            lemma_frame_size(self.width as nat, self.height as nat);
        }
        let n: usize = self.height * self.width;
        let lit: u8 = (self.frame % 2) as u8;
        let mut data: Vec<u8> = Vec::with_capacity(3 * n);
        for i in 0..n
            invariant
                n == self.height * self.width,
                3 * n <= usize::MAX,
                self.shades@.len() == self.height,
                lit == self.frame % 2,
                data@.len() == 3 * i,
                forall|j: int|
                    0 <= j < data@.len() ==> data@[j] == frame_byte(
                        self.width as nat,
                        self.shades@,
                        self.frame as nat,
                        j,
                    ),
        {
            proof {
                lemma_pixel_row(i as nat, self.width as nat, self.height as nat);
            }
            let x: usize = i % self.width;
            let y: usize = i / self.width;
            let col: u8 = self.shades[y] * lit;
            let tx: usize = (x / TILE) % 2;
            let ty: usize = (y / TILE) % 2;
            assert((tx ^ ty == 0) <==> tx == ty) by (bit_vector);
            if tx ^ ty == 0 {
                data.push(col);
                data.push(0);
                data.push(0);
            } else {
                data.push(0);
                data.push(0);
                data.push(col);
            }
        }
        proof {
            assert(3 * n == 3 * self.width * self.height) by (nonlinear_arith)
                requires
                    n == self.height * self.width,
            ;
            assert(data@ =~= self@.pending_frame());
        }
        self.frame += 1;
        self.fps_n += 1;
        data
    }

    /// Closes the measuring window if it has run its length at `now`: reports
    /// the frames counted in it and how long it ran, and begins a new window
    /// at `now`. Does nothing while the window is still running.
    pub fn report_fps(&mut self, now: u64) -> (report: Option<FpsReport>)
        ensures
            old(self)@.window_over(now as nat) ==> report == Some(
                old(self)@.window_report(now as nat),
            ) && final(self)@ == old(self)@.reopened(now as nat),
            !old(self)@.window_over(now as nat) ==> report.is_none() && final(self)@ == old(self)@,
    {
        proof {
            use_type_invariant(&*self);
        }
        if now >= self.fps_t && now - self.fps_t >= self.fps_c {
            let report = FpsReport { frames: self.fps_n, elapsed_nanos: now - self.fps_t };
            self.fps_n = 0;
            self.fps_t = now;
            Some(report)
        } else {
            None
        }
    }

    /// The width of the frames, in pixels.
    pub fn width(&self) -> (w: usize)
        ensures
            w == self@.width,
    {
        self.width
    }

    /// The height of the frames, in pixels.
    pub fn height(&self) -> (h: usize)
        ensures
            h == self@.height,
    {
        self.height
    }

    /// The number of frames produced so far.
    pub fn frame(&self) -> (f: usize)
        ensures
            f == self@.frame,
    {
        self.frame
    }
}

/// A frame has three bytes for each of its pixels.
pub proof fn lemma_frame_len(width: nat, height: nat, shades: Seq<u8>, frame: nat)
    ensures
        frame_of(width, height, shades, frame).len() == 3 * width * height,
        frame_of(width, height, shades, frame).len() % 3 == 0,
{
    lemma_frame_size(width, height);
}

/// The pending frame depends on the size, the row shades and the frame
/// counter alone: two producers that agree on these have the same frame
/// pending, whatever their measuring windows hold.
pub proof fn lemma_pending_frame_determined(a: ProducerView, b: ProducerView)
    requires
        a.width == b.width,
        a.height == b.height,
        a.shades == b.shades,
        a.frame == b.frame,
    ensures
        a.pending_frame() == b.pending_frame(),
{
}

/// Closing a measuring window leaves the pending frame as it is.
pub proof fn lemma_window_keeps_pending_frame(producer: ProducerView, now: nat)
    ensures
        producer.reopened(now).pending_frame() == producer.pending_frame(),
{
}

/// Every byte of an even frame is dark.
pub proof fn lemma_even_frame_dark(width: nat, height: nat, shades: Seq<u8>, frame: nat)
    requires
        frame % 2 == 0,
    ensures
        forall|j: int|
            0 <= j < 3 * width * height ==> #[trigger] frame_of(width, height, shades, frame)[j]
                == 0,
{
}

/// The frames alternate: each is the frame before the last one.
pub proof fn lemma_frames_alternate(width: nat, height: nat, shades: Seq<u8>, frame: nat)
    ensures
        frame_of(width, height, shades, frame + 2) == frame_of(width, height, shades, frame),
{
    assert(frame_of(width, height, shades, frame + 2) =~= frame_of(width, height, shades, frame));
}

/// Three bytes for each pixel, whichever way the product is taken.
proof fn lemma_frame_size(width: nat, height: nat)
    ensures
        3 * (height * width) == 3 * width * height,
        (3 * width * height) % 3 == 0,
        (3 * width * height) / 3 == width * height,
{
    assert(3 * (height * width) == 3 * width * height && 3 * (width * height) == 3 * width
        * height) by (nonlinear_arith);
}

/// Pixel `i` of a `width` by `height` frame lies in one of its rows.
proof fn lemma_pixel_row(i: nat, width: nat, height: nat)
    requires
        i < height * width,
    ensures
        width > 0,
        0 <= (i as int) / (width as int) < height,
        0 <= (i as int) % (width as int) < width,
{
    assert(width > 0) by (nonlinear_arith)
        requires
            i < height * width,
    ;
    assert((i as int) / (width as int) < height) by (nonlinear_arith)
        requires
            i < height * width,
            width > 0,
    ;
}

} // verus!
