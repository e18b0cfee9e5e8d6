//! Widening of packed three-byte pixels to four bytes per pixel.

use vstd::prelude::*;

verus! {

/// The byte that fills the fourth channel of every widened pixel.
pub const PADDING: u8 = 1;

/// The byte at position `j` of the widened form of `bgr`: the fourth byte of
/// each pixel is the padding, the other three are the pixel's own, in order.
pub open spec fn bgra_byte(bgr: Seq<u8>, j: int) -> u8 {
    if j % 4 == 3 {
        PADDING
    } else {
        bgr[(j / 4) * 3 + j % 4]
    }
}

/// The widened form of `bgr`: one four-byte pixel for each whole three-byte
/// pixel of `bgr`.
pub open spec fn bgra_of(bgr: Seq<u8>) -> Seq<u8> {
    Seq::new((4 * (bgr.len() / 3)) as nat, |j: int| bgra_byte(bgr, j))
}

/// Whether pixel `p` of `bgra` is pixel `p` of `bgr` followed by the padding.
pub open spec fn pixel_widened(bgr: Seq<u8>, bgra: Seq<u8>, p: int) -> bool {
    &&& bgra[4 * p] == bgr[3 * p]
    &&& bgra[4 * p + 1] == bgr[3 * p + 1]
    &&& bgra[4 * p + 2] == bgr[3 * p + 2]
    &&& bgra[4 * p + 3] == PADDING
}

/// Whether `bgra` is `bgr` with every pixel widened: four thirds as long, and
/// pixel for pixel the same three bytes followed by the padding.
pub open spec fn widened(bgr: Seq<u8>, bgra: Seq<u8>) -> bool {
    &&& 3 * bgra.len() == 4 * bgr.len()
    &&& forall|p: int| 0 <= p < bgr.len() / 3 ==> #[trigger] pixel_widened(bgr, bgra, p)
}

/// The widened form of a whole number of pixels keeps every pixel's three
/// bytes in order, appends the padding to each, and is four thirds as long.
pub proof fn lemma_bgra_of_widened(bgr: Seq<u8>)
    requires
        bgr.len() % 3 == 0,
    ensures
        widened(bgr, bgra_of(bgr)),
{
    let bgra = bgra_of(bgr);
    assert forall|p: int| 0 <= p < bgr.len() / 3 implies #[trigger] pixel_widened(bgr, bgra, p) by {
        assert(bgra[4 * p] == bgra_byte(bgr, 4 * p));
        assert(bgra[4 * p + 1] == bgra_byte(bgr, 4 * p + 1));
        assert(bgra[4 * p + 2] == bgra_byte(bgr, 4 * p + 2));
        assert(bgra[4 * p + 3] == bgra_byte(bgr, 4 * p + 3));
    }
}

/// Only one buffer is the widening of a given whole number of pixels.
pub proof fn lemma_widened_unique(bgr: Seq<u8>, bgra: Seq<u8>)
    requires
        bgr.len() % 3 == 0,
        widened(bgr, bgra),
    ensures
        bgra == bgra_of(bgr),
{
    assert forall|j: int| 0 <= j < bgra.len() implies bgra[j] == bgra_byte(bgr, j) by {
        let p = j / 4;
        assert(pixel_widened(bgr, bgra, p));
    }
    assert(bgra =~= bgra_of(bgr));
}

/// Converts a buffer of three-byte pixels to a buffer of four-byte pixels.
///
/// The input holds a whole number of pixels, and the output's length fits
/// the machine's address range.
pub fn bgr2bgra(data: &[u8]) -> (bgra: Vec<u8>)
    requires
        data@.len() % 3 == 0,
        4 * (data@.len() / 3) <= usize::MAX,
    ensures
        bgra@ == bgra_of(data@),
        widened(data@, bgra@),
{
    let n_pix: usize = data.len() / 3;
    let mut bgra: Vec<u8> = Vec::with_capacity(4 * n_pix);
    for i in 0..n_pix
        invariant
            3 * n_pix <= data@.len() <= usize::MAX,
            bgra@.len() == 4 * i,
            forall|j: int| 0 <= j < bgra@.len() ==> bgra@[j] == bgra_byte(data@, j),
    {
        bgra.push(data[i * 3]);
        bgra.push(data[i * 3 + 1]);
        bgra.push(data[i * 3 + 2]);
        bgra.push(PADDING);
    }
    proof {
        assert(bgra@ =~= bgra_of(data@));
        lemma_bgra_of_widened(data@);
    }
    bgra
}

} // verus!
