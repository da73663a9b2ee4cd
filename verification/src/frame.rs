//! The canonical pixel representation crossing the facade boundary: a frame
//! carries its buffer in one packed 32-bit-per-pixel layout, and exposes the
//! same storage both byte-granular and as packed words.

use vstd::prelude::*;

verus! {

/// A packed 32-bit pixel assembled from four consecutive bytes, least
/// significant byte first.
pub open spec fn word_of_bytes(b0: u8, b1: u8, b2: u8, b3: u8) -> u32 {
    (b0 + b1 * 0x100 + b2 * 0x1_0000 + b3 * 0x100_0000) as u32
}

/// The reinterpretation of a byte buffer as packed 32-bit pixels: word `i`
/// gathers bytes `4*i` through `4*i + 3`.
pub open spec fn packed_of(bytes: Seq<u8>) -> Seq<u32> {
    Seq::new(
        bytes.len() / 4,
        |i: int| word_of_bytes(bytes[4 * i], bytes[4 * i + 1], bytes[4 * i + 2], bytes[4 * i + 3]),
    )
}

/// Builds the packed 32-bit view of an aligned byte buffer.
fn pack_words(bytes: &Vec<u8>) -> (words: Vec<u32>)
    requires
        bytes@.len() % 4 == 0,
    ensures
        words@ == packed_of(bytes@),
{
    proof {
        vstd::arithmetic::div_mod::lemma_fundamental_div_mod(bytes@.len() as int, 4);
    }
    let n: usize = bytes.len() / 4;
    let mut words: Vec<u32> = Vec::new();
    let mut i: usize = 0;
    while i < n
        invariant
            i <= n,
            n == bytes@.len() / 4,
            4 * n == bytes@.len(),
            bytes@.len() <= usize::MAX,
            words@.len() == i as int,
            forall|j: int| 0 <= j < i as int ==> words@[j] == packed_of(bytes@)[j],
        decreases n - i,
    {
        let base: usize = 4 * i;
        let word: u32 = bytes[base] as u32 + bytes[base + 1] as u32 * 0x100
            + bytes[base + 2] as u32 * 0x1_0000 + bytes[base + 3] as u32 * 0x100_0000;
        words.push(word);
        i = i + 1;
    }
    proof {
        assert(words@ =~= packed_of(bytes@));
    }
    words
}

/// One captured image in the canonical packed pixel format, together with the
/// geometry negotiated at the time of capture.
#[derive(Debug)]
pub struct Frame {
    width: u32,
    height: u32,
    bytes: Vec<u8>,
    words: Vec<u32>,
}

/// A borrowed, read-only view into a frame's pixel storage, valid as long as
/// the frame it came from.
pub struct FrameData<'a> {
    frame: &'a Frame,
}

impl Frame {
    /// The negotiated frame width in pixels.
    pub closed spec fn width_spec(&self) -> u32 {
        self.width
    }

    /// The negotiated frame height in pixels.
    pub closed spec fn height_spec(&self) -> u32 {
        self.height
    }

    /// The byte-granular contents of the pixel buffer.
    pub closed spec fn bytes_spec(&self) -> Seq<u8> {
        self.bytes@
    }

    /// The packed 32-bit contents of the pixel buffer.
    pub closed spec fn words_spec(&self) -> Seq<u32> {
        self.words@
    }

    /// Well-formedness of a frame: the byte buffer holds exactly four bytes
    /// per pixel of the stated geometry, and the packed view is its canonical
    /// reinterpretation. Every frame handed out by this crate satisfies it.
    pub closed spec fn wf(&self) -> bool {
        &&& self.bytes@.len() == 4 * ((self.width as int) * (self.height as int))
        &&& self.words@ == packed_of(self.bytes@)
    }

    #[verifier::type_invariant]
    spec fn shape_inv(self) -> bool {
        self.wf()
    }

    /// Wraps a delivered pixel buffer, guarding the alignment invariant: the
    /// buffer is accepted exactly when its byte length is four bytes per pixel
    /// of the stated geometry.
    pub fn from_buffer(width: u32, height: u32, bytes: Vec<u8>) -> (frame: Option<Frame>)
        ensures
            match frame {
                Some(f) => {
                    &&& bytes@.len() == 4 * ((width as int) * (height as int))
                    &&& f.wf()
                    &&& f.width_spec() == width
                    &&& f.height_spec() == height
                    &&& f.bytes_spec() == bytes@
                    &&& f.words_spec() == packed_of(bytes@)
                },
                None => bytes@.len() != 4 * ((width as int) * (height as int)),
            },
    {
        proof {
            vstd::arithmetic::mul::lemma_mul_upper_bound(
                width as int,
                0xFFFF_FFFF,
                height as int,
                0xFFFF_FFFF,
            );
        }
        let have: u64 = bytes.len() as u64;
        let pixels: u64 = width as u64 * height as u64;
        if pixels > 0x3FFF_FFFF_FFFF_FFFF {
            return None;
        }
        let need: u64 = 4 * pixels;
        if have != need {
            return None;
        }
        proof {
            vstd::arithmetic::div_mod::lemma_mod_multiples_basic(pixels as int, 4);
        }
        let words = pack_words(&bytes);
        Some(Frame { width, height, bytes, words })
    }

    /// Produces the borrowed pixel view; no pixel payload is copied.
    pub fn data(&self) -> (data: FrameData)
        ensures
            data.width_spec() == self.width_spec(),
            data.height_spec() == self.height_spec(),
            data.bytes_spec() == self.bytes_spec(),
            data.words_spec() == self.words_spec(),
    {
        FrameData { frame: self }
    }

    /// The negotiated output geometry at the time of capture.
    pub fn size_u32(&self) -> (size: (u32, u32))
        ensures
            size.0 == self.width_spec(),
            size.1 == self.height_spec(),
    {
        (self.width, self.height)
    }
}

impl<'a> FrameData<'a> {
    /// The width of the frame this view was derived from.
    pub closed spec fn width_spec(&self) -> u32 {
        self.frame.width
    }

    /// The height of the frame this view was derived from.
    pub closed spec fn height_spec(&self) -> u32 {
        self.frame.height
    }

    /// The byte-granular contents of the viewed buffer.
    pub closed spec fn bytes_spec(&self) -> Seq<u8> {
        self.frame.bytes@
    }

    /// The packed 32-bit contents of the viewed buffer.
    pub closed spec fn words_spec(&self) -> Seq<u32> {
        self.frame.words@
    }

    /// The raw byte-granular view of the pixel storage.
    pub fn data_u8(&self) -> (bytes: &[u8])
        ensures
            bytes@ == self.bytes_spec(),
    {
        self.frame.bytes.as_slice()
    }

    /// The same storage viewed as packed 32-bit pixels.
    pub fn data_u32(&self) -> (words: &[u32])
        ensures
            words@ == self.words_spec(),
            words@ == packed_of(self.bytes_spec()),
    {
        proof {
            use_type_invariant(&*self.frame);
        }
        self.frame.words.as_slice()
    }
}

/// The alignment law of the dual view: the byte view is exactly four times as
/// long as the packed view, both fixed by the frame's geometry, and the packed
/// view is the canonical reinterpretation of the byte view.
pub proof fn lemma_frame_view_shape(frame: &Frame)
    requires
        frame.wf(),
    ensures
        frame.bytes_spec().len() == 4 * frame.words_spec().len(),
        frame.words_spec() == packed_of(frame.bytes_spec()),
        frame.bytes_spec().len() == 4 * ((frame.width_spec() as int) * (frame.height_spec() as int)),
        frame.words_spec().len() == (frame.width_spec() as int) * (frame.height_spec() as int),
{
    let pixels = (frame.width_spec() as int) * (frame.height_spec() as int);
    assert(frame.bytes_spec().len() == 4 * pixels);
    assert(frame.words_spec().len() == (4 * pixels) / 4);
    vstd::arithmetic::div_mod::lemma_div_multiples_vanish(pixels, 4);
}

} // verus!
