//! The elevation field of the generated body: how its samples are laid out,
//! how they are encoded for the shading stage, and the texture they end in.
//!
//! One sample is a single-precision number, held as its bit pattern. What a
//! sample is worth at a grid cell is for the caller to say, through the
//! function it hands to [`SimplexGenerator::get_map`]; the order of the cells,
//! the size of the field and the bytes of the texture are settled here.
use crate::binary32::{at_most, is_nan, le, magnitude, SIGN_BIT};
use vstd::arithmetic::div_mod::lemma_fundamental_div_mod_converse;
use vstd::prelude::*;

verus! {

/// The encoding of `0.8`, the scale of the samples: what the normalised sum
/// of a sample's harmonics is multiplied by.
pub const SCALE: u32 = 0x3F4C_CCCD;

/// What one run of generation is made with.
pub struct GenerationParameters {
    pub width: u32,
    pub height: u32,
    pub seed: u32,
}

/// Whether a grid of `width` by `height` cells can be generated: neither side
/// is zero, and the bytes of its texture can be counted in a `usize`.
pub open spec fn valid_dimensions(width: u32, height: u32) -> bool {
    &&& width >= 1
    &&& height >= 1
    &&& 4 * (width * height) <= usize::MAX
}

/// The grid cell that the sample at index `k` belongs to, in a grid of the
/// given height. The field is row-major over the two indices of a cell: the
/// samples of one first index stand together, in the order of the second.
pub open spec fn cell_of(height: u32, k: int) -> (u32, u32) {
    ((k / (height as int)) as u32, (k % (height as int)) as u32)
}

/// Whether `map` is a field that `sample` can have produced for `params`: it
/// has one sample for each cell of the grid, and the sample at each index is
/// one that `sample` returns for the cell of that index.
pub open spec fn is_map_of<F: Fn(u32, u32) -> u32>(
    params: GenerationParameters,
    sample: F,
    map: Seq<u32>,
) -> bool {
    &&& map.len() == params.width * params.height
    &&& forall|k: int|
        0 <= k < map.len() ==> call_ensures(sample, cell_of(params.height, k), #[trigger] map[k])
}

/// Whether `sample` returns one value only for each cell.
pub open spec fn is_single_valued<F: Fn(u32, u32) -> u32>(sample: F) -> bool {
    forall|i: u32, j: u32, a: u32, b: u32|
        call_ensures(sample, (i, j), a) && call_ensures(sample, (i, j), b) ==> a == b
}

/// Whether a sample lies between `-0.8` and `0.8`.
pub open spec fn within_scale(bits: u32) -> bool {
    at_most(magnitude(bits), SCALE)
}

/// Byte `place` of `word`, counted from the least significant.
pub open spec fn byte_of(word: u32, place: int) -> u8 {
    if place == 0 {
        (word % 256) as u8
    } else if place == 1 {
        (word / 0x100 % 256) as u8
    } else if place == 2 {
        (word / 0x1_0000 % 256) as u8
    } else {
        (word / 0x100_0000 % 256) as u8
    }
}

/// The little-endian encoding of `words`: four bytes for each, least
/// significant first, in the order of the words.
pub open spec fn le_bytes(words: Seq<u32>) -> Seq<u8> {
    Seq::new(4 * words.len(), |k: int| byte_of(words[k / 4], k % 4))
}

/// The word that the four bytes from index `4 * n` on encode.
pub open spec fn word_at(bytes: Seq<u8>, n: int) -> u32 {
    (bytes[4 * n] + 0x100 * bytes[4 * n + 1] + 0x1_0000 * bytes[4 * n + 2] + 0x100_0000 * bytes[4
        * n + 3]) as u32
}

/// The words that `bytes` encode, four bytes to a word.
pub open spec fn le_words(bytes: Seq<u8>) -> Seq<u32> {
    Seq::new(bytes.len() / 4, |n: int| word_at(bytes, n))
}

/// Tells whether a grid of `width` by `height` cells can be generated.
pub fn dimensions_valid(width: u32, height: u32) -> (ok: bool)
    ensures
        ok == valid_dimensions(width, height),
{
    if width == 0 || height == 0 {
        return false;
    }
    assert((width as int) * (height as int) <= 0xFFFF_FFFF * 0xFFFF_FFFF) by (nonlinear_arith)
        requires
            width <= 0xFFFF_FFFF,
            height <= 0xFFFF_FFFF,
    ;
    let cells: u64 = (width as u64) * (height as u64);
    let limit: u64 = (usize::MAX as u64) / 4;
    cells <= limit
}

/// The seed that a clock reading of `epoch_secs` whole seconds gives: its low
/// 32 bits.
pub fn seed_from_clock(epoch_secs: u64) -> (seed: u32)
    ensures
        seed == epoch_secs % 0x1_0000_0000,
{
    (epoch_secs % 0x1_0000_0000) as u32
}

/// Tells whether a sample lies between `-0.8` and `0.8`.
pub fn sample_within_scale(bits: u32) -> (ok: bool)
    ensures
        ok == within_scale(bits),
        ok ==> !is_nan(bits),
{
    let m: u32 = if bits >= SIGN_BIT {
        bits - SIGN_BIT
    } else {
        bits
    };
    le(m, SCALE)
}

/// Generates elevation fields of one size from one seed.
#[derive(Clone, Copy, Debug, PartialEq, Eq, Structural)]
pub struct SimplexGenerator {
    width: u32,
    height: u32,
    seed: u32,
}

impl View for SimplexGenerator {
    type V = GenerationParameters;

    closed spec fn view(&self) -> GenerationParameters {
        GenerationParameters { width: self.width, height: self.height, seed: self.seed }
    }
}

impl SimplexGenerator {
    #[verifier::type_invariant]
    spec fn well_formed(self) -> bool {
        valid_dimensions(self.width, self.height)
    }

    /// A generator for grids of `width` by `height` cells.
    pub fn new(width: u32, height: u32, seed: u32) -> (generator: Self)
        requires
            valid_dimensions(width, height),
        ensures
            generator@ == (GenerationParameters { width, height, seed }),
    {
        SimplexGenerator { width, height, seed }
    }

    /// A generator for grids of `width` by `height` cells, or nothing where
    /// such a grid cannot be generated.
    pub fn checked_new(width: u32, height: u32, seed: u32) -> (generator: Option<Self>)
        ensures
            generator is Some <==> valid_dimensions(width, height),
            generator matches Some(made) ==> made@ == (GenerationParameters { width, height, seed }),
    {
        if dimensions_valid(width, height) {
            Some(SimplexGenerator::new(width, height, seed))
        } else {
            None
        }
    }

    pub fn width(&self) -> (width: u32)
        ensures
            width == self@.width,
    {
        self.width
    }

    pub fn height(&self) -> (height: u32)
        ensures
            height == self@.height,
    {
        self.height
    }

    pub fn seed(&self) -> (seed: u32)
        ensures
            seed == self@.seed,
    {
        self.seed
    }

    /// The number of samples in a field. It is never zero, and four bytes for
    /// each sample can be counted in a `usize`.
    pub fn sample_count(&self) -> (count: usize)
        ensures
            count == self@.width * self@.height,
            valid_dimensions(self@.width, self@.height),
    {
        proof {
            use_type_invariant(self);
        }
        let wide: usize = self.width as usize;
        let high: usize = self.height as usize;
        wide * high
    }

    /// The elevation field: one sample for each cell, as `sample` gives it for
    /// the cell's two indices, row-major over those indices.
    pub fn get_map<F: Fn(u32, u32) -> u32>(&self, sample: F) -> (map: Vec<u32>)
        requires
            forall|i: u32, j: u32|
                i < self@.width && j < self@.height ==> call_requires(sample, (i, j)),
        ensures
            map@.len() == self@.width * self@.height,
            is_map_of(self@, sample, map@),
    {
        let width: u32 = self.width;
        let height: u32 = self.height;
        proof {
            use_type_invariant(self);
        }
        let mut map: Vec<u32> = Vec::new();
        let mut i: u32 = 0;
        while i < width
            invariant
                width == self@.width,
                height == self@.height,
                height >= 1,
                i <= width,
                map@.len() == i * height,
                forall|a: u32, b: u32| a < width && b < height ==> call_requires(sample, (a, b)),
                forall|k: int|
                    0 <= k < map@.len() ==> call_ensures(
                        sample,
                        cell_of(height, k),
                        #[trigger] map@[k],
                    ),
            decreases width - i,
        {
            let mut j: u32 = 0;
            while j < height
                invariant
                    height >= 1,
                    i < width,
                    j <= height,
                    map@.len() == i * height + j,
                    forall|a: u32, b: u32|
                        a < width && b < height ==> call_requires(sample, (a, b)),
                    forall|k: int|
                        0 <= k < map@.len() ==> call_ensures(
                            sample,
                            cell_of(height, k),
                            #[trigger] map@[k],
                        ),
                decreases height - j,
            {
                let value: u32 = sample(i, j);
                proof {
                    lemma_fundamental_div_mod_converse(
                        i * height + j,
                        height as int,
                        i as int,
                        j as int,
                    );
                }
                map.push(value);
                j = j + 1;
            }
            assert(i * height + height == (i + 1) * height) by (nonlinear_arith);
            i = i + 1;
        }
        map
    }

    /// The bytes of a field: each sample in its four-byte little-endian
    /// encoding, in the order of the samples.
    pub fn get_bytes(inp: &[u32]) -> (out: Vec<u8>)
        ensures
            out@ == le_bytes(inp@),
    {
        let mut out: Vec<u8> = Vec::new();
        let mut n: usize = 0;
        while n < inp.len()
            invariant
                n <= inp.len(),
                out@.len() == 4 * n,
                forall|k: int| 0 <= k < out@.len() ==> #[trigger] out@[k] == byte_of(inp@[k / 4], k % 4),
            decreases inp.len() - n,
        {
            let word: u32 = inp[n];
            out.push((word % 256) as u8);
            out.push((word / 0x100 % 256) as u8);
            out.push((word / 0x1_0000 % 256) as u8);
            out.push((word / 0x100_0000 % 256) as u8);
            n = n + 1;
        }
        assert(out@ =~= le_bytes(inp@));
        out
    }

    /// The texture of a field generated with `sample`: the generator's
    /// dimensions, and the bytes of the field.
    pub fn get_elevation_map<F: Fn(u32, u32) -> u32>(&self, sample: F) -> (texture: TerrainTexture)
        requires
            forall|i: u32, j: u32|
                i < self@.width && j < self@.height ==> call_requires(sample, (i, j)),
        ensures
            texture@.width == self@.width,
            texture@.height == self@.height,
            texture@.bytes.len() == 4 * (self@.width * self@.height),
            is_map_of(self@, sample, le_words(texture@.bytes)),
            texture@.bytes == le_bytes(le_words(texture@.bytes)),
    {
        let map: Vec<u32> = self.get_map(sample);
        let data: Vec<u8> = Self::get_bytes(map.as_slice());
        proof {
            encoding_is_lossless(map@);
        }
        TerrainTexture { width: self.width, height: self.height, data }
    }
}

/// What a texture holds.
pub struct TextureContents {
    pub width: u32,
    pub height: u32,
    pub bytes: Seq<u8>,
}

/// A single-channel image of one single-precision number per pixel, in
/// little-endian bytes.
#[derive(Debug)]
pub struct TerrainTexture {
    width: u32,
    height: u32,
    data: Vec<u8>,
}

impl View for TerrainTexture {
    type V = TextureContents;

    closed spec fn view(&self) -> TextureContents {
        TextureContents { width: self.width, height: self.height, bytes: self.data@ }
    }
}

impl TerrainTexture {
    #[verifier::type_invariant]
    spec fn well_formed(self) -> bool {
        self.data@.len() == 4 * (self.width * self.height)
    }

    pub fn width(&self) -> (width: u32)
        ensures
            width == self@.width,
    {
        self.width
    }

    pub fn height(&self) -> (height: u32)
        ensures
            height == self@.height,
    {
        self.height
    }

    /// Width and height, in that order.
    pub fn size(&self) -> (size: (u32, u32))
        ensures
            size == (self@.width, self@.height),
    {
        (self.width, self.height)
    }

    /// The pixel data.
    pub fn data(&self) -> (data: &Vec<u8>)
        ensures
            data@ == self@.bytes,
            data@.len() == 4 * (self@.width * self@.height),
    {
        proof {
            use_type_invariant(self);
        }
        &self.data
    }

    /// Gives the pixel data up.
    pub fn into_data(self) -> (data: Vec<u8>)
        ensures
            data@ == self@.bytes,
            data@.len() == 4 * (self@.width * self@.height),
    {
        proof {
            use_type_invariant(&self);
        }
        self.data
    }
}

/// A word is the sum of its four bytes, each at its place.
pub proof fn word_is_sum_of_bytes(word: u32)
    ensures
        word == byte_of(word, 0) + 0x100 * byte_of(word, 1) + 0x1_0000 * byte_of(word, 2)
            + 0x100_0000 * byte_of(word, 3),
{
}

/// Decoding the bytes of a field gives the field back, and the bytes are
/// four times as many as the samples.
pub proof fn encoding_is_lossless(words: Seq<u32>)
    ensures
        le_bytes(words).len() == 4 * words.len(),
        le_words(le_bytes(words)) == words,
{
    let bytes = le_bytes(words);
    assert forall|n: int| 0 <= n < words.len() implies word_at(bytes, n) == words[n] by {
        word_is_sum_of_bytes(words[n]);
        assert((4 * n) / 4 == n && (4 * n) % 4 == 0);
        assert((4 * n + 1) / 4 == n && (4 * n + 1) % 4 == 1);
        assert((4 * n + 2) / 4 == n && (4 * n + 2) % 4 == 2);
        assert((4 * n + 3) / 4 == n && (4 * n + 3) % 4 == 3);
    }
    assert(le_words(bytes) =~= words);
}

/// A field is determined by its parameters and its sample function: where
/// the function returns one value only for each cell, any two fields that it
/// produces for the same parameters are equal, sample for sample.
pub proof fn field_is_determined<F: Fn(u32, u32) -> u32>(
    params: GenerationParameters,
    sample: F,
    first: Seq<u32>,
    second: Seq<u32>,
)
    requires
        is_single_valued(sample),
        is_map_of(params, sample, first),
        is_map_of(params, sample, second),
    ensures
        first == second,
        le_bytes(first) == le_bytes(second),
{
    assert forall|k: int| 0 <= k < first.len() implies first[k] == second[k] by {
        let cell = cell_of(params.height, k);
        assert(call_ensures(sample, (cell.0, cell.1), first[k]));
        assert(call_ensures(sample, (cell.0, cell.1), second[k]));
    }
    assert(first =~= second);
}

/// The cells of a grid and the indices of its field correspond one to one:
/// the cell with the indices `i` and `j` has its sample at index
/// `i * height + j`, and no other cell has it there.
pub proof fn cells_are_row_major(height: u32, i: u32, j: u32)
    requires
        j < height,
    ensures
        cell_of(height, i * height + j) == (i, j),
{
    lemma_fundamental_div_mod_converse(i * height + j, height as int, i as int, j as int);
}

} // verus!
