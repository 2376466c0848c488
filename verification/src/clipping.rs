//! Global half-space clipping settings and their packed GPU form.
//!
//! Application code keeps an ordered list of half-space planes; once per
//! frame, when the list changed, it is packed into a fixed-size uniform:
//! a count (replicated to a full 16-byte word group for alignment) and
//! room for `MAX_HALF_SPACES` plane equations.  Planes beyond the maximum
//! are truncated, never an error.

use vstd::prelude::*;

use crate::render_resource::{spec_words_to_le_bytes, words_to_le_bytes};

verus! {

/// Most half-space planes the packed uniform can carry.
pub const MAX_HALF_SPACES: usize = 10;

/// Number of 32-bit words in the packed uniform: one word group for the
/// count and four words per plane slot.
pub const PACKED_HALF_SPACE_WORDS: usize = 44;

/// One half-space: a plane equation `normal . p + d = 0`, each component
/// carried as an opaque 32-bit word.  Fragments on the negative side of
/// any enabled plane are discarded.
#[derive(Clone, Copy, Debug, PartialEq, Eq, Structural)]
pub struct HalfSpace {
    pub normal_x: u32,
    pub normal_y: u32,
    pub normal_z: u32,
    pub d: u32,
}

impl HalfSpace {
    /// The plane's components in packing order.
    pub open spec fn spec_word(self, j: int) -> u32 {
        if j == 0 {
            self.normal_x
        } else if j == 1 {
            self.normal_y
        } else if j == 2 {
            self.normal_z
        } else {
            self.d
        }
    }
}

/// The ordered set of half-space planes that clip polyline fragments,
/// mutated by application code and read once per frame.
#[derive(Clone, Debug)]
pub struct ClippingSettings {
    pub half_spaces: Vec<HalfSpace>,
}

impl Default for ClippingSettings {
    /// Same as `new`: no planes.
    fn default() -> (r: Self)
        ensures
            r.half_spaces@ =~= Seq::<HalfSpace>::empty(),
    {
        ClippingSettings::new()
    }
}

impl ClippingSettings {
    /// Settings with no planes.
    pub fn new() -> (r: Self)
        ensures
            r.half_spaces@ =~= Seq::<HalfSpace>::empty(),
    {
        ClippingSettings { half_spaces: Vec::new() }
    }

    /// Remove every plane.
    pub fn clear(&mut self)
        ensures
            final (self).half_spaces@ =~= Seq::<HalfSpace>::empty(),
    {
        self.half_spaces.clear();
    }

    /// Append one plane.  Planes past `MAX_HALF_SPACES` are kept here but
    /// truncated when packed.
    pub fn push(&mut self, half_space: HalfSpace)
        ensures
            final (self).half_spaces@ =~= old(self).half_spaces@.push(half_space),
    {
        self.half_spaces.push(half_space);
    }

    /// Number of planes currently set.
    pub fn len(&self) -> (r: usize)
        ensures
            r == self.half_spaces@.len(),
    {
        self.half_spaces.len()
    }

    /// The per-frame snapshot the renderer reads: a copy of the settings.
    pub fn extract_resource(&self) -> (r: Self)
        ensures
            r.half_spaces@ =~= self.half_spaces@,
    {
        ClippingSettings { half_spaces: self.half_spaces.clone() }
    }
}

/// How many planes of a list the packed uniform encodes.
pub open spec fn spec_packed_count(planes: Seq<HalfSpace>) -> int {
    if planes.len() <= MAX_HALF_SPACES {
        planes.len() as int
    } else {
        MAX_HALF_SPACES as int
    }
}

/// The packed uniform contents as 32-bit words: the encoded plane count
/// in each of the first four words, then four words per plane slot, with
/// unused slots zeroed.
pub open spec fn spec_packed_words(planes: Seq<HalfSpace>) -> Seq<u32> {
    let n = spec_packed_count(planes);
    Seq::new(
        PACKED_HALF_SPACE_WORDS as nat,
        |i: int|
            if i < 4 {
                n as u32
            } else {
                let p = (i - 4) / 4;
                let j = (i - 4) % 4;
                if p < n {
                    planes[p].spec_word(j)
                } else {
                    0u32
                }
            },
    )
}

/// The packed form of the half-space list, as uploaded to the GPU.
#[derive(Clone, Debug, PartialEq, Eq)]
pub struct HalfSpaceData {
    pub words: Vec<u32>,
}

impl HalfSpaceData {
    /// Pack a plane list, truncating it to `MAX_HALF_SPACES` entries.
    pub fn from_half_spaces(half_spaces: &Vec<HalfSpace>) -> (r: Self)
        ensures
            r.words@ =~= spec_packed_words(half_spaces@),
    {
        let count: usize = if half_spaces.len() <= MAX_HALF_SPACES {
            half_spaces.len()
        } else {
            MAX_HALF_SPACES
        };
        let ghost spec = spec_packed_words(half_spaces@);
        let mut words: Vec<u32> = Vec::new();
        let count_word = count as u32;
        words.push(count_word);
        words.push(count_word);
        words.push(count_word);
        words.push(count_word);
        let mut p: usize = 0;
        while p < count
            invariant
                count == spec_packed_count(half_spaces@),
                count <= half_spaces@.len(),
                spec == spec_packed_words(half_spaces@),
                p <= count,
                words@.len() == 4 + 4 * p,
                forall|k: int| 0 <= k < words@.len() ==> words@[k] == spec[k],
            decreases count - p,
        {
            let plane = half_spaces[p];
            words.push(plane.normal_x);
            words.push(plane.normal_y);
            words.push(plane.normal_z);
            words.push(plane.d);
            proof {
                let pi = p as int;
                assert((4 * pi) / 4 == pi && (4 * pi) % 4 == 0) by (nonlinear_arith)
                    requires
                        0 <= pi,
                ;
                assert((4 * pi + 1) / 4 == pi && (4 * pi + 1) % 4 == 1) by (nonlinear_arith)
                    requires
                        0 <= pi,
                ;
                assert((4 * pi + 2) / 4 == pi && (4 * pi + 2) % 4 == 2) by (nonlinear_arith)
                    requires
                        0 <= pi,
                ;
                assert((4 * pi + 3) / 4 == pi && (4 * pi + 3) % 4 == 3) by (nonlinear_arith)
                    requires
                        0 <= pi,
                ;
                assert(words@[4 + 4 * pi] == spec[4 + 4 * pi]);
                assert(words@[4 + 4 * pi + 1] == spec[4 + 4 * pi + 1]);
                assert(words@[4 + 4 * pi + 2] == spec[4 + 4 * pi + 2]);
                assert(words@[4 + 4 * pi + 3] == spec[4 + 4 * pi + 3]);
            }
            p = p + 1;
        }
        while p < MAX_HALF_SPACES
            invariant
                count == spec_packed_count(half_spaces@),
                spec == spec_packed_words(half_spaces@),
                count <= p <= MAX_HALF_SPACES,
                words@.len() == 4 + 4 * p,
                forall|k: int| 0 <= k < words@.len() ==> words@[k] == spec[k],
            decreases MAX_HALF_SPACES - p,
        {
            words.push(0);
            words.push(0);
            words.push(0);
            words.push(0);
            proof {
                let pi = p as int;
                assert((4 * pi) / 4 == pi && (4 * pi) % 4 == 0) by (nonlinear_arith)
                    requires
                        0 <= pi,
                ;
                assert((4 * pi + 1) / 4 == pi && (4 * pi + 1) % 4 == 1) by (nonlinear_arith)
                    requires
                        0 <= pi,
                ;
                assert((4 * pi + 2) / 4 == pi && (4 * pi + 2) % 4 == 2) by (nonlinear_arith)
                    requires
                        0 <= pi,
                ;
                assert((4 * pi + 3) / 4 == pi && (4 * pi + 3) % 4 == 3) by (nonlinear_arith)
                    requires
                        0 <= pi,
                ;
                assert(words@[4 + 4 * pi] == spec[4 + 4 * pi]);
                assert(words@[4 + 4 * pi + 1] == spec[4 + 4 * pi + 1]);
                assert(words@[4 + 4 * pi + 2] == spec[4 + 4 * pi + 2]);
                assert(words@[4 + 4 * pi + 3] == spec[4 + 4 * pi + 3]);
            }

            p = p + 1;
        }
        HalfSpaceData { words }
    }
}

/// The packed half-space uniform, as byte contents for the GPU buffer the
/// host allocates and binds.
#[derive(Clone, Debug, PartialEq, Eq)]
pub struct HalfSpacesUniform {
    pub buffer: Vec<u8>,
}

/// Pack the current clipping settings into the uniform's byte contents.
/// Run once per frame, only after the settings changed.
pub fn prepare_half_spaces(clipping_settings: &ClippingSettings) -> (r: HalfSpacesUniform)
    ensures
        r.buffer@ =~= spec_words_to_le_bytes(spec_packed_words(clipping_settings.half_spaces@)),
{
    let data = HalfSpaceData::from_half_spaces(&clipping_settings.half_spaces);
    HalfSpacesUniform { buffer: words_to_le_bytes(&data.words) }
}

/// Packing truncates: a list of more than `MAX_HALF_SPACES` planes packs
/// exactly as its first `MAX_HALF_SPACES` planes do, and the encoded
/// count is `MAX_HALF_SPACES`.
pub proof fn lemma_pack_truncates(planes: Seq<HalfSpace>)
    requires
        planes.len() >= MAX_HALF_SPACES,
    ensures
        spec_packed_count(planes) == MAX_HALF_SPACES as int,
        spec_packed_words(planes) =~= spec_packed_words(planes.take(MAX_HALF_SPACES as int)),
{
}

/// Packing reads the plane sequence alone: settings holding equal plane
/// lists — however they were built — pack to bit-identical uniform data.
pub proof fn lemma_pack_depends_on_planes_alone(a: ClippingSettings, b: ClippingSettings)
    requires
        a.half_spaces@ =~= b.half_spaces@,
    ensures
        spec_words_to_le_bytes(spec_packed_words(a.half_spaces@)) =~= spec_words_to_le_bytes(
            spec_packed_words(b.half_spaces@),
        ),
{
}

} // verus!
