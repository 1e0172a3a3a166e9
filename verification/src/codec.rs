use vstd::prelude::*;
use vstd::arithmetic::div_mod::{
    lemma_fundamental_div_mod, lemma_fundamental_div_mod_converse, lemma_hoist_over_denominator,
    lemma_mod_multiples_vanish,
};
use vstd::arithmetic::mul::lemma_mul_inequality;

verus! {

/// Size in bytes of one compressed block of a payload.
pub const BLOCK_SIZE: usize = 1024;

/// Decoded samples per mono block: the header's seed sample plus two samples
/// for each of the 1020 data bytes.
pub const SAMPLES_PER_BLOCK: usize = 2041;

/// The samples a mono IMA ADPCM block decodes to. The decoding itself is done
/// by the outside codec; only its determinism is relied on here, so this
/// carries no definition.
pub uninterp spec fn adpcm_decoded(block: Seq<u8>) -> Seq<i16>;

/// Relies on audio_codec_algorithms::decode_adpcm_ima_ms with mono input: the
/// decoded samples are a function of the block's bytes alone; the call
/// succeeds exactly when the block holds 4 to 65535 bytes and the output
/// slice holds two samples per block byte less seven, and on failure the
/// output is left untouched. The function only writes through the buffers it
/// is handed, so it does not unwind.
#[verifier::external_body]
fn decode_block_into(block: &[u8], out: &mut Vec<i16>) -> (ok: bool)
    ensures
        ok == (4 <= block@.len() <= 0xffff && old(out)@.len() == 2 * block@.len() - 7),
        ok ==> final(out)@ == adpcm_decoded(block@) && final(out)@.len() == old(out)@.len(),
        !ok ==> final(out)@ == old(out)@,
    no_unwind
{
    audio_codec_algorithms::decode_adpcm_ima_ms(block, false, out.as_mut_slice()).is_ok()
}

/// Number of whole blocks in a payload; trailing bytes short of a block are
/// ignored.
pub open spec fn block_count(data: Seq<u8>) -> int {
    data.len() as int / 1024
}

/// The bytes of block `b` of a payload.
pub open spec fn block_bytes(data: Seq<u8>, b: int) -> Seq<u8> {
    data.subrange(b * 1024, b * 1024 + 1024)
}

/// Sample `i` of the infinite stream decoded from a payload: blocks are
/// decoded in order, 2041 samples each, and the block sequence restarts from
/// the first block after the last.
pub open spec fn stream_sample(data: Seq<u8>, i: int) -> i16 {
    adpcm_decoded(block_bytes(data, (i / 2041) % block_count(data)))[i % 2041]
}

/// A lazy, infinite, restartable stream of PCM samples decoded on demand from
/// a compressed payload, one block at a time.
pub struct AdpcmStream {
    data: Vec<u8>,
    block: usize,
    pos: usize,
    decoded: Vec<i16>,
    index: Ghost<int>,
}

impl AdpcmStream {
    /// The compressed payload the stream cycles over.
    pub closed spec fn payload(self) -> Seq<u8> {
        self.data@
    }

    /// The absolute position in the infinite decoded stream.
    pub closed spec fn position(self) -> int {
        self.index@
    }

    /// Well-formed stream: the payload holds at least one block, the cursor
    /// fields agree with the absolute position, and the buffer holds the
    /// current block's decoded samples.
    pub closed spec fn wf(self) -> bool {
        &&& self.data@.len() >= 1024
        &&& self.index@ >= 0
        &&& self.block == (self.index@ / 2041) % block_count(self.data@)
        &&& self.pos == self.index@ % 2041
        &&& self.decoded@ == adpcm_decoded(block_bytes(self.data@, self.block as int))
        &&& self.decoded@.len() == 2041
    }

    /// Open a cyclic sample stream over a compressed payload, starting
    /// `start_offset` samples into the decoded stream.
    pub fn new(data: Vec<u8>, start_offset: usize) -> (s: Self)
        requires
            data@.len() >= 1024,
        ensures
            s.wf(),
            s.payload() == data@,
            s.position() == start_offset as int,
    {
        let nblocks = data.len() / BLOCK_SIZE;
        let block = (start_offset / SAMPLES_PER_BLOCK) % nblocks;
        let pos = start_offset % SAMPLES_PER_BLOCK;
        let mut decoded: Vec<i16> = Vec::new();
        let mut i: usize = 0;
        while i < SAMPLES_PER_BLOCK
            invariant
                i <= 2041,
                decoded@.len() == i,
            decreases 2041 - i,
        {
            decoded.push(0);
            i = i + 1;
        }
        proof {
            lemma_block_slice_in_range(data@, block as int);
        }
        let block_slice = vstd::slice::slice_subrange(
            data.as_slice(),
            block * BLOCK_SIZE,
            block * BLOCK_SIZE + BLOCK_SIZE,
        );
        let ok = decode_block_into(block_slice, &mut decoded);
        proof {
            assert(ok);
        }
        AdpcmStream { data, block, pos, decoded, index: Ghost(start_offset as int) }
    }

    /// The number of whole blocks the stream cycles through.
    pub fn blocks(&self) -> (n: usize)
        requires
            self.wf(),
        ensures
            n == block_count(self.payload()),
    {
        self.data.len() / BLOCK_SIZE
    }

    /// The next sample of the stream; the stream then advances by one. When
    /// the current block is exhausted the following block is decoded, cycling
    /// back to the first block after the last.
    pub fn next_sample(&mut self) -> (s: i16)
        requires
            old(self).wf(),
        ensures
            final(self).wf(),
            final(self).payload() == old(self).payload(),
            final(self).position() == old(self).position() + 1,
            s == stream_sample(old(self).payload(), old(self).position()),
    {
        let ghost idx = self.index@;
        let ghost nb = block_count(self.data@);
        let s = self.decoded[self.pos];
        self.pos = self.pos + 1;
        proof {
            self.index@ = idx + 1;
            lemma_fundamental_div_mod(idx, 2041);
            vstd::arithmetic::mul::lemma_mul_is_commutative(idx / 2041, 2041);
            vstd::arithmetic::mul::lemma_mul_is_distributive_add_other_way(2041, idx / 2041, 1);
        }
        if self.pos == SAMPLES_PER_BLOCK {
            self.pos = 0;
            proof {
                // idx + 1 closes the block: its quotient by 2041 steps up
                lemma_fundamental_div_mod_converse(idx + 1, 2041, idx / 2041 + 1, 0);
                vstd::arithmetic::div_mod::lemma_div_non_zero(self.data@.len() as int, 1024);
                vstd::arithmetic::div_mod::lemma_div_pos_is_pos(idx, 2041);
                vstd::arithmetic::div_mod::lemma_mod_pos_bound(idx / 2041, nb);
                lemma_fundamental_div_mod(idx / 2041, nb);
            }
            let nblocks = self.data.len() / BLOCK_SIZE;
            self.block = self.block + 1;
            if self.block == nblocks {
                self.block = 0;
            }
            proof {
                let q = idx / 2041;
                vstd::arithmetic::mul::lemma_mul_is_commutative(q / nb, nb);
                vstd::arithmetic::mul::lemma_mul_is_distributive_add_other_way(nb, q / nb, 1);
                if q % nb + 1 < nb {
                    lemma_fundamental_div_mod_converse(q + 1, nb, q / nb, q % nb + 1);
                } else {
                    lemma_fundamental_div_mod_converse(q + 1, nb, q / nb + 1, 0);
                }
                lemma_block_slice_in_range(self.data@, self.block as int);
            }
            let start = self.block * BLOCK_SIZE;
            let block_slice = vstd::slice::slice_subrange(
                self.data.as_slice(),
                start,
                start + BLOCK_SIZE,
            );
            let ok = decode_block_into(block_slice, &mut self.decoded);
            proof {
                assert(ok);
            }
        } else {
            proof {
                // idx + 1 stays inside the block: quotient and block unchanged
                lemma_fundamental_div_mod_converse(idx + 1, 2041, idx / 2041, idx % 2041 + 1);
            }
        }
        s
    }
}

/// A block index below the block count addresses a whole block inside the
/// payload.
proof fn lemma_block_slice_in_range(data: Seq<u8>, b: int)
    requires
        data.len() >= 1024,
        0 <= b < block_count(data),
    ensures
        b * 1024 + 1024 <= data.len(),
        b * 1024 >= 0,
{
    lemma_fundamental_div_mod(data.len() as int, 1024);
    lemma_mul_inequality(b + 1, block_count(data), 1024);
    vstd::arithmetic::mul::lemma_mul_is_distributive_add_other_way(1024, b, 1);
    vstd::arithmetic::mul::lemma_mul_is_commutative(b + 1, 1024);
    vstd::arithmetic::mul::lemma_mul_is_commutative(block_count(data), 1024);
    vstd::arithmetic::mul::lemma_mul_nonnegative(b, 1024);
}

/// Law: the decoded stream is cyclic: its samples repeat exactly every
/// `block_count(data) * 2041` positions.
pub proof fn lemma_stream_cycles(data: Seq<u8>, i: int)
    requires
        i >= 0,
        block_count(data) >= 1,
    ensures
        stream_sample(data, i + block_count(data) * 2041) == stream_sample(data, i),
{
    let nb = block_count(data);
    let j = i + nb * 2041;
    lemma_hoist_over_denominator(i, nb, 2041);
    assert(j / 2041 == i / 2041 + nb);
    lemma_mod_multiples_vanish(nb, i, 2041);
    assert(j % 2041 == i % 2041) by {
        assert(j == 2041 * nb + i);
    };
    lemma_mod_multiples_vanish(1, i / 2041, nb);
    assert((i / 2041 + nb) % nb == (i / 2041) % nb) by {
        assert(i / 2041 + nb == nb * 1 + i / 2041);
    };
}

} // verus!
