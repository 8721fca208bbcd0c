//! The recorded sound of a project, as it is handed to the encoder.

use std::sync::Arc;
use vstd::bytes::{
    lemma_auto_spec_u64_to_from_le_bytes, spec_u64_from_le_bytes, spec_u64_to_le_bytes,
};
use vstd::prelude::*;

verus! {

/// Sound samples. Each sample is the bit pattern of a 64-bit floating-point number.
pub struct AudioData {
    pub buffer: Arc<Vec<u64>>,
    pub sample_rate: u32,
}

impl Clone for AudioData {
    fn clone(&self) -> (copy: Self)
        ensures
            copy == *self,
    {
        AudioData { buffer: self.buffer.clone(), sample_rate: self.sample_rate }
    }
}

/// The bytes of the samples, each as eight bytes with the least significant first.
pub open spec fn sample_bytes(samples: Seq<u64>) -> Seq<u8>
    decreases samples.len(),
{
    if samples.len() == 0 {
        Seq::empty()
    } else {
        sample_bytes(samples.drop_last()) + spec_u64_to_le_bytes(samples.last())
    }
}

/// `num_traits::ToBytes::to_le_bytes` on a 64-bit integer: its eight bytes, the least
/// significant first.
#[verifier::external_body]
fn le_bytes(sample: &u64) -> (bytes: [u8; 8])
    ensures
        bytes@ == spec_u64_to_le_bytes(*sample),
{
    num_traits::ToBytes::to_le_bytes(sample)
}

/// The samples as the raw bytes that the encoder reads.
pub fn raw_audio(audio: &AudioData) -> (bytes: Vec<u8>)
    ensures
        bytes@ == sample_bytes(audio.buffer@),
{
    let samples: &Vec<u64> = &audio.buffer;
    let mut bytes: Vec<u8> = Vec::new();
    let mut i: usize = 0;
    assert(samples@.take(0) =~= Seq::<u64>::empty());
    while i < samples.len()
        invariant
            i <= samples.len(),
            bytes@ == sample_bytes(samples@.take(i as int)),
        decreases samples.len() - i,
    {
        let sample: [u8; 8] = le_bytes(&samples[i]);
        let ghost before = bytes@;
        let mut k: usize = 0;
        while k < 8
            invariant
                k <= 8,
                sample@.len() == 8,
                bytes@ == before + sample@.take(k as int),
            decreases 8 - k,
        {
            bytes.push(sample[k]);
            assert(sample@.take(k + 1) =~= sample@.take(k as int).push(sample@[k as int]));
            k += 1;
        }
        assert(sample@.take(8) =~= sample@);
        assert(samples@.take(i + 1).drop_last() =~= samples@.take(i as int));
        i += 1;
    }
    assert(samples@.take(i as int) =~= samples@);
    bytes
}

/// The raw bytes hold eight bytes for each sample, and those at place `at` are the sample
/// there: nothing of the sound is lost on its way to the encoder.
pub proof fn law_samples_survive(samples: Seq<u64>, at: int)
    requires
        0 <= at < samples.len(),
    ensures
        sample_bytes(samples).len() == 8 * samples.len(),
        spec_u64_from_le_bytes(sample_bytes(samples).subrange(8 * at, 8 * at + 8)) == samples[at],
    decreases samples.len(),
{
    lemma_auto_spec_u64_to_from_le_bytes();
    lemma_sample_bytes_len(samples);
    lemma_sample_bytes_len(samples.drop_last());
    let bytes = sample_bytes(samples);
    if at == samples.len() - 1 {
        assert(bytes.subrange(8 * at, 8 * at + 8) =~= spec_u64_to_le_bytes(samples[at]));
    } else {
        law_samples_survive(samples.drop_last(), at);
        assert(bytes.subrange(8 * at, 8 * at + 8) =~= sample_bytes(samples.drop_last()).subrange(
            8 * at,
            8 * at + 8,
        ));
    }
}

proof fn lemma_sample_bytes_len(samples: Seq<u64>)
    ensures
        sample_bytes(samples).len() == 8 * samples.len(),
    decreases samples.len(),
{
    lemma_auto_spec_u64_to_from_le_bytes();
    if samples.len() > 0 {
        lemma_sample_bytes_len(samples.drop_last());
    }
}

} // verus!
