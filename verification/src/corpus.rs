//! Corpora: character, bigram, trigram and word frequencies of a body of text.

use vstd::prelude::*;
use vstd::string::*;
use crate::asset::{Asset, AssetCategory};
use crate::constants::MAX_KEYCODE_SPACE;
use crate::error::ForgeError;
use crate::text::decimal;
use crate::types::{FixedWeight, Score};
use crate::types::scoring::clamp_i64;
use crate::validator::Validator;

verus! {

/// Metadata of a corpus.
#[derive(Debug, Clone)]
pub struct CorpusMetadata {
    /// Whether the corpus is standard prose that supports synthetic data injection.
    pub is_std: bool,
}

impl Default for CorpusMetadata {
    fn default() -> (r: Self)
        ensures
            !r.is_std,
    {
        CorpusMetadata { is_std: false }
    }
}

/// Frequencies of a body of text.
#[derive(Debug, Clone)]
pub struct Corpus {
    /// Metadata about the corpus.
    pub meta: CorpusMetadata,
    /// Frequency of each character, indexed by character code; a valid corpus has
    /// exactly `MAX_KEYCODE_SPACE` entries.
    pub char_freqs: Vec<u64>,
    /// Bigrams as (first, second, frequency).
    pub bigrams: Vec<(u16, u16, u32)>,
    /// Trigrams as (first, second, third, frequency).
    pub trigrams: Vec<(u16, u16, u16, u32)>,
    /// Common words and their frequencies.
    pub words: Vec<(String, u32)>,
}

impl Default for Corpus {
    /// An empty, valid corpus: all character frequencies zero.
    fn default() -> (r: Self)
        ensures
            !r.meta.is_std,
            r.char_freqs@.len() == MAX_KEYCODE_SPACE,
            forall|i: int| 0 <= i < MAX_KEYCODE_SPACE ==> r.char_freqs@[i] == 0,
            r.bigrams@.len() == 0,
            r.trigrams@.len() == 0,
            r.words@.len() == 0,
    {
        let mut freqs: Vec<u64> = Vec::new();
        let mut i: usize = 0;
        while i < MAX_KEYCODE_SPACE
            invariant
                i <= MAX_KEYCODE_SPACE,
                freqs@.len() == i,
                forall|j: int| 0 <= j < i ==> freqs@[j] == 0,
            decreases MAX_KEYCODE_SPACE - i,
        {
            freqs.push(0);
            i += 1;
        }
        Corpus {
            meta: CorpusMetadata::default(),
            char_freqs: freqs,
            bigrams: Vec::new(),
            trigrams: Vec::new(),
            words: Vec::new(),
        }
    }
}

/// The message for a character table of the wrong size.
pub open spec fn corpus_size_message(len: nat) -> Seq<char> {
    "Corpus char_freqs length must be "@ + decimal(MAX_KEYCODE_SPACE as int) + ", found "@ + decimal(len as int)
}

/// The frequency `freq` of the other corpus, weighted: as a score scaled by the weight
/// (saturating), then back to a frequency (0 when negative).
pub open spec fn weighted_freq(freq: u64, w: FixedWeight) -> u64 {
    let f = if freq <= i64::MAX { freq as int } else { i64::MAX as int };
    let merged = clamp_i64(crate::types::scoring::trunc_div(f * w@, 1000));
    if merged >= 0 { merged as u64 } else { 0 }
}

impl Corpus {
    /// Checks that the character table covers every code exactly.
    pub fn validate_internal(&self) -> (r: Result<(), ForgeError>)
        ensures
            r is Ok <==> self.char_freqs@.len() == MAX_KEYCODE_SPACE,
            r matches Err(e) ==> e matches ForgeError::InvalidData(m)
                && m@ == corpus_size_message(self.char_freqs@.len()),
    {
        let n = self.char_freqs.len();
        if n != MAX_KEYCODE_SPACE {
            let mut m = String::from_str("Corpus char_freqs length must be ");
            m.append(crate::text::u64_to_decimal(MAX_KEYCODE_SPACE as u64).as_str());
            m.append(", found ");
            m.append(crate::text::u64_to_decimal(n as u64).as_str());
            return Err(ForgeError::InvalidData(m));
        }
        Ok(())
    }

    /// Adds the other corpus's character frequencies, weighted, to this one's, saturating;
    /// positions beyond this corpus's table are ignored. Bigrams, trigrams and words are
    /// left as they are.
    pub fn merge_weighted(&mut self, other: &Corpus, w: FixedWeight)
        ensures
            final(self).char_freqs@.len() == old(self).char_freqs@.len(),
            forall|i: int| 0 <= i < old(self).char_freqs@.len() ==> #[trigger] final(self).char_freqs@[i] == (
                if i < other.char_freqs@.len() {
                    let s = old(self).char_freqs@[i] + weighted_freq(other.char_freqs@[i], w);
                    if s > u64::MAX { u64::MAX } else { s as u64 }
                } else {
                    old(self).char_freqs@[i]
                }),
            final(self).meta == old(self).meta,
            final(self).bigrams == old(self).bigrams,
            final(self).trigrams == old(self).trigrams,
            final(self).words == old(self).words,
    {
        let n = self.char_freqs.len();
        let mut i: usize = 0;
        while i < n && i < other.char_freqs.len()
            invariant
                n == self.char_freqs@.len(),
                n == old(self).char_freqs@.len(),
                i <= n,
                i <= other.char_freqs@.len(),
                forall|j: int| 0 <= j < i ==> #[trigger] self.char_freqs@[j] == ({
                    let s = old(self).char_freqs@[j] + weighted_freq(other.char_freqs@[j], w);
                    if s > u64::MAX { u64::MAX } else { s as u64 }
                }),
                forall|j: int| i <= j < n ==> #[trigger] self.char_freqs@[j] == old(self).char_freqs@[j],
                self.meta == old(self).meta,
                self.bigrams == old(self).bigrams,
                self.trigrams == old(self).trigrams,
                self.words == old(self).words,
            decreases n - i,
        {
            let freq = other.char_freqs[i];
            let f: i64 = if freq <= i64::MAX as u64 { freq as i64 } else { i64::MAX };
            let merged = Score::from_scaled_i64(f).saturating_mul_weight(w);
            let mf: u64 = if merged.raw() >= 0 { merged.raw() as u64 } else { 0 };
            assert(mf == weighted_freq(freq, w));
            let cur = self.char_freqs[i];
            let sum = cur.saturating_add(mf);
            self.char_freqs.set(i, sum);
            i += 1;
        }
    }

    /// Validates after loading.
    pub fn post_load(&mut self) -> (r: Result<(), ForgeError>)
        ensures
            *final(self) == *old(self),
            r is Ok <==> old(self).char_freqs@.len() == MAX_KEYCODE_SPACE,
    {
        self.validate_internal()
    }
}

impl Asset for Corpus {
    fn category() -> (r: AssetCategory)
        ensures
            r == AssetCategory::Corpus,
    {
        AssetCategory::Corpus
    }

    fn post_load(&mut self) -> (r: Result<(), ForgeError>)
        ensures
            *final(self) == *old(self),
            r is Ok <==> old(self).char_freqs@.len() == MAX_KEYCODE_SPACE,
    {
        self.validate_internal()
    }
}

impl Validator for Corpus {
    /// The same check as `validate_internal`, with the error's message.
    fn validate(&self) -> (r: Result<(), String>)
        ensures
            r is Ok <==> self.char_freqs@.len() == MAX_KEYCODE_SPACE,
            r matches Err(m) ==> m@ == "Invalid Data: "@ + corpus_size_message(self.char_freqs@.len()),
    {
        match self.validate_internal() {
            Ok(()) => Ok(()),
            Err(e) => Err(e.message()),
        }
    }
}

/// Merging with weight zero adds nothing.
pub proof fn lemma_merge_zero_weight(freq: u64, w: FixedWeight)
    requires
        w@ == 0,
    ensures
        weighted_freq(freq, w) == 0,
{
    let f: int = if freq <= i64::MAX { freq as int } else { i64::MAX as int };
    assert(f * w@ == 0) by (nonlinear_arith)
        requires
            w@ == 0,
    ;
}

/// Merging with weight one (1000 thousandths) adds the other frequency itself, capped
/// at `i64::MAX`.
pub proof fn lemma_merge_unit_weight(freq: u64, w: FixedWeight)
    requires
        w@ == 1000,
    ensures
        weighted_freq(freq, w) == (if freq <= i64::MAX { freq } else { i64::MAX as u64 }),
{
    let f: int = if freq <= i64::MAX { freq as int } else { i64::MAX as int };
    assert(f * w@ == f * 1000) by (nonlinear_arith)
        requires
            w@ == 1000,
    ;
    assert((f * 1000) / 1000 == f) by (nonlinear_arith)
        requires
            f >= 0,
    ;
}

} // verus!
