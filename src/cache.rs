//! Content-addressed names for cached audio.
use vstd::prelude::*;
use crate::catalog::TTSEngine;
use crate::text::owned;
use std::hash::{Hash, Hasher};

verus! {

/// What std's `DefaultHasher` (as made by `new`) yields after hashing the
/// text and then the voice.
pub uninterp spec fn text_voice_hash(text: Seq<char>, voice: Seq<char>) -> u64;

/// Relies on `std::collections::hash_map::DefaultHasher::new`, whose
/// instances all hash alike (for a given build of std): the value depends on
/// the two strings alone.
#[verifier::external_body]
fn hash_text_voice(text: &str, voice: &str) -> (r: u64)
    ensures
        r == text_voice_hash(text@, voice@),
{
    let mut h = std::collections::hash_map::DefaultHasher::new();
    text.hash(&mut h);
    voice.hash(&mut h);
    h.finish()
}

/// A lowercase hexadecimal digit for `d < 16`.
pub open spec fn hex_char(d: int) -> char {
    if d == 0 { '0' } else if d == 1 { '1' } else if d == 2 { '2' } else if d == 3 { '3' }
    else if d == 4 { '4' } else if d == 5 { '5' } else if d == 6 { '6' } else if d == 7 { '7' }
    else if d == 8 { '8' } else if d == 9 { '9' } else if d == 10 { 'a' } else if d == 11 { 'b' }
    else if d == 12 { 'c' } else if d == 13 { 'd' } else if d == 14 { 'e' } else { 'f' }
}

/// `n` in lowercase hexadecimal, without leading zeros.
pub open spec fn hex_of(n: nat) -> Seq<char>
    decreases n,
{
    if n < 16 {
        seq![hex_char(n as int)]
    } else {
        hex_of(n / 16) + seq![hex_char((n % 16) as int)]
    }
}

/// `s` with each `-` turned into `_`.
pub open spec fn underscored(s: Seq<char>) -> Seq<char> {
    s.map_values(|c: char| if c == '-' { '_' } else { c })
}

/// The cache key of a text spoken by a voice.
pub open spec fn cache_key_spec(text: Seq<char>, voice: Seq<char>) -> Seq<char> {
    "tts_"@ + underscored(voice) + "_"@ + hex_of(text_voice_hash(text, voice) as nat)
}

fn hex_digit(d: u64) -> (c: char)
    requires
        d < 16,
    ensures
        c == hex_char(d as int),
{
    if d == 0 { '0' } else if d == 1 { '1' } else if d == 2 { '2' } else if d == 3 { '3' }
    else if d == 4 { '4' } else if d == 5 { '5' } else if d == 6 { '6' } else if d == 7 { '7' }
    else if d == 8 { '8' } else if d == 9 { '9' } else if d == 10 { 'a' } else if d == 11 { 'b' }
    else if d == 12 { 'c' } else if d == 13 { 'd' } else if d == 14 { 'e' } else { 'f' }
}

/// Appends `n` in lowercase hexadecimal.
fn push_hex(out: &mut Vec<char>, n: u64)
    ensures
        final(out)@ == old(out)@ + hex_of(n as nat),
    decreases n,
{
    if n >= 16 {
        push_hex(out, n / 16);
    }
    out.push(hex_digit(n % 16));
    assert(final(out)@ =~= old(out)@ + hex_of(n as nat));
}

/// `n` in lowercase hexadecimal, without leading zeros.
pub fn hex_string(n: u64) -> (r: String)
    ensures
        r@ == hex_of(n as nat),
{
    let mut out: Vec<char> = Vec::new();
    push_hex(&mut out, n);
    assert(out@ =~= hex_of(n as nat));
    crate::text::string_of_chars(out.as_slice())
}

/// `s` with each `-` turned into `_`.
pub fn underscore_hyphens(s: &str) -> (r: String)
    ensures
        r@ == underscored(s@),
{
    let n = s.unicode_len();
    let mut out: Vec<char> = Vec::new();
    let mut i: usize = 0;
    while i < n
        invariant
            n == s@.len(),
            i <= n,
            out@ == underscored(s@.subrange(0, i as int)),
        decreases n - i,
    {
        let c = s.get_char(i);
        out.push(if c == '-' { '_' } else { c });
        assert(out@ =~= underscored(s@.subrange(0, i + 1)));
        i = i + 1;
    }
    assert(s@.subrange(0, n as int) =~= s@);
    crate::text::string_of_chars(out.as_slice())
}

/// The cache file name of a key.
pub open spec fn cache_file_name_spec(key: Seq<char>) -> Seq<char> {
    key + ".wav"@
}

/// The cache file name of a key: the key with a `.wav` extension.
pub fn cache_file_name(key: &str) -> (r: String)
    ensures
        r@ == cache_file_name_spec(key@),
{
    let mut out = owned(key);
    out.append(".wav");
    out
}

/// The bytes that clearing a cache frees: the sum of its files' sizes,
/// saturating at the largest `u64`.
pub open spec fn total_size(sizes: Seq<u64>) -> nat
    decreases sizes.len(),
{
    if sizes.len() == 0 {
        0
    } else {
        total_size(sizes.drop_last()) + sizes.last() as nat
    }
}

/// The sum of the file sizes, saturating at the largest `u64`.
pub fn sum_sizes(sizes: &[u64]) -> (r: u64)
    ensures
        total_size(sizes@) <= u64::MAX ==> r as nat == total_size(sizes@),
        total_size(sizes@) > u64::MAX ==> r == u64::MAX,
        sizes@.len() == 0 ==> r == 0,
{
    let mut total: u64 = 0;
    let mut saturated = false;
    let mut i: usize = 0;
    while i < sizes.len()
        invariant
            i <= sizes@.len(),
            !saturated ==> total as nat == total_size(sizes@.subrange(0, i as int)),
            saturated ==> total == u64::MAX && total_size(sizes@.subrange(0, i as int)) > u64::MAX,
        decreases sizes@.len() - i,
    {
        proof {
            assert(sizes@.subrange(0, i + 1).drop_last() =~= sizes@.subrange(0, i as int));
        }
        if !saturated {
            if total > u64::MAX - sizes[i] {
                total = u64::MAX;
                saturated = true;
            } else {
                total = total + sizes[i];
            }
        }
        i = i + 1;
    }
    assert(sizes@.subrange(0, sizes@.len() as int) =~= sizes@);
    total
}

impl TTSEngine {
    /// The cache key of `text` spoken by `voice`: `tts_`, the voice with
    /// `-` turned into `_`, `_`, and a hash of both in hexadecimal.
    pub fn generate_cache_key(&self, text: &str, voice: &str) -> (r: String)
        ensures
            r@ == cache_key_spec(text@, voice@),
    {
        let h = hash_text_voice(text, voice);
        let mut out = String::from_str("tts_");
        let v = underscore_hyphens(voice);
        out.append(v.as_str());
        out.append("_");
        let x = hex_string(h);
        out.append(x.as_str());
        out
    }

    /// Where the audio cached under `key` is stored.
    pub fn cache_path(&self, key: &str) -> (r: String)
        ensures
            r@ == self.cache_dir@ + "/"@ + cache_file_name_spec(key@),
    {
        let mut out = self.cache_dir.clone();
        out.append("/");
        let f = cache_file_name(key);
        out.append(f.as_str());
        proof {
            assert(out@ =~= self.cache_dir@ + "/"@ + cache_file_name_spec(key@));
        }
        out
    }
}

/// Cache keys are deterministic: equal text and voice give equal keys,
/// whichever engine computes them.
pub proof fn lemma_cache_key_deterministic(t1: Seq<char>, v1: Seq<char>, t2: Seq<char>, v2: Seq<char>)
    requires
        t1 == t2,
        v1 == v2,
    ensures
        cache_key_spec(t1, v1) == cache_key_spec(t2, v2),
{
}

/// Clearing an empty cache frees nothing.
pub proof fn lemma_clear_empty_frees_nothing(sizes: Seq<u64>)
    requires
        sizes.len() == 0,
    ensures
        total_size(sizes) == 0,
{
}

} // verus!
