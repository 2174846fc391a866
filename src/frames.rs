//! Binary audio frames of the remote speech protocol.
use vstd::prelude::*;

verus! {

/// A `\r\n\r\n` sequence starts at `i`.
pub open spec fn header_break_at(d: Seq<u8>, i: int) -> bool {
    &&& 0 <= i
    &&& i + 4 <= d.len()
    &&& d[i] == 13u8
    &&& d[i + 1] == 10u8
    &&& d[i + 2] == 13u8
    &&& d[i + 3] == 10u8
}

/// An MPEG audio frame sync (0xFF, then a byte with its top three bits set) starts at `i`.
pub open spec fn sync_at(d: Seq<u8>, i: int) -> bool {
    &&& 0 <= i
    &&& i + 1 < d.len()
    &&& d[i] == 0xFFu8
    &&& (d[i + 1] & 0xE0u8) == 0xE0u8
}

/// The first header break at or after `i`.
pub open spec fn first_break_from(d: Seq<u8>, i: int) -> Option<int>
    decreases d.len() - i,
{
    if i < 0 || i + 4 > d.len() {
        None
    } else if header_break_at(d, i) {
        Some(i)
    } else {
        first_break_from(d, i + 1)
    }
}

/// The first frame sync at or after `i`.
pub open spec fn first_sync_from(d: Seq<u8>, i: int) -> Option<int>
    decreases d.len() - i,
{
    if i < 0 || i + 1 >= d.len() {
        None
    } else if sync_at(d, i) {
        Some(i)
    } else {
        first_sync_from(d, i + 1)
    }
}

/// Where the audio payload of a binary frame starts: just after the first
/// header break, else at the first frame sync, else nowhere.
pub open spec fn audio_start(d: Seq<u8>) -> Option<int> {
    match first_break_from(d, 0) {
        Some(i) => Some(i + 4),
        None => first_sync_from(d, 0),
    }
}

/// The audio bytes that a binary frame contributes.
pub open spec fn frame_audio(d: Seq<u8>) -> Seq<u8> {
    match audio_start(d) {
        Some(k) => d.subrange(k, d.len() as int),
        None => Seq::empty(),
    }
}

proof fn lemma_first_break_some(d: Seq<u8>, i: int, k: int)
    requires
        0 <= i <= k,
        header_break_at(d, k),
        forall|j: int| i <= j < k ==> !header_break_at(d, j),
    ensures
        first_break_from(d, i) == Some(k),
    decreases k - i,
{
    if i < k {
        lemma_first_break_some(d, i + 1, k);
    }
}

proof fn lemma_first_sync_some(d: Seq<u8>, i: int, k: int)
    requires
        0 <= i <= k,
        sync_at(d, k),
        forall|j: int| i <= j < k ==> !sync_at(d, j),
    ensures
        first_sync_from(d, i) == Some(k),
    decreases k - i,
{
    if i < k {
        lemma_first_sync_some(d, i + 1, k);
    }
}

/// Header stripping picks the offset just after the first double CRLF; when
/// there is none, the first frame sync; when there is neither, nothing.
pub proof fn lemma_audio_start_cases(d: Seq<u8>)
    ensures
        forall|i: int|
            header_break_at(d, i) && (forall|j: int| 0 <= j < i ==> !header_break_at(d, j))
                ==> audio_start(d) == Some(i + 4),
        forall|k: int|
            (forall|j: int| !header_break_at(d, j)) && sync_at(d, k) && (forall|j: int|
                0 <= j < k ==> !sync_at(d, j)) ==> audio_start(d) == Some(k),
        (forall|j: int| !header_break_at(d, j)) && (forall|j: int| !sync_at(d, j))
            ==> audio_start(d) is None,
{
    assert forall|i: int|
        header_break_at(d, i) && (forall|j: int| 0 <= j < i ==> !header_break_at(d, j))
            implies audio_start(d) == Some(i + 4) by {
        lemma_first_break_some(d, 0, i);
    }
    assert forall|k: int|
        (forall|j: int| !header_break_at(d, j)) && sync_at(d, k) && (forall|j: int|
            0 <= j < k ==> !sync_at(d, j)) implies audio_start(d) == Some(k) by {
        if let Some(b) = first_break_from(d, 0) {
            lemma_first_break_found(d, 0);
        }
        lemma_first_sync_some(d, 0, k);
    }
    if (forall|j: int| !header_break_at(d, j)) && (forall|j: int| !sync_at(d, j)) {
        if let Some(b) = first_break_from(d, 0) {
            lemma_first_break_found(d, 0);
        }
        if let Some(s) = first_sync_from(d, 0) {
            lemma_first_sync_found(d, 0);
        }
    }
}

proof fn lemma_first_break_found(d: Seq<u8>, i: int)
    requires
        first_break_from(d, i) is Some,
    ensures
        header_break_at(d, first_break_from(d, i)->0),
        i <= first_break_from(d, i)->0,
    decreases d.len() - i,
{
    if !(i < 0 || i + 4 > d.len()) && !header_break_at(d, i) {
        lemma_first_break_found(d, i + 1);
    }
}

proof fn lemma_first_sync_found(d: Seq<u8>, i: int)
    requires
        first_sync_from(d, i) is Some,
    ensures
        sync_at(d, first_sync_from(d, i)->0),
        i <= first_sync_from(d, i)->0,
    decreases d.len() - i,
{
    if !(i < 0 || i + 1 >= d.len()) && !sync_at(d, i) {
        lemma_first_sync_found(d, i + 1);
    }
}

/// Offset at which the audio payload of a binary frame starts, if any.
pub fn find_audio_start(data: &[u8]) -> (r: Option<usize>)
    ensures
        r matches Some(k) ==> audio_start(data@) == Some(k as int) && k <= data@.len(),
        r is None ==> audio_start(data@) is None,
{
    let n = data.len();
    let mut i: usize = 0;
    while n >= 4 && i <= n - 4
        invariant
            n == data@.len(),
            i <= n,
            first_break_from(data@, 0) == first_break_from(data@, i as int),
        decreases n - i,
    {
        if data[i] == 13u8 && data[i + 1] == 10u8 && data[i + 2] == 13u8 && data[i + 3] == 10u8 {
            return Some(i + 4);
        }
        i = i + 1;
    }
    let mut k: usize = 0;
    while n >= 2 && k <= n - 2
        invariant
            n == data@.len(),
            k <= n,
            first_break_from(data@, 0) is None,
            first_sync_from(data@, 0) == first_sync_from(data@, k as int),
        decreases n - k,
    {
        if data[k] == 0xFFu8 && (data[k + 1] & 0xE0u8) == 0xE0u8 {
            return Some(k);
        }
        k = k + 1;
    }
    None
}

/// The audio bytes carried by a binary frame, with its protocol header removed.
pub fn strip_frame_header(data: &[u8]) -> (r: Vec<u8>)
    ensures
        r@ == frame_audio(data@),
{
    let mut out: Vec<u8> = Vec::new();
    match find_audio_start(data) {
        Some(k) => {
            let mut i: usize = k;
            while i < data.len()
                invariant
                    k <= i <= data@.len(),
                    out@ == data@.subrange(k as int, i as int),
                decreases data@.len() - i,
            {
                out.push(data[i]);
                i = i + 1;
            }
        },
        None => {},
    }
    out
}

} // verus!
