//! What the Rich Presence card shows: the state line for a lyric, an artist or a
//! play state, and the plan of a whole activity (name, details, state,
//! timestamps, images).

use vstd::prelude::*;
use vstd::utf8::*;

verus! {

/// Number of bytes of the UTF-8 encoding of `s`.
pub open spec fn utf8_len(s: Seq<char>) -> int {
    encode_utf8(s).len() as int
}

/// Longest text, in UTF-8 bytes, that is shown as it is.
pub open spec fn lyric_byte_limit() -> int {
    120
}

/// Number of leading bytes kept of a longer text.
pub open spec fn lyric_kept_bytes() -> int {
    117
}

/// A lyric as the card shows it: as it is when it fits in 120 bytes, otherwise its
/// first 117 bytes followed by "...".
pub open spec fn lyric_display(lyric: Seq<char>) -> Seq<char> {
    if utf8_len(lyric) > lyric_byte_limit() {
        decode_utf8(encode_utf8(lyric).take(lyric_kept_bytes())) + "..."@
    } else {
        lyric
    }
}

/// The lyric can be measured and, where it is too long, cut: its byte length fits in
/// `usize`, and where it is cut the cut falls on a character boundary.
pub open spec fn lyric_cuttable(lyric: Seq<char>) -> bool {
    &&& utf8_len(lyric) <= usize::MAX
    &&& utf8_len(lyric) > lyric_byte_limit() ==> is_char_boundary(encode_utf8(lyric), lyric_kept_bytes())
}

/// State line that shows a lyric.
pub open spec fn lyric_state_text(lyric: Seq<char>) -> Seq<char> {
    "♪ "@ + lyric_display(lyric)
}

/// State line that shows the artist.
pub open spec fn artist_state_text(artist: Seq<char>) -> Seq<char> {
    "by "@ + artist
}

/// State line that shows whether playback runs.
pub open spec fn play_state_text(playing: bool) -> Seq<char> {
    if playing {
        "♪ playing"@
    } else {
        "⏸ paused"@
    }
}

/// State line for a track: the lyric when one is given and not empty, else the artist.
pub open spec fn track_state_text(lyric: Option<Seq<char>>, artist: Seq<char>) -> Seq<char> {
    match lyric {
        Some(l) => if l.len() > 0 {
            lyric_state_text(l)
        } else {
            artist_state_text(artist)
        },
        None => artist_state_text(artist),
    }
}

/// Builds the state line for a lyric.
pub fn lyric_state(lyric: &str) -> (r: String)
    requires
        lyric_cuttable(lyric@),
    ensures
        r@ == lyric_state_text(lyric@),
{
    let mut r = String::from_str("♪ ");
    if lyric.len() > 120 {
        let (head, _tail) = lyric.split_at(117);
        proof {
            let bytes = encode_utf8(lyric@);
            assert(bytes.subrange(0, 117) =~= bytes.take(117));
            vstd::utf8::encode_utf8_decode_utf8(head@);
        }
        r.append(head);
        r.append("...");
    } else {
        r.append(lyric);
    }
    r
}

/// Builds the state line for an artist.
pub fn artist_state(artist: &str) -> (r: String)
    ensures
        r@ == artist_state_text(artist@),
{
    let mut r = String::from_str("by ");
    r.append(artist);
    r
}

/// Builds the state line for a play state.
pub fn play_state(playing: bool) -> (r: String)
    ensures
        r@ == play_state_text(playing),
{
    if playing {
        String::from_str("♪ playing")
    } else {
        String::from_str("⏸ paused")
    }
}

/// Encoding a concatenation encodes each part.
pub proof fn lemma_encode_utf8_concat(a: Seq<char>, b: Seq<char>)
    ensures
        encode_utf8(a + b) == encode_utf8(a) + encode_utf8(b),
    decreases a.len(),
{
    if a.len() == 0 {
        assert(a + b =~= b);
    } else {
        assert((a + b).drop_first() =~= a.drop_first() + b);
        lemma_encode_utf8_concat(a.drop_first(), b);
    }
}

/// The lyric shown on the card never takes more than 120 bytes, so the whole state
/// line takes at most 124 and stays within Discord's limit of 128.
pub proof fn lemma_lyric_state_fits(lyric: Seq<char>)
    requires
        lyric_cuttable(lyric),
    ensures
        utf8_len(lyric_display(lyric)) <= 120,
        utf8_len(lyric_state_text(lyric)) <= 124,
{
    reveal_strlit("...");
    reveal_strlit("♪ ");
    let dots = "..."@;
    let note = "♪ "@;
    assert(dots =~= seq!['.', '.', '.']);
    assert(note =~= seq!['♪', ' ']);
    reveal_with_fuel(encode_utf8, 4);
    assert(dots.drop_first() =~= seq!['.', '.']);
    assert(dots.drop_first().drop_first() =~= seq!['.']);
    assert(dots.drop_first().drop_first().drop_first() =~= Seq::<char>::empty());
    assert(note.drop_first() =~= seq![' ']);
    assert(note.drop_first().drop_first() =~= Seq::<char>::empty());
    assert(encode_utf8(dots).len() == 3);
    assert(encode_utf8(note).len() == 4);
    if utf8_len(lyric) > 120 {
        let bytes = encode_utf8(lyric);
        let head = bytes.take(117);
        encode_utf8_valid_utf8(lyric);
        valid_utf8_split(bytes, 117);
        assert(bytes.subrange(0, 117) =~= head);
        decode_utf8_encode_utf8(head);
        lemma_encode_utf8_concat(decode_utf8(head), dots);
    }
    lemma_encode_utf8_concat(note, lyric_display(lyric));
}

/// A lyric of at most 120 bytes is shown as it is; a longer one is shown as its
/// leading characters that take exactly 117 bytes, followed by "...".
pub proof fn law_lyric_display(lyric: Seq<char>)
    requires
        lyric_cuttable(lyric),
    ensures
        utf8_len(lyric) <= 120 ==> lyric_display(lyric) == lyric,
        utf8_len(lyric) > 120 ==> exists|head: Seq<char>|
            #![trigger head.is_prefix_of(lyric)]
            {
                &&& head.is_prefix_of(lyric)
                &&& utf8_len(head) == 117
                &&& lyric_display(lyric) == head + "..."@
            },
{
    if utf8_len(lyric) > 120 {
        let bytes = encode_utf8(lyric);
        let head_bytes = bytes.take(117);
        let rest_bytes = bytes.subrange(117, bytes.len() as int);
        encode_utf8_valid_utf8(lyric);
        encode_utf8_decode_utf8(lyric);
        valid_utf8_split(bytes, 117);
        decode_utf8_split(bytes, 117);
        assert(bytes.subrange(0, 117) =~= head_bytes);
        decode_utf8_encode_utf8(head_bytes);
        let head = decode_utf8(head_bytes);
        assert(lyric == head + decode_utf8(rest_bytes));
        assert(head.is_prefix_of(lyric)) by {
            assert forall|i: int| 0 <= i < head.len() implies head[i] == lyric[i] by {
                assert(lyric[i] == (head + decode_utf8(rest_bytes))[i]);
            }
        }
    }
}

} // verus!
