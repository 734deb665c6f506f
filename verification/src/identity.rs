//! The stable key of a track, derived from its artist and title.
//!
//! Both names are stripped of surrounding whitespace, their words are joined
//! by single spaces, and the result is put in lower case. The key holds the
//! length of the folded artist, a colon, the folded artist, a hyphen and the
//! folded title, so that no two pairs of folded names share a key. The key
//! is hashed with SHA-1 and the digest written in hexadecimal. Spacing and
//! letter case therefore never tell two tracks apart, and nothing else makes
//! two tracks one.

use crate::text::{
    decimal_of, hex_lower, hex_of, is_digit, law_hex_is_one_to_one, lemma_decimal_of_reads_back,
    write_decimal,
};
use sha1::Sha1;
use sha2::Digest;
use vstd::prelude::*;
use vstd::string::{StrSliceExecFns, StringExecFns};
use vstd::utf8::{encode_utf8, encode_utf8_decode_utf8};

verus! {

/// The characters that separate words: those with the Unicode property
/// `White_Space`.
pub open spec fn is_space(c: char) -> bool {
    let code = c as u32;
    ||| 0x09 <= code <= 0x0D
    ||| code == 0x20
    ||| code == 0x85
    ||| code == 0xA0
    ||| code == 0x1680
    ||| 0x2000 <= code <= 0x200A
    ||| code == 0x2028
    ||| code == 0x2029
    ||| code == 0x202F
    ||| code == 0x205F
    ||| code == 0x3000
}

/// Every character of `s` separates words.
pub open spec fn all_space(s: Seq<char>) -> bool {
    forall|i: int| 0 <= i < s.len() ==> is_space(#[trigger] s[i])
}

/// The words of `s` joined by single spaces: whitespace at either end is
/// dropped and every run of whitespace between two words becomes one space.
pub open spec fn squeeze(s: Seq<char>) -> Seq<char>
    decreases s.len(),
{
    if s.len() == 0 {
        Seq::empty()
    } else {
        let before = squeeze(s.drop_last());
        let c = s.last();
        if is_space(c) {
            before
        } else if before.len() > 0 && is_space(s[s.len() - 2]) {
            before.push(' ').push(c)
        } else {
            before.push(c)
        }
    }
}

/// What `str::to_lowercase` returns for a text.
pub uninterp spec fn lowercase_of(s: Seq<char>) -> Seq<char>;

/// The SHA-1 digest of a run of bytes.
pub uninterp spec fn sha1_of(data: Seq<u8>) -> Seq<u8>;

/// A name as it enters the key: squeezed, then in lower case.
pub open spec fn folded(name: Seq<char>) -> Seq<char> {
    lowercase_of(squeeze(name))
}

/// The text that is hashed: the length of the folded artist in decimal, a
/// colon, the folded artist, a hyphen, the folded title. The length in front
/// says where the artist ends, whatever characters the names hold.
pub open spec fn identity_key(artist: Seq<char>, title: Seq<char>) -> Seq<char> {
    decimal_of(folded(artist).len()).push(':') + folded(artist).push('-') + folded(title)
}

/// The identity of a track: the hexadecimal SHA-1 digest of its key in UTF-8.
pub open spec fn identity_of(artist: Seq<char>, title: Seq<char>) -> Seq<char> {
    hex_of(sha1_of(encode_utf8(identity_key(artist, title))))
}

/// Calls `str::to_lowercase`. The result is given a name, since the Unicode
/// case tables cannot be written down here; it depends on the text alone.
#[verifier::external_body]
fn lowercase(s: &str) -> (out: String)
    ensures
        out@ == lowercase_of(s@),
{
    s.to_lowercase()
}

/// Calls `Sha1::digest` and copies the digest out of its fixed-size array.
/// The result is given a name; it depends on the bytes alone.
#[verifier::external_body]
fn sha1(data: &[u8]) -> (out: Vec<u8>)
    ensures
        out@ == sha1_of(data@),
{
    Sha1::digest(data).to_vec()
}

/// Whether `c` separates words.
pub fn is_whitespace(c: char) -> (yes: bool)
    ensures
        yes == is_space(c),
{
    let code: u32 = c as u32;
    (0x09 <= code && code <= 0x0D) || code == 0x20 || code == 0x85 || code == 0xA0 || code
        == 0x1680 || (0x2000 <= code && code <= 0x200A) || code == 0x2028 || code == 0x2029
        || code == 0x202F || code == 0x205F || code == 0x3000
}

/// Joins the words of `s` by single spaces.
pub fn normalize(s: &str) -> (out: String)
    ensures
        out@ == squeeze(s@),
{
    let mut out = String::new();
    let mut started = false;
    let mut gap = false;
    for c in it: s.chars()
        invariant
            it.seq() == s@,
            out@ == squeeze(s@.take(it.index() as int)),
            started == (out@.len() > 0),
            gap == (it.index() > 0 && is_space(s@[it.index() - 1])),
    {
        let ghost seen = s@.take(it.index() + 1);
        assert(seen.drop_last() =~= s@.take(it.index() as int));
        if is_whitespace(c) {
            gap = true;
        } else {
            if gap && started {
                out.push(' ');
            }
            out.push(c);
            started = true;
            gap = false;
        }
    }
    assert(s@.take(s@.len() as int) =~= s@);
    out
}

/// The text that is hashed for a track.
pub fn key(artist: &str, title: &str) -> (out: String)
    ensures
        out@ == identity_key(artist@, title@),
{
    let artist = lowercase(normalize(artist).as_str());
    let title = lowercase(normalize(title).as_str());
    let mut out = write_decimal(artist.as_str().unicode_len() as u64);
    out.push(':');
    out.append(artist.as_str());
    out.push('-');
    out.append(title.as_str());
    out
}

/// The identity of the track with this artist and title. It is a function of
/// the two names alone, and of them only through their folded forms.
pub fn identity(artist: &str, title: &str) -> (id: String)
    ensures
        id@ == identity_of(artist@, title@),
{
    let key = key(artist, title);
    let digest = sha1(key.as_str().as_bytes());
    hex_lower(digest.as_slice())
}

/// Whitespace at the end of a text leaves no trace.
pub proof fn lemma_squeeze_trailing(s: Seq<char>, pad: Seq<char>)
    requires
        all_space(pad),
    ensures
        squeeze(s + pad) == squeeze(s),
    decreases pad.len(),
{
    if pad.len() > 0 {
        assert((s + pad).drop_last() =~= s + pad.drop_last());
        lemma_squeeze_trailing(s, pad.drop_last());
    }
}

/// Whitespace at the start of a text leaves no trace.
pub proof fn lemma_squeeze_leading(pad: Seq<char>, s: Seq<char>)
    requires
        all_space(pad),
    ensures
        squeeze(pad + s) == squeeze(s),
    decreases s.len(),
{
    if s.len() == 0 {
        lemma_squeeze_trailing(Seq::empty(), pad);
    } else {
        assert((pad + s).drop_last() =~= pad + s.drop_last());
        lemma_squeeze_leading(pad, s.drop_last());
    }
}

/// Between two parts of a text, one run of whitespace is as good as another.
pub proof fn lemma_squeeze_gap(a: Seq<char>, gap1: Seq<char>, gap2: Seq<char>, b: Seq<char>)
    requires
        all_space(gap1),
        all_space(gap2),
        gap1.len() > 0,
        gap2.len() > 0,
    ensures
        squeeze(a + gap1 + b) == squeeze(a + gap2 + b),
    decreases b.len(),
{
    let x = a + gap1 + b;
    let y = a + gap2 + b;
    if b.len() == 0 {
        lemma_squeeze_trailing(a, gap1);
        lemma_squeeze_trailing(a, gap2);
    } else {
        assert(x.drop_last() =~= a + gap1 + b.drop_last());
        assert(y.drop_last() =~= a + gap2 + b.drop_last());
        lemma_squeeze_gap(a, gap1, gap2, b.drop_last());
    }
}

/// A squeezed text that is not empty ends in a character of a word.
pub proof fn lemma_squeeze_ends_in_a_word(s: Seq<char>)
    requires
        squeeze(s).len() > 0,
    ensures
        !is_space(squeeze(s).last()),
    decreases s.len(),
{
    if s.len() > 0 && is_space(s.last()) {
        lemma_squeeze_ends_in_a_word(s.drop_last());
    }
}

/// Squeezing twice is squeezing once: a squeezed text is its own squeezed
/// form.
pub proof fn law_squeeze_is_idempotent(s: Seq<char>)
    ensures
        squeeze(squeeze(s)) == squeeze(s),
    decreases s.len(),
{
    if s.len() > 0 {
        let before = squeeze(s.drop_last());
        let c = s.last();
        law_squeeze_is_idempotent(s.drop_last());
        if !is_space(c) && before.len() > 0 && is_space(s[s.len() - 2]) {
            let out = before.push(' ').push(c);
            assert(out.drop_last() =~= before.push(' '));
            assert(before.push(' ') =~= before + seq![' ']);
            lemma_squeeze_trailing(before, seq![' ']);
            assert(out[out.len() - 2] == ' ');
        } else if !is_space(c) {
            let out = before.push(c);
            assert(out.drop_last() =~= before);
            if before.len() > 0 {
                lemma_squeeze_ends_in_a_word(s.drop_last());
                assert(out[out.len() - 2] == before.last());
            }
        }
    }
}

/// A text without whitespace is its own squeezed form.
pub proof fn law_squeeze_keeps_plain_text(s: Seq<char>)
    requires
        forall|i: int| 0 <= i < s.len() ==> !is_space(#[trigger] s[i]),
    ensures
        squeeze(s) == s,
    decreases s.len(),
{
    if s.len() > 0 {
        law_squeeze_keeps_plain_text(s.drop_last());
    }
}

/// Only whitespace squeezes to nothing.
pub proof fn lemma_squeeze_empty(s: Seq<char>)
    requires
        squeeze(s).len() == 0,
    ensures
        all_space(s),
    decreases s.len(),
{
    if s.len() > 0 {
        lemma_squeeze_empty(s.drop_last());
        assert forall|i: int| 0 <= i < s.len() implies is_space(#[trigger] s[i]) by {
            if i < s.len() - 1 {
                assert(s.drop_last()[i] == s[i]);
            }
        }
    }
}

/// Two texts that each hold a word, set apart by whitespace, squeeze to
/// their squeezed forms joined by one space.
pub proof fn law_squeeze_joins_words(a: Seq<char>, gap: Seq<char>, b: Seq<char>)
    requires
        all_space(gap),
        gap.len() > 0,
        squeeze(a).len() > 0,
        squeeze(b).len() > 0,
    ensures
        squeeze(a + gap + b) == squeeze(a).push(' ') + squeeze(b),
    decreases b.len(),
{
    let whole = a + gap + b;
    let rest = b.drop_last();
    let c = b.last();
    assert(whole.drop_last() =~= a + gap + rest);
    if is_space(c) {
        law_squeeze_joins_words(a, gap, rest);
    } else if squeeze(rest).len() > 0 {
        law_squeeze_joins_words(a, gap, rest);
        let joined = squeeze(a).push(' ') + squeeze(rest);
        assert(joined.push(' ').push(c) =~= squeeze(a).push(' ') + squeeze(rest).push(' ').push(
            c,
        ));
    } else {
        lemma_squeeze_empty(rest);
        assert(a + gap + rest =~= a + (gap + rest));
        lemma_squeeze_trailing(a, gap + rest);
        assert(is_space(whole[whole.len() - 2])) by {
            if rest.len() > 0 {
                assert(whole[whole.len() - 2] == rest.last());
            } else {
                assert(whole[whole.len() - 2] == gap.last());
            }
        }
    }
}

/// The identity is indifferent to whitespace around either name.
pub proof fn law_identity_ignores_spacing(
    artist: Seq<char>,
    title: Seq<char>,
    before: Seq<char>,
    after: Seq<char>,
)
    requires
        all_space(before),
        all_space(after),
    ensures
        identity_of(before + artist + after, title) == identity_of(artist, title),
        identity_of(artist, before + title + after) == identity_of(artist, title),
{
    lemma_squeeze_trailing(before + artist, after);
    lemma_squeeze_leading(before, artist);
    lemma_squeeze_trailing(before + title, after);
    lemma_squeeze_leading(before, title);
}

/// Inside a name, the length and kind of a run of whitespace between two
/// words does not change the identity.
pub proof fn law_identity_ignores_gap_width(
    head: Seq<char>,
    gap1: Seq<char>,
    gap2: Seq<char>,
    tail: Seq<char>,
    other: Seq<char>,
)
    requires
        all_space(gap1),
        all_space(gap2),
        gap1.len() > 0,
        gap2.len() > 0,
    ensures
        identity_of(head + gap1 + tail, other) == identity_of(head + gap2 + tail, other),
        identity_of(other, head + gap1 + tail) == identity_of(other, head + gap2 + tail),
{
    lemma_squeeze_gap(head, gap1, gap2, tail);
}

/// Two pairs of names with the same key have the same folded artist and the
/// same folded title: the key is one-to-one in the pair of folded names.
pub proof fn law_key_tells_pairs_apart(
    a1: Seq<char>,
    t1: Seq<char>,
    a2: Seq<char>,
    t2: Seq<char>,
)
    requires
        identity_key(a1, t1) == identity_key(a2, t2),
    ensures
        folded(a1) == folded(a2),
        folded(t1) == folded(t2),
{
    let k1 = identity_key(a1, t1);
    let k2 = identity_key(a2, t2);
    let d1 = decimal_of(folded(a1).len());
    let d2 = decimal_of(folded(a2).len());
    lemma_decimal_of_reads_back(folded(a1).len());
    lemma_decimal_of_reads_back(folded(a2).len());
    assert(!is_digit(':'));
    assert(k1[d1.len() as int] == ':');
    assert(k2[d2.len() as int] == ':');
    if d1.len() < d2.len() {
        assert(k2[d1.len() as int] == d2[d1.len() as int]);
    }
    if d2.len() < d1.len() {
        assert(k1[d2.len() as int] == d1[d2.len() as int]);
    }
    assert(d1 =~= k1.take(d1.len() as int));
    assert(d2 =~= k2.take(d2.len() as int));
    let n = folded(a1).len() as int;
    let from = d1.len() as int + 1;
    assert(folded(a1) =~= k1.subrange(from, from + n));
    assert(folded(a2) =~= k2.subrange(from, from + n));
    assert(folded(t1) =~= k1.skip(from + n + 1));
    assert(folded(t2) =~= k2.skip(from + n + 1));
}

/// Two pairs of names with the same identity have the same folded artist and
/// the same folded title, unless SHA-1 has given the two different keys one
/// digest.
pub proof fn law_identity_tells_tracks_apart(
    a1: Seq<char>,
    t1: Seq<char>,
    a2: Seq<char>,
    t2: Seq<char>,
)
    requires
        identity_of(a1, t1) == identity_of(a2, t2),
    ensures
        ({
            ||| folded(a1) == folded(a2) && folded(t1) == folded(t2)
            ||| {
                &&& encode_utf8(identity_key(a1, t1)) != encode_utf8(identity_key(a2, t2))
                &&& sha1_of(encode_utf8(identity_key(a1, t1))) == sha1_of(
                    encode_utf8(identity_key(a2, t2)),
                )
            }
        }),
{
    let k1 = identity_key(a1, t1);
    let k2 = identity_key(a2, t2);
    law_hex_is_one_to_one(sha1_of(encode_utf8(k1)), sha1_of(encode_utf8(k2)));
    if encode_utf8(k1) == encode_utf8(k2) {
        encode_utf8_decode_utf8(k1);
        encode_utf8_decode_utf8(k2);
        law_key_tells_pairs_apart(a1, t1, a2, t2);
    }
}

/// The identity is indifferent to letter case: names whose squeezed forms
/// agree once put in lower case have the same identity.
pub proof fn law_identity_ignores_case(
    artist1: Seq<char>,
    title1: Seq<char>,
    artist2: Seq<char>,
    title2: Seq<char>,
)
    requires
        lowercase_of(squeeze(artist1)) == lowercase_of(squeeze(artist2)),
        lowercase_of(squeeze(title1)) == lowercase_of(squeeze(title2)),
    ensures
        identity_of(artist1, title1) == identity_of(artist2, title2),
{
}

/// For names that are written tidily, agreeing in lower case is enough: two
/// pairs of names, each its own squeezed form, whose lower-case forms agree
/// have the same identity.
pub proof fn law_identity_ignores_case_of_tidy_names(
    artist1: Seq<char>,
    title1: Seq<char>,
    artist2: Seq<char>,
    title2: Seq<char>,
)
    requires
        squeeze(artist1) == artist1,
        squeeze(title1) == title1,
        squeeze(artist2) == artist2,
        squeeze(title2) == title2,
        lowercase_of(artist1) == lowercase_of(artist2),
        lowercase_of(title1) == lowercase_of(title2),
    ensures
        identity_of(artist1, title1) == identity_of(artist2, title2),
{
}

} // verus!
