//! Shared value types: track identifiers, deck indices and phrase kinds.
use vstd::prelude::*;

use crate::text::owned;

verus! {

/// The error returned by `uuid` when a text is not a UUID.
#[verifier::external_type_specification]
#[verifier::external_body]
pub struct ExUuidError(uuid::Error);

// ---------------------------------------------------------------------------
// UUID text form
// ---------------------------------------------------------------------------

/// Lower-case hexadecimal digit for `n` in 0..16.
pub open spec fn hex_digit(n: int) -> char {
    if n == 0 {
        '0'
    } else if n == 1 {
        '1'
    } else if n == 2 {
        '2'
    } else if n == 3 {
        '3'
    } else if n == 4 {
        '4'
    } else if n == 5 {
        '5'
    } else if n == 6 {
        '6'
    } else if n == 7 {
        '7'
    } else if n == 8 {
        '8'
    } else if n == 9 {
        '9'
    } else if n == 10 {
        'a'
    } else if n == 11 {
        'b'
    } else if n == 12 {
        'c'
    } else if n == 13 {
        'd'
    } else if n == 14 {
        'e'
    } else {
        'f'
    }
}

/// The `k`-th hexadecimal digit (0 = most significant) of a 128-bit value.
pub open spec fn nibble(v: u128, k: int) -> int {
    ((v >> ((124 - 4 * k) as u128)) & 0xf) as int
}

/// Number of hyphens that precede position `p` of the hyphenated form.
pub open spec fn hyphens_before(p: int) -> int {
    if p < 9 {
        0
    } else if p < 14 {
        1
    } else if p < 19 {
        2
    } else if p < 24 {
        3
    } else {
        4
    }
}

/// Whether position `p` of the hyphenated form holds a hyphen.
pub open spec fn is_hyphen_position(p: int) -> bool {
    p == 8 || p == 13 || p == 18 || p == 23
}

/// Hyphenated lower-case text of a UUID given by its 128-bit value, as in
/// `936da01f-9abd-4d9d-80c7-02af85c822a8`: 32 hex digits, most significant
/// first, in groups of 8-4-4-4-12.
pub open spec fn uuid_text(v: u128) -> Seq<char> {
    Seq::new(
        36,
        |p: int|
            if is_hyphen_position(p) {
                '-'
            } else {
                hex_digit(nibble(v, p - hyphens_before(p)))
            },
    )
}

/// Whether `s` is the hyphenated lower-case text of some UUID value.
pub open spec fn is_uuid_text(s: Seq<char>) -> bool {
    exists|v: u128| uuid_text(v) == s
}

/// The UUID value whose hyphenated lower-case text is `s`.
pub open spec fn uuid_text_value(s: Seq<char>) -> u128 {
    choose|v: u128| uuid_text(v) == s
}

/// Every hexadecimal digit of a value lies in 0..16.
proof fn lemma_nibble_range(v: u128, k: int)
    requires
        0 <= k < 32,
    ensures
        0 <= nibble(v, k) < 16,
{
    let s = (124 - 4 * k) as u128;
    assert((v >> s) & 0xf <= 15) by (bit_vector);
}

/// A value is determined by its 32 hexadecimal digits.
proof fn lemma_nibbles_determine(a: u128, b: u128)
    requires
        forall|k: int| 0 <= k < 32 ==> #[trigger] nibble(a, k) == nibble(b, k),
    ensures
        a == b,
{
    assert(nibble(a, 0) == nibble(b, 0));
    assert(nibble(a, 1) == nibble(b, 1));
    assert(nibble(a, 2) == nibble(b, 2));
    assert(nibble(a, 3) == nibble(b, 3));
    assert(nibble(a, 4) == nibble(b, 4));
    assert(nibble(a, 5) == nibble(b, 5));
    assert(nibble(a, 6) == nibble(b, 6));
    assert(nibble(a, 7) == nibble(b, 7));
    assert(nibble(a, 8) == nibble(b, 8));
    assert(nibble(a, 9) == nibble(b, 9));
    assert(nibble(a, 10) == nibble(b, 10));
    assert(nibble(a, 11) == nibble(b, 11));
    assert(nibble(a, 12) == nibble(b, 12));
    assert(nibble(a, 13) == nibble(b, 13));
    assert(nibble(a, 14) == nibble(b, 14));
    assert(nibble(a, 15) == nibble(b, 15));
    assert(nibble(a, 16) == nibble(b, 16));
    assert(nibble(a, 17) == nibble(b, 17));
    assert(nibble(a, 18) == nibble(b, 18));
    assert(nibble(a, 19) == nibble(b, 19));
    assert(nibble(a, 20) == nibble(b, 20));
    assert(nibble(a, 21) == nibble(b, 21));
    assert(nibble(a, 22) == nibble(b, 22));
    assert(nibble(a, 23) == nibble(b, 23));
    assert(nibble(a, 24) == nibble(b, 24));
    assert(nibble(a, 25) == nibble(b, 25));
    assert(nibble(a, 26) == nibble(b, 26));
    assert(nibble(a, 27) == nibble(b, 27));
    assert(nibble(a, 28) == nibble(b, 28));
    assert(nibble(a, 29) == nibble(b, 29));
    assert(nibble(a, 30) == nibble(b, 30));
    assert(nibble(a, 31) == nibble(b, 31));
    assert(a == b) by (bit_vector)
        requires
            (a >> 124u128) & 0xf == (b >> 124u128) & 0xf,
            (a >> 120u128) & 0xf == (b >> 120u128) & 0xf,
            (a >> 116u128) & 0xf == (b >> 116u128) & 0xf,
            (a >> 112u128) & 0xf == (b >> 112u128) & 0xf,
            (a >> 108u128) & 0xf == (b >> 108u128) & 0xf,
            (a >> 104u128) & 0xf == (b >> 104u128) & 0xf,
            (a >> 100u128) & 0xf == (b >> 100u128) & 0xf,
            (a >> 96u128) & 0xf == (b >> 96u128) & 0xf,
            (a >> 92u128) & 0xf == (b >> 92u128) & 0xf,
            (a >> 88u128) & 0xf == (b >> 88u128) & 0xf,
            (a >> 84u128) & 0xf == (b >> 84u128) & 0xf,
            (a >> 80u128) & 0xf == (b >> 80u128) & 0xf,
            (a >> 76u128) & 0xf == (b >> 76u128) & 0xf,
            (a >> 72u128) & 0xf == (b >> 72u128) & 0xf,
            (a >> 68u128) & 0xf == (b >> 68u128) & 0xf,
            (a >> 64u128) & 0xf == (b >> 64u128) & 0xf,
            (a >> 60u128) & 0xf == (b >> 60u128) & 0xf,
            (a >> 56u128) & 0xf == (b >> 56u128) & 0xf,
            (a >> 52u128) & 0xf == (b >> 52u128) & 0xf,
            (a >> 48u128) & 0xf == (b >> 48u128) & 0xf,
            (a >> 44u128) & 0xf == (b >> 44u128) & 0xf,
            (a >> 40u128) & 0xf == (b >> 40u128) & 0xf,
            (a >> 36u128) & 0xf == (b >> 36u128) & 0xf,
            (a >> 32u128) & 0xf == (b >> 32u128) & 0xf,
            (a >> 28u128) & 0xf == (b >> 28u128) & 0xf,
            (a >> 24u128) & 0xf == (b >> 24u128) & 0xf,
            (a >> 20u128) & 0xf == (b >> 20u128) & 0xf,
            (a >> 16u128) & 0xf == (b >> 16u128) & 0xf,
            (a >> 12u128) & 0xf == (b >> 12u128) & 0xf,
            (a >> 8u128) & 0xf == (b >> 8u128) & 0xf,
            (a >> 4u128) & 0xf == (b >> 4u128) & 0xf,
            (a >> 0u128) & 0xf == (b >> 0u128) & 0xf,
    ;
}

/// Distinct values have distinct hyphenated texts.
pub proof fn lemma_uuid_text_injective(a: u128, b: u128)
    requires
        uuid_text(a) == uuid_text(b),
    ensures
        a == b,
{
    assert forall|k: int| 0 <= k < 32 implies #[trigger] nibble(a, k) == nibble(b, k) by {
        let p = if k < 8 {
            k
        } else if k < 12 {
            k + 1
        } else if k < 16 {
            k + 2
        } else if k < 20 {
            k + 3
        } else {
            k + 4
        };
        assert(!is_hyphen_position(p) && p - hyphens_before(p) == k);
        assert(uuid_text(a)[p] == uuid_text(b)[p]);
        assert(uuid_text(a)[p] == hex_digit(nibble(a, k)));
        assert(uuid_text(b)[p] == hex_digit(nibble(b, k)));
        lemma_nibble_range(a, k);
        lemma_nibble_range(b, k);
        assert(hex_digit(nibble(a, k)) == hex_digit(nibble(b, k)));
    }
    lemma_nibbles_determine(a, b);
}

/// The hyphenated text of a UUID value names that value: it is a UUID text,
/// and the value it stands for is the one it was written from.
pub proof fn lemma_uuid_text_value(v: u128)
    ensures
        is_uuid_text(uuid_text(v)),
        uuid_text_value(uuid_text(v)) == v,
{
    assert(uuid_text(v) == uuid_text(v));
    let w = uuid_text_value(uuid_text(v));
    lemma_uuid_text_injective(w, v);
}

/// What `uuid::Uuid::parse_str` makes of a text: the 128-bit value of the
/// UUID it reads, or nothing when the text is not a UUID.
pub uninterp spec fn uuid_parse_result(text: Seq<char>) -> Option<u128>;

/// `uuid::Uuid::new_v4`, read back with `as_u128`.  The value is random; what
/// holds of every outcome is that the version nibble is 4 and the variant
/// bits are `10` (the source masks and sets exactly those bits).
#[verifier::external_body]
fn uuid_new_v4() -> (res: u128)
    ensures
        (res >> 76u128) & 0xf == 4,
        (res >> 62u128) & 0x3 == 2,
{
    uuid::Uuid::new_v4().as_u128()
}

/// `uuid::Uuid::parse_str`, read back with `as_u128`.  The result is the named
/// result `uuid_parse_result` of the text; the hyphenated lower-case form of
/// any value (the form `Display` writes) parses back to that value.
#[verifier::external_body]
fn uuid_parse(s: &str) -> (res: Result<u128, uuid::Error>)
    ensures
        res is Ok <==> uuid_parse_result(s@) is Some,
        res matches Ok(v) ==> uuid_parse_result(s@) == Some(v),
        is_uuid_text(s@) ==> res is Ok && res->Ok_0 == uuid_text_value(s@),
{
    uuid::Uuid::parse_str(s).map(|u| u.as_u128())
}

/// `Display` for `uuid::Uuid` (built with `from_u128`): the hyphenated
/// lower-case form.
#[verifier::external_body]
fn uuid_to_text(v: u128) -> (res: String)
    ensures
        res@ == uuid_text(v),
{
    uuid::Uuid::from_u128(v).to_string()
}

// ---------------------------------------------------------------------------
// Identifiers
// ---------------------------------------------------------------------------

/// Unique identifier for a track in the library.
///
/// Generated once on import and stored in the database.  Stable across moves
/// and renames as long as the file content hash matches.
#[derive(Debug, Clone, Copy, PartialEq, Eq, Hash, Structural)]
pub struct TrackId(u128);

impl View for TrackId {
    type V = u128;

    closed spec fn view(&self) -> u128 {
        self.0
    }
}

impl TrackId {
    /// Create a new random TrackId (a version-4 UUID).
    pub fn new() -> (res: Self)
        ensures
            (res@ >> 76u128) & 0xf == 4,
            (res@ >> 62u128) & 0x3 == 2,
    {
        TrackId(uuid_new_v4())
    }

    /// Parse from a UUID string (e.g. from the database).
    pub fn parse(s: &str) -> (res: Result<Self, uuid::Error>)
        ensures
            res is Ok <==> uuid_parse_result(s@) is Some,
            res matches Ok(id) ==> uuid_parse_result(s@) == Some(id@),
            forall|v: u128| s@ == #[trigger] uuid_text(v) ==> (res matches Ok(id) && id@ == v),
    {
        proof {
            assert forall|v: u128| s@ == #[trigger] uuid_text(v) implies is_uuid_text(s@)
                && uuid_text_value(s@) == v by {
                lemma_uuid_text_value(v);
            }
        }
        match uuid_parse(s) {
            Ok(v) => Ok(TrackId(v)),
            Err(e) => Err(e),
        }
    }

    /// The identifier with the given 128-bit UUID value.
    pub fn from_u128(v: u128) -> (res: Self)
        ensures
            res@ == v,
    {
        TrackId(v)
    }

    /// The 128-bit UUID value of this identifier.
    pub fn as_u128(&self) -> (res: u128)
        ensures
            res == self@,
    {
        self.0
    }

    /// The hyphenated lower-case UUID text, as written to the database and
    /// used for cache directory names.
    pub fn to_string(&self) -> (res: String)
        ensures
            res@ == uuid_text(self@),
    {
        uuid_to_text(self.0)
    }
}

impl Default for TrackId {
    /// A new random TrackId.
    fn default() -> (res: Self)
        ensures
            (res@ >> 76u128) & 0xf == 4,
            (res@ >> 62u128) & 0x3 == 2,
    {
        Self::new()
    }
}

// ---------------------------------------------------------------------------
// Deck index
// ---------------------------------------------------------------------------

/// Which of the two playback decks an operation targets.
#[derive(Debug, Clone, Copy, PartialEq, Eq, Structural)]
pub enum Deck {
    A,
    B,
}

impl Deck {
    /// Numeric index, used for array indexing in the engine.
    pub fn index(self) -> (res: usize)
        ensures
            res == (match self {
                Deck::A => 0usize,
                Deck::B => 1usize,
            }),
    {
        match self {
            Deck::A => 0,
            Deck::B => 1,
        }
    }
}

// ---------------------------------------------------------------------------
// Song structure
// ---------------------------------------------------------------------------

/// A phrase kind produced by the AI phrase-detection model.
#[derive(Debug, Clone, Copy, PartialEq, Eq, Structural)]
pub enum PhraseKind {
    Intro,
    Verse,
    Chorus,
    Drop,
    Outro,
    Break,
}

/// Display name of each phrase kind.
pub open spec fn phrase_name(k: PhraseKind) -> Seq<char> {
    match k {
        PhraseKind::Intro => "intro"@,
        PhraseKind::Verse => "verse"@,
        PhraseKind::Chorus => "chorus"@,
        PhraseKind::Drop => "drop"@,
        PhraseKind::Outro => "outro"@,
        PhraseKind::Break => "break"@,
    }
}

impl PhraseKind {
    /// The lower-case display name ("intro", "verse", ...).
    pub fn to_string(&self) -> (res: String)
        ensures
            res@ == phrase_name(*self),
    {
        let s = match self {
            PhraseKind::Intro => "intro",
            PhraseKind::Verse => "verse",
            PhraseKind::Chorus => "chorus",
            PhraseKind::Drop => "drop",
            PhraseKind::Outro => "outro",
            PhraseKind::Break => "break",
        };
        owned(s)
    }
}

} // verus!
