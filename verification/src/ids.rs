//! The identifiers under which videos are stored.

use vstd::prelude::*;

verus! {

/// The lower-case hexadecimal digit of a number below sixteen.
pub open spec fn hex_digit(n: int) -> char {
    if n < 10 {
        (48 + n) as char
    } else {
        (87 + n) as char
    }
}

/// Two hexadecimal digits for each byte, the higher one first.
pub open spec fn hex(bytes: Seq<u8>) -> Seq<char> {
    Seq::new(
        2 * bytes.len(),
        |i: int|
            if i % 2 == 0 {
                hex_digit(bytes[i / 2] as int / 16)
            } else {
                hex_digit(bytes[i / 2] as int % 16)
            },
    )
}

/// Sixteen bytes in hexadecimal, in groups of four, two, two, two and six bytes
/// with hyphens between them.
pub open spec fn hyphenated(bytes: Seq<u8>) -> Seq<char> {
    hex(bytes.subrange(0, 4)) + seq!['-'] + hex(bytes.subrange(4, 6)) + seq!['-'] + hex(
        bytes.subrange(6, 8),
    ) + seq!['-'] + hex(bytes.subrange(8, 10)) + seq!['-'] + hex(bytes.subrange(10, 16))
}

/// The bytes carry the marks of a random identifier: version four, and the
/// variant of RFC 9562.
pub open spec fn random_marks(bytes: Seq<u8>) -> bool {
    bytes.len() == 16 && bytes[6] as int / 16 == 4 && bytes[8] as int / 64 == 2
}

/// `id` is the text of a random identifier.
pub open spec fn video_id(id: Seq<char>) -> bool {
    exists|bytes: Seq<u8>| #[trigger] random_marks(bytes) && id == hyphenated(bytes)
}

/// Calls `uuid::Uuid::new_v4`: sixteen random bytes but for the marks of
/// version and variant. That two calls give different bytes rests on chance and
/// is not claimed. The call panics where the system has no random bytes to give.
#[verifier::external_body]
fn random_bytes() -> (bytes: [u8; 16])
    ensures
        random_marks(bytes@),
{
    uuid::Uuid::new_v4().into_bytes()
}

/// Calls the `Display` of `uuid::Uuid` for the identifier that
/// `uuid::Uuid::from_bytes` makes of the bytes: its hyphenated text in lower
/// case.
#[verifier::external_body]
fn uuid_text(bytes: [u8; 16]) -> (text: String)
    ensures
        text@ == hyphenated(bytes@),
{
    uuid::Uuid::from_bytes(bytes).to_string()
}

/// The bytes were drawn at random.
pub closed spec fn drawn(bytes: [u8; 16]) -> bool {
    call_ensures(random_bytes, (), bytes)
}

/// `id` is the text of bytes that were drawn at random.
pub open spec fn drawn_id(id: Seq<char>) -> bool {
    exists|bytes: [u8; 16]| #[trigger] drawn(bytes) && id == hyphenated(bytes@)
}

/// Draws bytes once.
fn draw_once<D: Fn() -> [u8; 16]>(draw: D) -> (bytes: [u8; 16])
    requires
        call_requires(draw, ()),
    ensures
        call_ensures(draw, (), bytes),
{
    draw()
}

/// The identifier that the bytes stand for.
pub fn id_of_bytes(bytes: [u8; 16]) -> (id: String)
    ensures
        id@ == hyphenated(bytes@),
{
    uuid_text(bytes)
}

/// Makes a new identifier at random.
pub fn new_video_id() -> (id: String)
    ensures
        video_id(id@),
        drawn_id(id@),
{
    let bytes = draw_once(random_bytes);
    assert(drawn(bytes));
    id_of_bytes(bytes)
}

proof fn lemma_hex_digit_injective(m: int, n: int)
    requires
        0 <= m < 16,
        0 <= n < 16,
        hex_digit(m) == hex_digit(n),
    ensures
        m == n,
{
}

proof fn lemma_hex_at(bytes: Seq<u8>, k: int)
    requires
        0 <= k < bytes.len(),
    ensures
        hex(bytes)[2 * k] == hex_digit(bytes[k] as int / 16),
        hex(bytes)[2 * k + 1] == hex_digit(bytes[k] as int % 16),
{
    let high = 2 * k;
    let low = 2 * k + 1;
    assert(high % 2 == 0 && high / 2 == k);
    assert(low % 2 == 1 && low / 2 == k);
}

proof fn lemma_hex_injective(left: Seq<u8>, right: Seq<u8>)
    requires
        left.len() == right.len(),
        hex(left) == hex(right),
    ensures
        left == right,
{
    assert forall|k: int| 0 <= k < left.len() implies left[k] == right[k] by {
        lemma_hex_at(left, k);
        lemma_hex_at(right, k);
        lemma_hex_digit_injective(left[k] as int / 16, right[k] as int / 16);
        lemma_hex_digit_injective(left[k] as int % 16, right[k] as int % 16);
    }
    assert(left =~= right);
}

proof fn lemma_groups(bytes: Seq<u8>)
    requires
        bytes.len() == 16,
    ensures
        hyphenated(bytes).len() == 36,
        hyphenated(bytes).subrange(0, 8) == hex(bytes.subrange(0, 4)),
        hyphenated(bytes).subrange(9, 13) == hex(bytes.subrange(4, 6)),
        hyphenated(bytes).subrange(14, 18) == hex(bytes.subrange(6, 8)),
        hyphenated(bytes).subrange(19, 23) == hex(bytes.subrange(8, 10)),
        hyphenated(bytes).subrange(24, 36) == hex(bytes.subrange(10, 16)),
        bytes == bytes.subrange(0, 4) + bytes.subrange(4, 6) + bytes.subrange(6, 8)
            + bytes.subrange(8, 10) + bytes.subrange(10, 16),
{
    let text = hyphenated(bytes);
    assert(text.subrange(0, 8) =~= hex(bytes.subrange(0, 4)));
    assert(text.subrange(9, 13) =~= hex(bytes.subrange(4, 6)));
    assert(text.subrange(14, 18) =~= hex(bytes.subrange(6, 8)));
    assert(text.subrange(19, 23) =~= hex(bytes.subrange(8, 10)));
    assert(text.subrange(24, 36) =~= hex(bytes.subrange(10, 16)));
    assert(bytes =~= bytes.subrange(0, 4) + bytes.subrange(4, 6) + bytes.subrange(6, 8)
        + bytes.subrange(8, 10) + bytes.subrange(10, 16));
}

/// Different bytes give different identifiers.
pub proof fn law_ids_are_distinct(left: Seq<u8>, right: Seq<u8>)
    requires
        left.len() == 16,
        right.len() == 16,
        left != right,
    ensures
        hyphenated(left) != hyphenated(right),
{
    if hyphenated(left) == hyphenated(right) {
        lemma_groups(left);
        lemma_groups(right);
        lemma_hex_injective(left.subrange(0, 4), right.subrange(0, 4));
        lemma_hex_injective(left.subrange(4, 6), right.subrange(4, 6));
        lemma_hex_injective(left.subrange(6, 8), right.subrange(6, 8));
        lemma_hex_injective(left.subrange(8, 10), right.subrange(8, 10));
        lemma_hex_injective(left.subrange(10, 16), right.subrange(10, 16));
    }
}

/// An identifier has thirty-six characters, each a lower-case hexadecimal digit
/// or a hyphen, so that it names a single directory and a single segment of an
/// address.
pub proof fn law_id_characters(id: Seq<char>)
    requires
        video_id(id),
    ensures
        id.len() == 36,
        forall|i: int|
            0 <= i < id.len() ==> (#[trigger] id[i] == '-' || '0' <= id[i] <= '9' || 'a' <= id[i]
                <= 'f'),
        id[14] == '4',
        !id.contains('/'),
        !id.contains('\n'),
{
    let bytes = choose|bytes: Seq<u8>| #[trigger] random_marks(bytes) && id == hyphenated(bytes);
    lemma_groups(bytes);
    assert(id[14] == id.subrange(14, 18)[0]);
}

/// The number that a lower-case hexadecimal digit stands for.
pub open spec fn hex_value(c: char) -> int {
    if '0' <= c <= '9' {
        c as int - '0' as int
    } else {
        c as int - 'a' as int + 10
    }
}

/// Where the first digit of a byte stands in an identifier: two digits for each
/// byte before it, and a hyphen behind the fourth, the sixth, the eighth and the
/// tenth byte.
pub open spec fn digit_position(k: int) -> int {
    if k < 4 {
        2 * k
    } else if k < 6 {
        2 * k + 1
    } else if k < 8 {
        2 * k + 2
    } else if k < 10 {
        2 * k + 3
    } else {
        2 * k + 4
    }
}

/// Each byte reads back from its two digits in the identifier, the higher digit
/// first, and the four other characters are hyphens.
pub proof fn law_bytes_read_back(bytes: Seq<u8>, k: int)
    requires
        bytes.len() == 16,
        0 <= k < 16,
    ensures
        hyphenated(bytes).len() == 36,
        16 * hex_value(hyphenated(bytes)[digit_position(k)]) + hex_value(
            hyphenated(bytes)[digit_position(k) + 1],
        ) == bytes[k],
        hyphenated(bytes)[8] == '-',
        hyphenated(bytes)[13] == '-',
        hyphenated(bytes)[18] == '-',
        hyphenated(bytes)[23] == '-',
{
    let text = hyphenated(bytes);
    let p = digit_position(k);
    lemma_groups(bytes);
    let (from, to, at) = if k < 4 {
        (0int, 4int, 0int)
    } else if k < 6 {
        (4, 6, 9)
    } else if k < 8 {
        (6, 8, 14)
    } else if k < 10 {
        (8, 10, 19)
    } else {
        (10, 16, 24)
    };
    let group = bytes.subrange(from, to);
    lemma_hex_at(group, k - from);
    assert(group[k - from] == bytes[k]);
    assert(text.subrange(at, at + 2 * (to - from)) == hex(group));
    assert(text[p] == hex(group)[2 * (k - from)]);
    assert(text[p + 1] == hex(group)[2 * (k - from) + 1]);
}

} // verus!
