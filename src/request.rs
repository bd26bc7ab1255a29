use vstd::prelude::*;

verus! {

/// The lower-case hexadecimal digit for `d`, below 16.
pub open spec fn hex_digit(d: u128) -> char {
    "0123456789abcdef"@[d as int]
}

/// Which of the 32 hexadecimal digits, most significant first, stands at
/// position `p` of the 36-character rendering, hyphens skipped.
pub open spec fn digit_at(p: int) -> int {
    if p < 8 {
        p
    } else if p < 13 {
        p - 1
    } else if p < 18 {
        p - 2
    } else if p < 23 {
        p - 3
    } else {
        p - 4
    }
}

/// The `i`-th hexadecimal digit of `v`, most significant first.
pub open spec fn nibble(v: u128, i: int) -> u128 {
    (v >> ((4 * (31 - i)) as u128)) & 0xfu128
}

/// The text a version token is stored as: its UUID rendering, 32 lower-case
/// hexadecimal digits, most significant first, with hyphens at positions 8,
/// 13, 18 and 23.
pub open spec fn uuid_text(version: u128) -> Seq<char> {
    Seq::new(
        36,
        |p: int|
            if p == 8 || p == 13 || p == 18 || p == 23 {
                '-'
            } else {
                hex_digit(nibble(version, digit_at(p)))
            },
    )
}

/// Two versions with the same hexadecimal digits are the same version.
proof fn lemma_digits_determine(a: u128, b: u128)
    requires
            (a >> 0u128) & 0xfu128 == (b >> 0u128) & 0xfu128,
            (a >> 4u128) & 0xfu128 == (b >> 4u128) & 0xfu128,
            (a >> 8u128) & 0xfu128 == (b >> 8u128) & 0xfu128,
            (a >> 12u128) & 0xfu128 == (b >> 12u128) & 0xfu128,
            (a >> 16u128) & 0xfu128 == (b >> 16u128) & 0xfu128,
            (a >> 20u128) & 0xfu128 == (b >> 20u128) & 0xfu128,
            (a >> 24u128) & 0xfu128 == (b >> 24u128) & 0xfu128,
            (a >> 28u128) & 0xfu128 == (b >> 28u128) & 0xfu128,
            (a >> 32u128) & 0xfu128 == (b >> 32u128) & 0xfu128,
            (a >> 36u128) & 0xfu128 == (b >> 36u128) & 0xfu128,
            (a >> 40u128) & 0xfu128 == (b >> 40u128) & 0xfu128,
            (a >> 44u128) & 0xfu128 == (b >> 44u128) & 0xfu128,
            (a >> 48u128) & 0xfu128 == (b >> 48u128) & 0xfu128,
            (a >> 52u128) & 0xfu128 == (b >> 52u128) & 0xfu128,
            (a >> 56u128) & 0xfu128 == (b >> 56u128) & 0xfu128,
            (a >> 60u128) & 0xfu128 == (b >> 60u128) & 0xfu128,
            (a >> 64u128) & 0xfu128 == (b >> 64u128) & 0xfu128,
            (a >> 68u128) & 0xfu128 == (b >> 68u128) & 0xfu128,
            (a >> 72u128) & 0xfu128 == (b >> 72u128) & 0xfu128,
            (a >> 76u128) & 0xfu128 == (b >> 76u128) & 0xfu128,
            (a >> 80u128) & 0xfu128 == (b >> 80u128) & 0xfu128,
            (a >> 84u128) & 0xfu128 == (b >> 84u128) & 0xfu128,
            (a >> 88u128) & 0xfu128 == (b >> 88u128) & 0xfu128,
            (a >> 92u128) & 0xfu128 == (b >> 92u128) & 0xfu128,
            (a >> 96u128) & 0xfu128 == (b >> 96u128) & 0xfu128,
            (a >> 100u128) & 0xfu128 == (b >> 100u128) & 0xfu128,
            (a >> 104u128) & 0xfu128 == (b >> 104u128) & 0xfu128,
            (a >> 108u128) & 0xfu128 == (b >> 108u128) & 0xfu128,
            (a >> 112u128) & 0xfu128 == (b >> 112u128) & 0xfu128,
            (a >> 116u128) & 0xfu128 == (b >> 116u128) & 0xfu128,
            (a >> 120u128) & 0xfu128 == (b >> 120u128) & 0xfu128,
            (a >> 124u128) & 0xfu128 == (b >> 124u128) & 0xfu128,
    ensures
        a == b,
{
    assert(a == b) by (bit_vector)
        requires
            (a >> 0u128) & 0xfu128 == (b >> 0u128) & 0xfu128,
            (a >> 4u128) & 0xfu128 == (b >> 4u128) & 0xfu128,
            (a >> 8u128) & 0xfu128 == (b >> 8u128) & 0xfu128,
            (a >> 12u128) & 0xfu128 == (b >> 12u128) & 0xfu128,
            (a >> 16u128) & 0xfu128 == (b >> 16u128) & 0xfu128,
            (a >> 20u128) & 0xfu128 == (b >> 20u128) & 0xfu128,
            (a >> 24u128) & 0xfu128 == (b >> 24u128) & 0xfu128,
            (a >> 28u128) & 0xfu128 == (b >> 28u128) & 0xfu128,
            (a >> 32u128) & 0xfu128 == (b >> 32u128) & 0xfu128,
            (a >> 36u128) & 0xfu128 == (b >> 36u128) & 0xfu128,
            (a >> 40u128) & 0xfu128 == (b >> 40u128) & 0xfu128,
            (a >> 44u128) & 0xfu128 == (b >> 44u128) & 0xfu128,
            (a >> 48u128) & 0xfu128 == (b >> 48u128) & 0xfu128,
            (a >> 52u128) & 0xfu128 == (b >> 52u128) & 0xfu128,
            (a >> 56u128) & 0xfu128 == (b >> 56u128) & 0xfu128,
            (a >> 60u128) & 0xfu128 == (b >> 60u128) & 0xfu128,
            (a >> 64u128) & 0xfu128 == (b >> 64u128) & 0xfu128,
            (a >> 68u128) & 0xfu128 == (b >> 68u128) & 0xfu128,
            (a >> 72u128) & 0xfu128 == (b >> 72u128) & 0xfu128,
            (a >> 76u128) & 0xfu128 == (b >> 76u128) & 0xfu128,
            (a >> 80u128) & 0xfu128 == (b >> 80u128) & 0xfu128,
            (a >> 84u128) & 0xfu128 == (b >> 84u128) & 0xfu128,
            (a >> 88u128) & 0xfu128 == (b >> 88u128) & 0xfu128,
            (a >> 92u128) & 0xfu128 == (b >> 92u128) & 0xfu128,
            (a >> 96u128) & 0xfu128 == (b >> 96u128) & 0xfu128,
            (a >> 100u128) & 0xfu128 == (b >> 100u128) & 0xfu128,
            (a >> 104u128) & 0xfu128 == (b >> 104u128) & 0xfu128,
            (a >> 108u128) & 0xfu128 == (b >> 108u128) & 0xfu128,
            (a >> 112u128) & 0xfu128 == (b >> 112u128) & 0xfu128,
            (a >> 116u128) & 0xfu128 == (b >> 116u128) & 0xfu128,
            (a >> 120u128) & 0xfu128 == (b >> 120u128) & 0xfu128,
            (a >> 124u128) & 0xfu128 == (b >> 124u128) & 0xfu128,
    ;
}

/// Distinct digits below 16 are written with distinct characters.
proof fn lemma_hex_digit_injective(d: u128, e: u128)
    requires
        d < 16,
        e < 16,
        hex_digit(d) == hex_digit(e),
    ensures
        d == e,
{
    reveal_strlit("0123456789abcdef");
    assert(hex_digit(0u128) == '0');
    assert(hex_digit(1u128) == '1');
    assert(hex_digit(2u128) == '2');
    assert(hex_digit(3u128) == '3');
    assert(hex_digit(4u128) == '4');
    assert(hex_digit(5u128) == '5');
    assert(hex_digit(6u128) == '6');
    assert(hex_digit(7u128) == '7');
    assert(hex_digit(8u128) == '8');
    assert(hex_digit(9u128) == '9');
    assert(hex_digit(10u128) == 'a');
    assert(hex_digit(11u128) == 'b');
    assert(hex_digit(12u128) == 'c');
    assert(hex_digit(13u128) == 'd');
    assert(hex_digit(14u128) == 'e');
    assert(hex_digit(15u128) == 'f');
    assert(forall|x: u128| #![trigger hex_digit(x)] x < 16 ==> hex_digit(x) as u32 == if x < 10 {
        48 + x
    } else {
        87 + x
    });
}

/// Distinct versions have distinct renderings, so a condition that compares
/// rendered versions holds exactly when the versions are equal.
pub proof fn uuid_text_injective(a: u128, b: u128)
    requires
        uuid_text(a) == uuid_text(b),
    ensures
        a == b,
{
    reveal_strlit("0123456789abcdef");
    assert forall|i: int| 0 <= i < 32 implies #[trigger] nibble(a, i) == nibble(b, i) by {
        let p = if i < 8 {
            i
        } else if i < 12 {
            i + 1
        } else if i < 16 {
            i + 2
        } else if i < 20 {
            i + 3
        } else {
            i + 4
        };
        assert(digit_at(p) == i);
        assert(0 <= p < 36 && p != 8 && p != 13 && p != 18 && p != 23);
        assert(uuid_text(a)[p] == hex_digit(nibble(a, i)));
        assert(uuid_text(b)[p] == hex_digit(nibble(b, i)));
        let s = (4 * (31 - i)) as u128;
        let x = a >> s;
        let y = b >> s;
        assert(x & 0xfu128 < 16u128) by (bit_vector);
        assert(y & 0xfu128 < 16u128) by (bit_vector);
        lemma_hex_digit_injective(nibble(a, i), nibble(b, i));
    }
    assert(nibble(a, 31) == nibble(b, 31));
    assert(nibble(a, 30) == nibble(b, 30));
    assert(nibble(a, 29) == nibble(b, 29));
    assert(nibble(a, 28) == nibble(b, 28));
    assert(nibble(a, 27) == nibble(b, 27));
    assert(nibble(a, 26) == nibble(b, 26));
    assert(nibble(a, 25) == nibble(b, 25));
    assert(nibble(a, 24) == nibble(b, 24));
    assert(nibble(a, 23) == nibble(b, 23));
    assert(nibble(a, 22) == nibble(b, 22));
    assert(nibble(a, 21) == nibble(b, 21));
    assert(nibble(a, 20) == nibble(b, 20));
    assert(nibble(a, 19) == nibble(b, 19));
    assert(nibble(a, 18) == nibble(b, 18));
    assert(nibble(a, 17) == nibble(b, 17));
    assert(nibble(a, 16) == nibble(b, 16));
    assert(nibble(a, 15) == nibble(b, 15));
    assert(nibble(a, 14) == nibble(b, 14));
    assert(nibble(a, 13) == nibble(b, 13));
    assert(nibble(a, 12) == nibble(b, 12));
    assert(nibble(a, 11) == nibble(b, 11));
    assert(nibble(a, 10) == nibble(b, 10));
    assert(nibble(a, 9) == nibble(b, 9));
    assert(nibble(a, 8) == nibble(b, 8));
    assert(nibble(a, 7) == nibble(b, 7));
    assert(nibble(a, 6) == nibble(b, 6));
    assert(nibble(a, 5) == nibble(b, 5));
    assert(nibble(a, 4) == nibble(b, 4));
    assert(nibble(a, 3) == nibble(b, 3));
    assert(nibble(a, 2) == nibble(b, 2));
    assert(nibble(a, 1) == nibble(b, 1));
    assert(nibble(a, 0) == nibble(b, 0));
    lemma_digits_determine(a, b);
}

/// Relies on `uuid::Uuid::from_u128` and the `Display` of `uuid::Uuid`: the
/// hyphenated lower-case rendering.
#[verifier::external_body]
fn version_text(version: u128) -> (r: String)
    ensures
        r@ == uuid_text(version),
{
    uuid::Uuid::from_u128(version).to_string()
}

/// The condition of an acquire: no lease, or one whose expiry has passed.
pub open spec fn acquire_condition() -> Seq<char> {
    "attribute_not_exists(lease_version) OR lease_expiry <= :now"@
}

/// The condition of an extend or a delete: the lease carries `:expected`.
pub open spec fn ownership_condition() -> Seq<char> {
    "attribute_exists(lease_version) AND lease_version = :expected"@
}

/// A conditional put of a lease record, in the store's vocabulary: the item
/// `{key, lease_expiry, lease_version}` and the condition with its values.
pub struct PutRequest {
    pub key: String,
    pub lease_expiry: u64,
    pub lease_version: String,
    pub condition: String,
    /// The value of `:now`, where the condition names it.
    pub now: Option<u64>,
    /// The value of `:expected`, where the condition names it.
    pub expected: Option<String>,
}

/// A conditional delete of a lease record, in the store's vocabulary.
pub struct DeleteRequest {
    pub key: String,
    pub condition: String,
    /// The value of `:expected`.
    pub expected: String,
}

fn acquire_condition_text() -> (r: String)
    ensures
        r@ == acquire_condition(),
{
    "attribute_not_exists(lease_version) OR lease_expiry <= :now".to_owned()
}

fn ownership_condition_text() -> (r: String)
    ensures
        r@ == ownership_condition(),
{
    "attribute_exists(lease_version) AND lease_version = :expected".to_owned()
}

/// The put that acquires `key` with `version` at `now`, unless an unexpired
/// lease stands.
pub fn acquire_request(key: &String, version: u128, now: u64, ttl: u64) -> (r: PutRequest)
    requires
        now + ttl <= u64::MAX,
    ensures
        r.key@ == key@,
        r.lease_expiry == now + ttl,
        r.lease_version@ == uuid_text(version),
        r.condition@ == acquire_condition(),
        r.now == Some(now),
        r.expected is None,
{
    PutRequest {
        key: key.clone(),
        lease_expiry: now + ttl,
        lease_version: version_text(version),
        condition: acquire_condition_text(),
        now: Some(now),
        expected: None,
    }
}

/// The put that extends `key` from `expected` to `version` at `now`.
pub fn extend_request(key: &String, expected: u128, version: u128, now: u64, ttl: u64) -> (r:
    PutRequest)
    requires
        now + ttl <= u64::MAX,
    ensures
        r.key@ == key@,
        r.lease_expiry == now + ttl,
        r.lease_version@ == uuid_text(version),
        r.condition@ == ownership_condition(),
        r.now is None,
        r.expected matches Some(e) && e@ == uuid_text(expected),
{
    PutRequest {
        key: key.clone(),
        lease_expiry: now + ttl,
        lease_version: version_text(version),
        condition: ownership_condition_text(),
        now: None,
        expected: Some(version_text(expected)),
    }
}

/// The delete of `key` bound to `expected`.
pub fn delete_request(key: &String, expected: u128) -> (r: DeleteRequest)
    ensures
        r.key@ == key@,
        r.condition@ == ownership_condition(),
        r.expected@ == uuid_text(expected),
{
    DeleteRequest {
        key: key.clone(),
        condition: ownership_condition_text(),
        expected: version_text(expected),
    }
}

} // verus!
