//! Composition of the canonical fingerprint input and its one-way digest.
//!
//! Only the digest (64 lowercase hex characters of a SHA-256) is meant to
//! leave this module's callers; the raw identifiers never do.
use sha2::{Digest, Sha256};
use vstd::prelude::*;
use vstd::string::*;
use vstd::utf8::encode_utf8;

verus! {

/// Key in the persistent store for the installation identifier.
pub const INSTALL_UUID_KEY: &'static str = "install_uuid";

/// Key in the persistent store for the fallback machine identifier, used when
/// the operating system provides none.
pub const MACHINE_ID_FALLBACK_KEY: &'static str = "machine_id_fallback";

/// The SHA-256 digest of a byte sequence.
pub uninterp spec fn sha256_of(data: Seq<u8>) -> Seq<u8>;

/// The separator written between two fields of the canonical input.
pub open spec fn separator() -> Seq<char> {
    seq![':', ':']
}

/// `x`, a separator, then `rest`.
pub open spec fn join(x: Seq<char>, rest: Seq<char>) -> Seq<char> {
    x + separator() + rest
}

/// The field written for the installation identifier: empty when absent, so
/// that the layout keeps its positions.
pub open spec fn install_field(install_uuid: Option<Seq<char>>) -> Seq<char> {
    match install_uuid {
        Some(u) => u,
        None => Seq::empty(),
    }
}

/// The canonical input: `machine_id::install_uuid::hostname::os::arch`, or
/// `machine_id::::hostname::os::arch` without an installation identifier.
pub open spec fn fingerprint_input(
    machine_id: Seq<char>,
    install_uuid: Option<Seq<char>>,
    hostname: Seq<char>,
    os: Seq<char>,
    arch: Seq<char>,
) -> Seq<char> {
    join(machine_id, join(install_field(install_uuid), join(hostname, join(os, arch))))
}

/// The lowercase hex digit of a value below 16.
pub open spec fn hex_digit(n: int) -> char {
    seq!['0', '1', '2', '3', '4', '5', '6', '7', '8', '9', 'a', 'b', 'c', 'd', 'e', 'f'][n]
}

pub open spec fn is_lower_hex_char(c: char) -> bool {
    ('0' <= c && c <= '9') || ('a' <= c && c <= 'f')
}

pub open spec fn is_lower_hex(s: Seq<char>) -> bool {
    forall|k: int| 0 <= k < s.len() ==> is_lower_hex_char(#[trigger] s[k])
}

/// Two zero-padded lowercase hex digits per byte, in order, with no separator.
pub open spec fn hex_of(bytes: Seq<u8>) -> Seq<char>
    decreases bytes.len(),
{
    if bytes.len() == 0 {
        Seq::empty()
    } else {
        let b = bytes.last();
        hex_of(bytes.drop_last()) + seq![hex_digit(b as int / 16), hex_digit(b as int % 16)]
    }
}

/// The digest of a string, as exposed: lowercase hex of the SHA-256 of its
/// UTF-8 bytes.
pub open spec fn digest_hex(input: Seq<char>) -> Seq<char> {
    hex_of(sha256_of(encode_utf8(input)))
}

/// The fingerprint of a set of identifiers.
pub open spec fn fingerprint_hash(
    machine_id: Seq<char>,
    install_uuid: Option<Seq<char>>,
    hostname: Seq<char>,
    os: Seq<char>,
    arch: Seq<char>,
) -> Seq<char> {
    digest_hex(fingerprint_input(machine_id, install_uuid, hostname, os, arch))
}

pub open spec fn opt_view(o: Option<&str>) -> Option<Seq<char>> {
    match o {
        Some(s) => Some(s@),
        None => None,
    }
}

/// The hex encoding of any bytes has two characters per byte, each a
/// lowercase hex digit.
pub proof fn lemma_hex_of_format(bytes: Seq<u8>)
    ensures
        hex_of(bytes).len() == 2 * bytes.len(),
        is_lower_hex(hex_of(bytes)),
    decreases bytes.len(),
{
    if bytes.len() > 0 {
        lemma_hex_of_format(bytes.drop_last());
        let b = bytes.last();
        let digits = seq!['0', '1', '2', '3', '4', '5', '6', '7', '8', '9', 'a', 'b', 'c', 'd', 'e', 'f'];
        assert forall|n: int| 0 <= n < 16 implies is_lower_hex_char(#[trigger] digits[n]) by {}
        let prev = hex_of(bytes.drop_last());
        let s = hex_of(bytes);
        assert(s == prev + seq![hex_digit(b as int / 16), hex_digit(b as int % 16)]);
        assert forall|k: int| 0 <= k < s.len() implies is_lower_hex_char(#[trigger] s[k]) by {
            if k < prev.len() {
                assert(s[k] == prev[k]);
            } else if k == prev.len() {
                assert(s[k] == digits[b as int / 16]);
            } else {
                assert(s[k] == digits[b as int % 16]);
            }
        }
    }
}

/// A field that holds no `:`, so that separators cannot occur inside it.
pub open spec fn is_plain_field(s: Seq<char>) -> bool {
    forall|k: int| 0 <= k < s.len() ==> #[trigger] s[k] != ':'
}

/// An installation identifier that can be told apart from its absence: a
/// non-empty plain field when present.
pub open spec fn is_plain_install_field(install_uuid: Option<Seq<char>>) -> bool {
    match install_uuid {
        Some(u) => u.len() > 0 && is_plain_field(u),
        None => true,
    }
}

/// A plain field followed by a separator is read back unambiguously.
pub proof fn lemma_join_injective(x1: Seq<char>, r1: Seq<char>, x2: Seq<char>, r2: Seq<char>)
    requires
        is_plain_field(x1),
        is_plain_field(x2),
        join(x1, r1) == join(x2, r2),
    ensures
        x1 == x2,
        r1 == r2,
{
    let s = join(x1, r1);
    assert(s =~= x1 + (separator() + r1));
    assert(s =~= x2 + (separator() + r2));
    if x1.len() < x2.len() {
        assert(s[x1.len() as int] == ':');
        assert(s[x1.len() as int] == x2[x1.len() as int]);
    } else if x2.len() < x1.len() {
        assert(s[x2.len() as int] == ':');
        assert(s[x2.len() as int] == x1[x2.len() as int]);
    }
    assert(x1 =~= s.subrange(0, x1.len() as int));
    assert(x2 =~= s.subrange(0, x2.len() as int));
    assert(r1 =~= s.subrange(x1.len() as int + 2, s.len() as int));
    assert(r2 =~= s.subrange(x2.len() as int + 2, s.len() as int));
}

/// No two distinct sets of plain identifiers share a canonical input: changing
/// any one field (or several) changes the string that is hashed.
pub proof fn lemma_fingerprint_input_injective(
    machine_id1: Seq<char>,
    install_uuid1: Option<Seq<char>>,
    hostname1: Seq<char>,
    os1: Seq<char>,
    arch1: Seq<char>,
    machine_id2: Seq<char>,
    install_uuid2: Option<Seq<char>>,
    hostname2: Seq<char>,
    os2: Seq<char>,
    arch2: Seq<char>,
)
    requires
        is_plain_field(machine_id1),
        is_plain_field(machine_id2),
        is_plain_install_field(install_uuid1),
        is_plain_install_field(install_uuid2),
        is_plain_field(hostname1),
        is_plain_field(hostname2),
        is_plain_field(os1),
        is_plain_field(os2),
        fingerprint_input(machine_id1, install_uuid1, hostname1, os1, arch1)
            == fingerprint_input(machine_id2, install_uuid2, hostname2, os2, arch2),
    ensures
        machine_id1 == machine_id2,
        install_uuid1 == install_uuid2,
        hostname1 == hostname2,
        os1 == os2,
        arch1 == arch2,
{
    let u1 = install_field(install_uuid1);
    let u2 = install_field(install_uuid2);
    assert(is_plain_field(u1));
    assert(is_plain_field(u2));
    lemma_join_injective(
        machine_id1,
        join(u1, join(hostname1, join(os1, arch1))),
        machine_id2,
        join(u2, join(hostname2, join(os2, arch2))),
    );
    lemma_join_injective(u1, join(hostname1, join(os1, arch1)), u2, join(hostname2, join(os2, arch2)));
    lemma_join_injective(hostname1, join(os1, arch1), hostname2, join(os2, arch2));
    lemma_join_injective(os1, arch1, os2, arch2);
}

/// Relies on `sha2::Sha256::digest`: the SHA-256 of the bytes, whose output
/// size is 32 bytes.
#[verifier::external_body]
fn sha256(data: &[u8]) -> (r: Vec<u8>)
    ensures
        r@ == sha256_of(data@),
        r@.len() == 32,
{
    Sha256::digest(data).to_vec()
}

/// The lowercase hex digit of `n`, as a one-character string.
fn hex_digit_str(n: u8) -> (r: &'static str)
    requires
        n < 16,
    ensures
        r@ == seq![hex_digit(n as int)],
{
    proof {
        reveal_strlit("0");
        reveal_strlit("1");
        reveal_strlit("2");
        reveal_strlit("3");
        reveal_strlit("4");
        reveal_strlit("5");
        reveal_strlit("6");
        reveal_strlit("7");
        reveal_strlit("8");
        reveal_strlit("9");
        reveal_strlit("a");
        reveal_strlit("b");
        reveal_strlit("c");
        reveal_strlit("d");
        reveal_strlit("e");
        reveal_strlit("f");
    }
    match n {
        0 => "0",
        1 => "1",
        2 => "2",
        3 => "3",
        4 => "4",
        5 => "5",
        6 => "6",
        7 => "7",
        8 => "8",
        9 => "9",
        10 => "a",
        11 => "b",
        12 => "c",
        13 => "d",
        14 => "e",
        _ => "f",
    }
}

/// Lowercase hex encoding of `bytes`.
pub fn to_lower_hex(bytes: &[u8]) -> (r: String)
    ensures
        r@ == hex_of(bytes@),
{
    let mut r = String::new();
    let mut i: usize = 0;
    while i < bytes.len()
        invariant
            i <= bytes@.len(),
            r@ == hex_of(bytes@.subrange(0, i as int)),
        decreases bytes@.len() - i,
    {
        let b = bytes[i];
        r.append(hex_digit_str(b / 16));
        r.append(hex_digit_str(b % 16));
        assert(bytes@.subrange(0, i as int + 1).drop_last() =~= bytes@.subrange(0, i as int));
        i += 1;
    }
    assert(bytes@.subrange(0, bytes@.len() as int) =~= bytes@);
    r
}

/// Builds the canonical string that is hashed. Fields are written as given,
/// in a fixed order, with `::` between each pair; an absent installation
/// identifier leaves its field empty.
pub fn build_fingerprint_input(
    machine_id: &str,
    install_uuid: Option<&str>,
    hostname: &str,
    os: &str,
    arch: &str,
) -> (r: String)
    ensures
        r@ == fingerprint_input(machine_id@, opt_view(install_uuid), hostname@, os@, arch@),
{
    proof {
        reveal_strlit("::");
    }
    let mut r = machine_id.to_owned();
    r.append("::");
    match install_uuid {
        Some(u) => r.append(u),
        None => {},
    }
    r.append("::");
    r.append(hostname);
    r.append("::");
    r.append(os);
    r.append("::");
    r.append(arch);
    assert(r@ =~= fingerprint_input(machine_id@, opt_view(install_uuid), hostname@, os@, arch@));
    r
}

/// SHA-256 of the UTF-8 bytes of `input`, as 64 lowercase hex characters.
pub fn hash_fingerprint_input(input: &str) -> (r: String)
    ensures
        r@ == digest_hex(input@),
        r@.len() == 64,
        is_lower_hex(r@),
{
    let digest = sha256(input.as_bytes());
    let r = to_lower_hex(digest.as_slice());
    proof {
        lemma_hex_of_format(digest@);
    }
    r
}

/// The device fingerprint of the given identifiers: the digest of their
/// canonical input. It depends on these arguments alone.
pub fn compute_fingerprint_hash(
    machine_id: &str,
    install_uuid: Option<&str>,
    hostname: &str,
    os: &str,
    arch: &str,
) -> (r: String)
    ensures
        r@ == fingerprint_hash(machine_id@, opt_view(install_uuid), hostname@, os@, arch@),
        r@.len() == 64,
        is_lower_hex(r@),
{
    let input = build_fingerprint_input(machine_id, install_uuid, hostname, os, arch);
    hash_fingerprint_input(input.as_str())
}

} // verus!
