//! Hashes that address accounts and contracts, and their textual forms.

use vstd::prelude::*;
use casper_types::contracts::FromStrError;

verus! {

/// The 32 raw bytes that address a stored contract.
#[derive(Clone, Copy, Debug, PartialEq, Eq)]
pub struct ContractHash {
    pub bytes: [u8; 32],
}

/// The 32 raw bytes that address an account.
#[derive(Clone, Copy, Debug, PartialEq, Eq)]
pub struct AccountHash {
    pub bytes: [u8; 32],
}

/// The 32 raw bytes that address a contract package, the versioned home of a
/// contract.
#[derive(Clone, Copy, Debug, PartialEq, Eq)]
pub struct ContractPackageHash {
    pub bytes: [u8; 32],
}

impl View for ContractHash {
    type V = Seq<u8>;

    open spec fn view(&self) -> Seq<u8> {
        self.bytes@
    }
}

impl View for AccountHash {
    type V = Seq<u8>;

    open spec fn view(&self) -> Seq<u8> {
        self.bytes@
    }
}

/// The lower-case hexadecimal digit for a nibble.
pub open spec fn hex_digit(n: int) -> char {
    if n < 10 {
        (48 + n) as char
    } else {
        (87 + n) as char
    }
}

/// Lower-case base16 text of `bytes`: two digits per byte, high nibble first.
pub open spec fn hex_lower(bytes: Seq<u8>) -> Seq<char> {
    Seq::new(
        2 * bytes.len(),
        |i: int|
            if i % 2 == 0 {
                hex_digit((bytes[i / 2] / 16) as int)
            } else {
                hex_digit((bytes[i / 2] % 16) as int)
            },
    )
}

/// The text that every formatted contract hash starts with.
pub open spec fn contract_prefix() -> Seq<char> {
    seq!['c', 'o', 'n', 't', 'r', 'a', 'c', 't', '-']
}

/// The text that every formatted account hash starts with.
pub open spec fn account_prefix() -> Seq<char> {
    seq!['a', 'c', 'c', 'o', 'u', 'n', 't', '-', 'h', 'a', 's', 'h', '-']
}

/// The formatted text of a contract hash.
pub open spec fn formatted_contract_hash(bytes: Seq<u8>) -> Seq<char> {
    contract_prefix() + hex_lower(bytes)
}

/// The formatted text of an account hash.
pub open spec fn formatted_account_hash(bytes: Seq<u8>) -> Seq<char> {
    account_prefix() + hex_lower(bytes)
}

/// A lower-case hexadecimal digit: `0`..`9` or `a`..`f`.
pub open spec fn is_lower_hex_digit(c: char) -> bool {
    ('0' <= c <= '9') || ('a' <= c <= 'f')
}

/// Text made of lower-case hexadecimal digits only.
pub open spec fn is_lower_hex(s: Seq<char>) -> bool {
    forall|i: int| 0 <= i < s.len() ==> is_lower_hex_digit(#[trigger] s[i])
}

/// A hexadecimal digit of either case.
pub open spec fn is_hex_digit(c: char) -> bool {
    ('0' <= c <= '9') || ('a' <= c <= 'f') || ('A' <= c <= 'F')
}

/// Text made of hexadecimal digits only.
pub open spec fn is_hex(s: Seq<char>) -> bool {
    forall|i: int| 0 <= i < s.len() ==> is_hex_digit(#[trigger] s[i])
}

/// Text with both a lower-case and an upper-case letter digit in it.
pub open spec fn is_mixed_case(s: Seq<char>) -> bool {
    (exists|i: int| 0 <= i < s.len() && 'a' <= #[trigger] s[i] <= 'f')
        && (exists|j: int| 0 <= j < s.len() && 'A' <= #[trigger] s[j] <= 'F')
}

/// The value of a hexadecimal digit.
pub open spec fn hex_value(c: char) -> int {
    if c <= '9' {
        c as int - 48
    } else if c <= 'F' {
        c as int - 55
    } else {
        c as int - 87
    }
}

/// The bytes that base16 text stands for, two digits per byte, high first.
pub open spec fn decode_hex(s: Seq<char>) -> Seq<u8> {
    Seq::new(s.len() / 2, |i: int| (hex_value(s[2 * i]) * 16 + hex_value(s[2 * i + 1])) as u8)
}

/// Whether `casper_types::ContractHash::from_formatted_str` accepts the case
/// of the digits of a text: for digits that mix upper- and lower-case letters,
/// whether their case matches a checksum derived from the Blake2b hash of the
/// bytes that they encode.
pub uninterp spec fn contract_hash_checksum_accepts(s: Seq<char>) -> bool;

/// A text that starts with the contract prefix.
pub open spec fn has_contract_prefix(s: Seq<char>) -> bool {
    s.len() >= 9 && s.take(9) == contract_prefix()
}

/// The contract prefix followed by 64 hexadecimal digits.
pub open spec fn is_contract_text(s: Seq<char>) -> bool {
    s.len() == 73 && has_contract_prefix(s) && is_hex(s.skip(9))
}

/// The contract hash that a text parses to: none unless the text is the
/// prefix `contract-` followed by 64 hexadecimal digits; the bytes that the
/// digits encode where they are all of one case, or where they mix cases and
/// the checksum accepts that; none otherwise.
pub open spec fn contract_hash_from_text(s: Seq<char>) -> Option<Seq<u8>> {
    if !is_contract_text(s) {
        None
    } else if !is_mixed_case(s.skip(9)) || contract_hash_checksum_accepts(s) {
        Some(decode_hex(s.skip(9)))
    } else {
        None
    }
}

#[verifier::external_type_specification]
#[verifier::external_body]
pub struct ExContractFromStrError(casper_types::contracts::FromStrError);

/// `casper_types::ContractHash::to_formatted_string`: the prefix `contract-`
/// followed by the lower-case base16 text of the 32 bytes.
#[verifier::external_body]
pub(crate) fn contract_hash_text(h: &ContractHash) -> (r: String)
    ensures
        r@ == formatted_contract_hash(h@),
{
    casper_types::ContractHash::new(h.bytes).to_formatted_string()
}

/// `casper_types::ContractHash::from_formatted_str`. As its source shows, it
/// refuses a text that is not the prefix `contract-` followed by 64
/// hexadecimal digits (the prefix is stripped, the rest must decode as base16
/// to exactly 32 bytes); what it accepts parses to the bytes that the digits
/// encode; it accepts digits all of one case, and digits of mixed case where
/// its checksum does, which `contract_hash_checksum_accepts` names.
#[verifier::external_body]
fn contract_hash_from_str(s: &str) -> (r: Result<ContractHash, FromStrError>)
    ensures
        !is_contract_text(s@) ==> r is Err,
        (is_contract_text(s@) && !is_mixed_case(s@.skip(9))) ==> r is Ok,
        (is_contract_text(s@) && is_mixed_case(s@.skip(9))) ==> (r is Ok <==> contract_hash_checksum_accepts(s@)),
        r matches Ok(h) ==> h@ == decode_hex(s@.skip(9)),
{
    match casper_types::ContractHash::from_formatted_str(s) {
        Ok(h) => Ok(ContractHash { bytes: h.value() }),
        Err(e) => Err(e),
    }
}

/// A contract hash in text that could not be parsed.
#[derive(Clone, Copy, Debug, PartialEq, Eq)]
pub struct MalformedContractHash;

/// Parses the formatted text of a contract hash, as users and contracts pass
/// it to one another.
pub fn parse_contract_hash(s: &str) -> (r: Result<ContractHash, MalformedContractHash>)
    ensures
        r is Ok <==> contract_hash_from_text(s@) is Some,
        r matches Ok(h) ==> contract_hash_from_text(s@) == Some(h@),
{
    match contract_hash_from_str(s) {
        Ok(h) => Ok(h),
        Err(_) => Err(MalformedContractHash),
    }
}

/// `casper_types::account::AccountHash::to_formatted_string`: the prefix
/// `account-hash-` followed by the lower-case base16 text of the 32 bytes.
#[verifier::external_body]
pub(crate) fn account_hash_text(a: &AccountHash) -> (r: String)
    ensures
        r@ == formatted_account_hash(a@),
{
    casper_types::account::AccountHash::new(a.bytes).to_formatted_string()
}

/// Lower-case base16 text is made of lower-case digits, and decodes back to
/// the bytes it was made from.
pub proof fn lemma_hex_lower_decodes(bytes: Seq<u8>)
    ensures
        is_lower_hex(hex_lower(bytes)),
        is_hex(hex_lower(bytes)),
        !is_mixed_case(hex_lower(bytes)),
        decode_hex(hex_lower(bytes)) =~= bytes,
{
    let t = hex_lower(bytes);
    assert forall|i: int| 0 <= i < t.len() implies is_lower_hex_digit(#[trigger] t[i]) by {
        let b = bytes[i / 2];
        assert(0 <= b / 16 < 16 && 0 <= b % 16 < 16);
    }
    assert forall|i: int| 0 <= i < bytes.len() implies #[trigger] decode_hex(t)[i] == bytes[i] by {
        let b = bytes[i];
        assert((2 * i) / 2 == i && (2 * i + 1) / 2 == i);
        assert((2 * i) % 2 == 0 && (2 * i + 1) % 2 == 1);
        assert(hex_value(hex_digit((b / 16) as int)) == b / 16);
        assert(hex_value(hex_digit((b % 16) as int)) == b % 16);
        assert((b / 16) * 16 + b % 16 == b);
    }
}

/// Parsing the formatted text of a contract hash gives back the same hash.
pub proof fn lemma_contract_hash_text_round_trip(h: ContractHash)
    ensures
        contract_hash_from_text(formatted_contract_hash(h@)) == Some(h@),
{
    let s = formatted_contract_hash(h@);
    lemma_hex_lower_decodes(h@);
    assert(s.take(9) =~= contract_prefix());
    assert(s.skip(9) =~= hex_lower(h@));
}

} // verus!
