//! The calls into the `bitcoin` and `uuid` crates that the custody's logic
//! makes, each behind a small trusted wrapper whose contract is stated here.

use vstd::prelude::*;
use vstd::arithmetic::power2::pow2;

verus! {

#[verifier::external_type_specification]
#[verifier::external_body]
pub struct ExAddress(bitcoin::Address);

/// The Bitcoin network a node runs on.
#[derive(PartialEq, Eq, Structural, Clone, Copy, Debug)]
pub enum Network {
    Bitcoin,
    Testnet,
    Signet,
    Regtest,
}

/// What `<bitcoin::Address as FromStr>::from_str` makes of the given text:
/// the address it parses, or the `Debug` text of the error it returns.
pub uninterp spec fn parsed_address(text: Seq<char>) -> Result<bitcoin::Address, Seq<char>>;

/// Parses a Bitcoin address with `<bitcoin::Address as FromStr>::from_str`.
/// Trusted: the result is the address the crate parses from the text, and
/// an error carries the `Debug` text of the crate's error.
#[verifier::external_body]
pub(crate) fn parse_address(text: &str) -> (r: Result<bitcoin::Address, String>)
    ensures
        r is Ok <==> parsed_address(text@) is Ok,
        r matches Ok(a) ==> parsed_address(text@)->Ok_0 == a,
        r matches Err(e) ==> parsed_address(text@)->Err_0 == e@,
{
    match text.parse::<bitcoin::Address>() {
        Ok(a) => Ok(a),
        Err(e) => Err(format!("{:?}", e)),
    }
}

/// What `bitcoin::consensus::encode::deserialize::<bitcoin::Transaction>`
/// makes of the given bytes: the `script_pubkey` bytes of the outputs of the
/// decoded transaction, in order, or the `Debug` text of its error.
pub uninterp spec fn decoded_output_scripts(bytes: Seq<u8>) -> Result<Seq<Seq<u8>>, Seq<char>>;

/// Decodes a raw transaction with `bitcoin::consensus::encode::deserialize`
/// and hands back the output scripts. Trusted: the result equals
/// `decoded_output_scripts` of the bytes.
#[verifier::external_body]
pub(crate) fn decode_output_scripts(bytes: &[u8]) -> (r: Result<Vec<Vec<u8>>, String>)
    ensures
        r is Ok <==> decoded_output_scripts(bytes@) is Ok,
        r matches Ok(v) ==> decoded_output_scripts(bytes@)->Ok_0 == v.deep_view(),
        r matches Err(e) ==> decoded_output_scripts(bytes@)->Err_0 == e@,
{
    match bitcoin::consensus::encode::deserialize::<bitcoin::Transaction>(bytes) {
        Ok(tx) => Ok(tx.output.into_iter().map(|out| out.script_pubkey.into_bytes()).collect()),
        Err(e) => Err(format!("{:?}", e)),
    }
}

/// Whether an output script has the form of a payment to an address:
/// pay-to-pubkey-hash, pay-to-script-hash, or a witness program
/// (version byte `OP_0` or `OP_1`..`OP_16`, then one push of 2 to 40 bytes
/// that fills the rest of the script).
pub open spec fn pays_to_address(s: Seq<u8>) -> bool {
    ||| (s.len() == 25 && s[0] == 0x76 && s[1] == 0xa9 && s[2] == 0x14 && s[23] == 0x88 && s[24]
        == 0xac)
    ||| (s.len() == 23 && s[0] == 0xa9 && s[1] == 0x14 && s[22] == 0x87)
    ||| (4 <= s.len() <= 42 && (s[0] == 0 || (0x51 <= s[0] && s[0] <= 0x60)) && 2 <= s[1] <= 40
        && s.len() - 2 == s[1])
}

/// The text, as `Display` writes it, of the address that
/// `bitcoin::Address::from_script` finds in an output script on a network,
/// or `None` where it finds none.
pub uninterp spec fn script_address(script: Seq<u8>, network: Network) -> Option<Seq<char>>;

/// The address an output script pays to, through
/// `bitcoin::Address::from_script` and the address's `Display`. Trusted:
/// the result equals `script_address`, and it is `Some` exactly on the
/// scripts of the three standard forms (`Payload::from_script` in the
/// crate's source).
#[verifier::external_body]
pub(crate) fn address_of_script(script: &[u8], network: Network) -> (r: Option<String>)
    ensures
        r is Some <==> pays_to_address(script@),
        r is Some <==> script_address(script@, network) is Some,
        r matches Some(t) ==> script_address(script@, network) == Some(t@),
{
    let net = match network {
        Network::Bitcoin => bitcoin::Network::Bitcoin,
        Network::Testnet => bitcoin::Network::Testnet,
        Network::Signet => bitcoin::Network::Signet,
        Network::Regtest => bitcoin::Network::Regtest,
    };
    let script = bitcoin::Script::from(script.to_vec());
    bitcoin::Address::from_script(&script, net).map(|a| a.to_string())
}

/// The hexadecimal digit, lower case, of a value below 16.
pub open spec fn hex_digit(d: int) -> char {
    if d < 10 {
        (48 + d) as char
    } else {
        (87 + d) as char
    }
}

/// The `i`-th hexadecimal digit of a 128-bit value, most significant first.
pub open spec fn uuid_digit(id: u128, i: int) -> char {
    hex_digit((id as int / pow2((4 * (31 - i)) as nat) as int) % 16)
}

/// The text of a UUID as `Display` writes it: its 32 hexadecimal digits,
/// most significant first, lower case, grouped 8-4-4-4-12 by hyphens.
pub open spec fn uuid_text(id: u128) -> Seq<char> {
    let d = Seq::new(32, |i: int| uuid_digit(id, i));
    d.subrange(0, 8) + seq!['-'] + d.subrange(8, 12) + seq!['-'] + d.subrange(12, 16) + seq!['-']
        + d.subrange(16, 20) + seq!['-'] + d.subrange(20, 32)
}

/// The text of a UUID has 36 characters: 32 hexadecimal digits, most
/// significant first, and hyphens at positions 8, 13, 18 and 23.
pub proof fn lemma_uuid_text_shape(id: u128)
    ensures
        uuid_text(id).len() == 36,
        uuid_text(id)[8] == '-',
        uuid_text(id)[13] == '-',
        uuid_text(id)[18] == '-',
        uuid_text(id)[23] == '-',
        uuid_text(id)[0] == uuid_digit(id, 0),
        uuid_text(id)[35] == uuid_digit(id, 31),
{
}

/// The text of the UUID with the given bits, through `uuid::Uuid::from_u128`
/// and `Display`. Trusted: the crate writes the hyphenated lower-case form.
#[verifier::external_body]
pub(crate) fn uuid_to_string(id: u128) -> (s: String)
    ensures
        s@ == uuid_text(id),
{
    uuid::Uuid::from_u128(id).to_string()
}

} // verus!
