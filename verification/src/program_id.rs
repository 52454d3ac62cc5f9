//! The program identifier as the source stub and the manifest declare it.
//!
//! The source stub declares it on a line `id = "<identifier>"`; the manifest
//! declares it once per network, on lines `<program name> = "<identifier>"`.

use crate::field::{
    extract_field, extracted, FieldError, key_prefix, replace_all_fields, replace_field,
    replaced_all, replaced_first, text_counted, text_read, text_written,
};
use crate::text::{replace_char, replace_in};
use solana_sdk::signer::keypair::Keypair;
use solana_sdk::signer::Signer;
use vstd::prelude::*;

verus! {

/// What the declaration of the identifier in a source stub begins with.
pub open spec fn source_prefix() -> Seq<char> {
    key_prefix("id"@)
}

/// What the declaration of the identifier of `program_name` in a manifest
/// begins with.
pub open spec fn manifest_prefix(program_name: Seq<char>) -> Seq<char> {
    key_prefix(program_name)
}

/// Makes a new identifier: a fresh Ed25519 key pair is drawn by
/// `Keypair::new`, and its public key is printed by `to_string`. Each call
/// gives another, so nothing is claimed of the result.
#[verifier::external_body]
pub fn generate_program_id() -> (r: String) {
    Keypair::new().pubkey().to_string()
}

/// Reads the identifier that a source stub declares.
pub fn extract_program_id_from_lib(content: &str) -> (r: Result<Option<String>, FieldError>)
    ensures
        text_read(r) == extracted(content@, source_prefix()),
{
    extract_field(content, "id")
}

/// Puts `new_program_id` where a source stub declares its identifier.
pub fn update_program_id_in_lib(content: &str, new_program_id: &str) -> (r: Result<
    String,
    FieldError,
>)
    ensures
        text_written(r) == replaced_first(content@, source_prefix(), new_program_id@),
{
    replace_field(content, "id", new_program_id)
}

/// Reads the identifier that a manifest declares for `program_name`.
pub fn extract_program_id_from_toml(content: &str, program_name: &str) -> (r: Result<
    Option<String>,
    FieldError,
>)
    ensures
        text_read(r) == extracted(content@, manifest_prefix(program_name@)),
{
    extract_field(content, program_name)
}

/// Puts `new_program_id` wherever a manifest declares the identifier of
/// `program_name`, and counts the lines it changed.
pub fn update_program_id_in_toml(content: &str, program_name: &str, new_program_id: &str) -> (r:
    Result<(String, usize), FieldError>)
    ensures
        text_counted(r) == replaced_all(
            content@,
            manifest_prefix(program_name@),
            new_program_id@,
        ),
{
    replace_all_fields(content, program_name, new_program_id)
}

/// The program name that goes with a directory name: every hyphen becomes
/// an underscore.
pub fn get_current_program_name(dir_name: &str) -> (r: String)
    ensures
        r@ == replace_char(dir_name@, '-', '_'),
{
    replace_in(dir_name, '-', '_')
}

} // verus!
