//! Invoice identifiers: 1 to 32 bytes out of `[A-Za-z0-9_]`.
use crate::errors::{EscrowError, Refusal};
use crate::guards::{ensure, unless};
use crate::types::MAX_INVOICE_ID_STRING_LEN;
use crate::values::{symbol_of, Sym};
use vstd::prelude::*;

verus! {

/// A text of the ledger host.
#[verifier::external_type_specification]
#[verifier::external_body]
pub struct ExHostString(soroban_sdk::String);

/// A symbol of the ledger host.
#[verifier::external_type_specification]
#[verifier::external_body]
pub struct ExHostSymbol(soroban_sdk::Symbol);

/// A handle of the ledger host.
#[verifier::external_type_specification]
#[verifier::external_body]
pub struct ExHostEnv(soroban_sdk::Env);

/// The bytes that a host text holds.
pub uninterp spec fn host_string_bytes(s: soroban_sdk::String) -> Seq<u8>;

/// The bytes that a host symbol holds.
pub uninterp spec fn host_symbol_bytes(s: soroban_sdk::Symbol) -> Seq<u8>;

/// Calls `soroban_sdk::String::len`, which counts the bytes of the text.
#[verifier::external_body]
fn host_string_len(s: &soroban_sdk::String) -> (len: u32)
    ensures
        len == host_string_bytes(*s).len(),
{
    s.len()
}

/// Calls `soroban_sdk::String::copy_into_slice`, which overwrites the buffer with the bytes of the
/// text and panics on a buffer of another length.
#[verifier::external_body]
fn host_string_copy(s: &soroban_sdk::String, buf: &mut Vec<u8>)
    requires
        old(buf)@.len() == host_string_bytes(*s).len(),
    ensures
        final(buf)@ == host_string_bytes(*s),
{
    s.copy_into_slice(buf)
}

/// Calls `soroban_sdk::Symbol::new`, which makes a symbol of the given text and panics on a text
/// longer than 32 bytes or with a byte outside `[A-Za-z0-9_]`.
#[verifier::external_body]
fn host_symbol_new(env: &soroban_sdk::Env, text: &Vec<u8>) -> (symbol: soroban_sdk::Symbol)
    requires
        text@.len() <= 32,
        forall|i: int| 0 <= i < text@.len() ==> is_id_byte(#[trigger] text@[i]),
    ensures
        host_symbol_bytes(symbol) == text@,
{
    soroban_sdk::Symbol::new(env, core::str::from_utf8(text).unwrap())
}

/// Whether `b` may stand in an identifier.
pub open spec fn is_id_byte(b: u8) -> bool {
    ||| 0x41 <= b <= 0x5a
    ||| 0x61 <= b <= 0x7a
    ||| 0x30 <= b <= 0x39
    ||| b == 0x5f
}

/// What is wrong with an identifier.
pub open spec fn invoice_id_fault(id: Seq<u8>) -> Option<EscrowError> {
    if !(1 <= id.len() <= MAX_INVOICE_ID_STRING_LEN) {
        Some(EscrowError::InvoiceIdInvalidLength)
    } else if exists|i: int| 0 <= i < id.len() && !is_id_byte(#[trigger] id[i]) {
        Some(EscrowError::InvoiceIdInvalidCharset)
    } else {
        None
    }
}

/// Refuses an identifier with a fault.
pub fn check_invoice_id(id: &[u8]) -> (r: Result<(), Refusal>)
    ensures
        r == unless(invoice_id_fault(id@)),
{
    let len: usize = id.len();
    ensure(
        1 <= len && len <= MAX_INVOICE_ID_STRING_LEN as usize,
        EscrowError::InvoiceIdInvalidLength,
    )?;
    let mut i: usize = 0;
    while i < len
        invariant
            i <= len,
            len == id@.len(),
            1 <= len <= MAX_INVOICE_ID_STRING_LEN,
            forall|j: int| 0 <= j < i ==> is_id_byte(#[trigger] id@[j]),
        decreases len - i,
    {
        let b: u8 = id[i];
        let ok = (b >= 0x41 && b <= 0x5a) || (b >= 0x61 && b <= 0x7a) || (b >= 0x30 && b <= 0x39)
            || b == 0x5f;
        assert(ok == is_id_byte(id@[i as int]));
        ensure(ok, EscrowError::InvoiceIdInvalidCharset)?;
        i += 1;
    }
    Ok(())
}

/// The symbol for a valid identifier.
pub fn validate_invoice_id(id: &[u8]) -> (r: Result<Sym, Refusal>)
    ensures
        r == (match invoice_id_fault(id@) {
            None => Ok::<Sym, Refusal>(symbol_of(id@)),
            Some(error) => Err(Refusal::Error(error)),
        }),
{
    check_invoice_id(id)?;
    match Sym::from_bytes(id) {
        Some(symbol) => Ok(symbol),
        None => Err(Refusal::Error(EscrowError::InvoiceIdInvalidLength)),
    }
}

/// The bytes of a host text.
fn host_string_to_bytes(s: &soroban_sdk::String) -> (bytes: Vec<u8>)
    ensures
        bytes@ == host_string_bytes(*s),
{
    let len: u32 = host_string_len(s);
    let mut bytes: Vec<u8> = Vec::new();
    let mut i: u32 = 0;
    while i < len
        invariant
            i <= len,
            bytes@.len() == i,
        decreases len - i,
    {
        bytes.push(0u8);
        i += 1;
    }
    host_string_copy(s, &mut bytes);
    bytes
}

/// The text of an identifier, as the ledger host holds it or as plain bytes.
pub enum IdText<'a> {
    Host(&'a soroban_sdk::String),
    Plain(&'a [u8]),
}

impl<'a> IdText<'a> {
    /// The bytes of the text.
    pub open spec fn bytes(self) -> Seq<u8> {
        match self {
            IdText::Host(text) => host_string_bytes(*text),
            IdText::Plain(text) => text@,
        }
    }

    /// The symbol for a valid identifier. A host text is copied only where its length is allowed.
    pub fn validate(&self) -> (r: Result<Sym, Refusal>)
        ensures
            r == (match invoice_id_fault(self.bytes()) {
                None => Ok::<Sym, Refusal>(symbol_of(self.bytes())),
                Some(error) => Err(Refusal::Error(error)),
            }),
    {
        match self {
            IdText::Host(text) => {
                let len: u32 = host_string_len(text);
                ensure(
                    1 <= len && len <= MAX_INVOICE_ID_STRING_LEN,
                    EscrowError::InvoiceIdInvalidLength,
                )?;
                let bytes = host_string_to_bytes(text);
                validate_invoice_id(bytes.as_slice())
            },
            IdText::Plain(text) => validate_invoice_id(text),
        }
    }
}

/// The host symbol for a valid identifier given as a host text.
pub fn validate_invoice_id_string(
    env: &soroban_sdk::Env,
    invoice_id: &soroban_sdk::String,
) -> (r: Result<soroban_sdk::Symbol, Refusal>)
    ensures
        match (r, invoice_id_fault(host_string_bytes(*invoice_id))) {
            (Ok(symbol), None) => host_symbol_bytes(symbol) == host_string_bytes(*invoice_id),
            (Err(why), Some(error)) => why == Refusal::Error(error),
            _ => false,
        },
{
    let len: u32 = host_string_len(invoice_id);
    ensure(1 <= len && len <= MAX_INVOICE_ID_STRING_LEN, EscrowError::InvoiceIdInvalidLength)?;
    let bytes = host_string_to_bytes(invoice_id);
    check_invoice_id(bytes.as_slice())?;
    Ok(host_symbol_new(env, &bytes))
}

} // verus!
