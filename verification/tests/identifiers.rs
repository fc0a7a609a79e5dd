use liquifact_escrow::env::{ContractEnv, LedgerInfo, Storage};
use liquifact_escrow::errors::{EscrowError, Refusal};
use liquifact_escrow::invoice_id::{validate_invoice_id, validate_invoice_id_string, IdText};
use liquifact_escrow::values::{Address, AddressKind, Sym};
use liquifact_escrow::{InvoiceEscrow, LiquifactEscrow};
use soroban_sdk::{Env, String, Symbol};

fn on_host(text: &str) -> Result<Symbol, Refusal> {
    let env = Env::default();
    validate_invoice_id_string(&env, &String::from_str(&env, text))
}

#[test]
fn host_text_becomes_the_same_symbol() {
    let env = Env::default();
    for text in ["A", "INV_1", "inv_2024_000123", "abcdefghijklmnopqrstuvwxyz012345"] {
        let symbol = validate_invoice_id_string(&env, &String::from_str(&env, text)).unwrap();
        assert_eq!(symbol, Symbol::new(&env, text));
        assert_ne!(symbol, Symbol::new(&env, "other"));
    }
}

#[test]
fn host_text_keeps_its_bytes() {
    let env = Env::default();
    for text in ["A", "INV_1", "abcdefghijklmnopqrstuvwxyz012345"] {
        let on_host = String::from_str(&env, text);
        let symbol = IdText::Host(&on_host).validate();
        assert_eq!(symbol, Ok(Sym::from_bytes(text.as_bytes()).unwrap()));
        assert_eq!(symbol, IdText::Plain(text.as_bytes()).validate());
    }
    for text in ["", "INV-7 \u{e9}", "abcdefghijklmnopqrstuvwxyz0123456"] {
        let on_host = String::from_str(&env, text);
        let refusal = IdText::Host(&on_host).validate();
        assert!(refusal.is_err());
        assert_eq!(refusal, IdText::Plain(text.as_bytes()).validate());
    }
}

#[test]
fn bad_host_texts_are_refused() {
    assert_eq!(
        on_host("").map(|_| ()),
        Err(Refusal::Error(EscrowError::InvoiceIdInvalidLength))
    );
    assert_eq!(
        on_host("abcdefghijklmnopqrstuvwxyz0123456").map(|_| ()),
        Err(Refusal::Error(EscrowError::InvoiceIdInvalidLength))
    );
    for text in ["INV-1", "a b", "inv.1", "\u{e9}", "x\u{0}"] {
        assert_eq!(
            on_host(text).map(|_| ()),
            Err(Refusal::Error(EscrowError::InvoiceIdInvalidCharset))
        );
    }
}

#[test]
fn plain_bytes_follow_the_same_rules() {
    assert_eq!(validate_invoice_id(b"INV_1"), Ok(Sym::from_bytes(b"INV_1").unwrap()));
    assert_eq!(
        validate_invoice_id(b""),
        Err(Refusal::Error(EscrowError::InvoiceIdInvalidLength))
    );
    assert_eq!(
        validate_invoice_id(&[b'a'; 33]),
        Err(Refusal::Error(EscrowError::InvoiceIdInvalidLength))
    );
    assert!(validate_invoice_id(&[b'a'; 32]).is_ok());
    assert_eq!(
        validate_invoice_id(b"INV/1"),
        Err(Refusal::Error(EscrowError::InvoiceIdInvalidCharset))
    );
    for b in 0..=255u8 {
        let allowed = b.is_ascii_alphanumeric() || b == b'_';
        assert_eq!(validate_invoice_id(&[b]).is_ok(), allowed);
    }
}

#[test]
fn symbols_hold_up_to_their_limit() {
    assert!(Sym::from_bytes(&[b'a'; 33]).is_none());
    assert!(Sym::from_bytes(b"").unwrap().is_empty());
    assert!(!Sym::from_bytes(b"a").unwrap().is_empty());
}

fn init_on_host(text: &str) -> Result<InvoiceEscrow, Refusal> {
    let host = Env::default();
    let who = Address { kind: AddressKind::Account, key: [1; 32] };
    let mut env = ContractEnv {
        storage: Storage::new(),
        ledger: LedgerInfo { timestamp: 1, sequence: 1 },
        authorized: vec![who],
        contract: Address { kind: AddressKind::Contract, key: [2; 32] },
        contract_balance: 0,
        effects: Vec::new(),
    };
    LiquifactEscrow::init(
        &mut env,
        who,
        &String::from_str(&host, text),
        who,
        100,
        0,
        0,
        who,
        None,
        who,
        None,
        None,
        None,
        None,
        None,
        None,
        None,
        None,
    )
}

#[test]
fn init_takes_the_identifier_from_the_host() {
    let escrow = init_on_host("INV_2024_17").unwrap();
    assert_eq!(escrow.invoice_id, Sym::from_bytes(b"INV_2024_17").unwrap());
    assert_eq!(
        init_on_host("INV 17"),
        Err(Refusal::Error(EscrowError::InvoiceIdInvalidCharset))
    );
    assert_eq!(init_on_host(""), Err(Refusal::Error(EscrowError::InvoiceIdInvalidLength)));
    assert_eq!(
        init_on_host(&"a".repeat(10_000)),
        Err(Refusal::Error(EscrowError::InvoiceIdInvalidLength))
    );
}
