//! Plain values that stand for what the ledger host hands to a contract: addresses, symbols and
//! 32-byte digests. All of them are `Copy`, so a value read from storage can be stored, returned
//! and published without further ceremony.
use vstd::prelude::*;

verus! {

/// Longest text that a [`Sym`] holds, in bytes.
pub const MAX_SYMBOL_LEN: u32 = 32;

/// Whether an address names an account or a contract.
#[derive(Clone, Copy, Debug, PartialEq, Eq, Structural)]
pub enum AddressKind {
    /// A classic account, named by its ed25519 public key.
    Account,
    /// A contract instance, named by its contract id.
    Contract,
}

/// An account or contract of the ledger.
#[derive(Clone, Copy, Debug)]
pub struct Address {
    pub kind: AddressKind,
    /// The account's public key, or the contract's id.
    pub key: [u8; 32],
}

impl PartialEq for Address {
    fn eq(&self, other: &Self) -> (r: bool) {
        if self.kind != other.kind {
            return false;
        }
        let mut i: usize = 0;
        while i < 32
            invariant
                i <= 32,
                self.kind == other.kind,
                forall|j: int| 0 <= j < i ==> self.key[j] == other.key[j],
            decreases 32 - i,
        {
            if self.key[i] != other.key[i] {
                return false;
            }
            i += 1;
        }
        assert(self.key =~= other.key);
        true
    }
}

impl vstd::std_specs::cmp::PartialEqSpecImpl for Address {
    open spec fn obeys_eq_spec() -> bool {
        true
    }

    open spec fn eq_spec(&self, other: &Self) -> bool {
        *self == *other
    }
}

impl Eq for Address {

}

/// A 32-byte digest (attestation hash or code hash). The contract carries digests through and
/// never looks inside one.
#[derive(Clone, Copy, Debug, PartialEq, Eq)]
pub struct Digest {
    pub bytes: [u8; 32],
}

/// A short text of at most [`MAX_SYMBOL_LEN`] bytes; the bytes past `len` are zero.
#[derive(Clone, Copy, Debug, PartialEq, Eq)]
pub struct Sym {
    pub bytes: [u8; 32],
    pub len: u32,
}

impl Sym {
    /// The text of the symbol.
    pub open spec fn text(self) -> Seq<u8> {
        self.bytes@.take(self.len as int)
    }

    /// The length fits, and nothing but zeroes follows the text.
    pub open spec fn wf(self) -> bool {
        &&& self.len <= MAX_SYMBOL_LEN
        &&& forall|i: int| self.len <= i < 32 ==> self.bytes@[i] == 0
    }

    /// The symbol with the given text, or `None` when the text is too long for one.
    pub fn from_bytes(text: &[u8]) -> (r: Option<Sym>)
        ensures
            match r {
                Some(symbol) => symbol.wf() && symbol.text() == text@ && symbol == symbol_of(text@),
                None => text@.len() > MAX_SYMBOL_LEN,
            },
    {
        if text.len() > 32 {
            return None;
        }
        let mut bytes: [u8; 32] = [0u8; 32];
        let mut i: usize = 0;
        while i < text.len()
            invariant
                i <= text.len() <= 32,
                forall|j: int| 0 <= j < i ==> bytes@[j] == text@[j],
                forall|j: int| i <= j < 32 ==> bytes@[j] == 0,
            decreases text.len() - i,
        {
            bytes[i] = text[i];
            i += 1;
        }
        let symbol = Sym { bytes, len: text.len() as u32 };
        assert(symbol.text() =~= text@);
        proof {
            lemma_symbol_determined_by_text(symbol, symbol_of(text@));
        }
        Some(symbol)
    }

    /// Whether the text is empty.
    pub fn is_empty(&self) -> (r: bool)
        requires
            self.wf(),
        ensures
            r == (self.text().len() == 0),
    {
        self.len == 0
    }
}

/// The symbol with the given text.
pub open spec fn symbol_of(text: Seq<u8>) -> Sym {
    choose|symbol: Sym| symbol.wf() && symbol.text() == text
}

/// Two well-formed symbols with the same text are the same symbol.
pub proof fn lemma_symbol_determined_by_text(a: Sym, b: Sym)
    requires
        a.wf(),
        b.wf(),
        a.text() == b.text(),
    ensures
        a == b,
{
    assert(a.text().len() == a.len && b.text().len() == b.len);
    assert forall|i: int| 0 <= i < 32 implies a.bytes@[i] == b.bytes@[i] by {
        if i < a.len {
            assert(a.text()[i] == a.bytes@[i]);
            assert(b.text()[i] == b.bytes@[i]);
        }
    }
    assert(a.bytes =~= b.bytes);
}

} // verus!
