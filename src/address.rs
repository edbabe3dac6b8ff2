use vstd::prelude::*;

verus! {

/// The 32-byte public key that identifies an account: a holder, the minter or the operator.
#[derive(Clone, Copy, Debug)]
pub struct Address {
    pub bytes: [u8; 32],
}

impl View for Address {
    type V = Seq<u8>;

    open spec fn view(&self) -> Seq<u8> {
        self.bytes@
    }
}

impl Address {
    pub fn new(bytes: [u8; 32]) -> (r: Address)
        ensures
            r.bytes == bytes,
    {
        Address { bytes }
    }
}

impl PartialEq for Address {
    fn eq(&self, other: &Address) -> (r: bool)
        ensures
            r == (self@ == other@),
    {
        let mut i: usize = 0;
        while i < 32
            invariant
                i <= 32,
                self@.len() == 32,
                other@.len() == 32,
                forall|j: int| 0 <= j < i ==> self@[j] == other@[j],
            decreases 32 - i,
        {
            if self.bytes[i] != other.bytes[i] {
                return false;
            }
            i = i + 1;
        }
        assert(self@ =~= other@);
        true
    }
}

impl Eq for Address {

}

impl vstd::std_specs::cmp::PartialEqSpecImpl for Address {
    open spec fn obeys_eq_spec() -> bool {
        true
    }

    open spec fn eq_spec(&self, other: &Address) -> bool {
        self@ == other@
    }
}

/// The key that solana-program's `Pubkey::from_str` decodes from a base58 text, or `None` where
/// the text is no key. The decoding depends on the text alone.
pub uninterp spec fn decoded_pubkey(s: Seq<char>) -> Option<Seq<u8>>;

/// Relies on `Pubkey::try_from(&str)` of solana-program (reached through anchor-lang), which
/// decodes base58 into the 32 key bytes and fails on any other text.
#[verifier::external_body]
pub(crate) fn parse_pubkey(s: &str) -> (r: Option<Address>)
    ensures
        match r {
            Some(a) => decoded_pubkey(s@) == Some(a@),
            None => decoded_pubkey(s@) is None,
        },
{
    match anchor_lang::prelude::Pubkey::try_from(s) {
        Ok(k) => Some(Address { bytes: k.to_bytes() }),
        Err(_) => None,
    }
}

} // verus!
