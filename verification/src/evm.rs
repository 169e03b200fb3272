//! The EVM's gas price and the Ethereum address of the block author.
use vstd::prelude::*;

verus! {

/// Fixed gas price of `1`.
pub struct FixedGasPrice;

impl FixedGasPrice {
    /// Gas price is always one token per gas.
    pub fn min_gas_price() -> (r: u64)
        ensures
            r == 1,
    {
        1
    }
}

/// The Ethereum address of an authority: bytes 4 to 24 of its raw public key.
pub open spec fn spec_author_address(raw_key: Seq<u8>) -> Seq<u8> {
    raw_key.subrange(4, 24)
}

/// Finds the Ethereum address of a block's author from the index of the
/// author among the authorities.
pub struct EthereumFindAuthor;

impl EthereumFindAuthor {
    /// The author's address, where the block names an author: the raw public
    /// key of the authority at `author_index`, bytes 4 to 24.
    pub fn find_author(author_index: Option<u32>, authorities: &Vec<Vec<u8>>) -> (r: Option<
        Vec<u8>,
    >)
        requires
            author_index matches Some(i) ==> i < authorities.len() && authorities[i as int].len()
                >= 24,
        ensures
            author_index is None ==> r is None,
            author_index matches Some(i) ==> r matches Some(a) && a@ == spec_author_address(
                authorities[i as int]@,
            ),
    {
        match author_index {
            Some(i) => {
                let raw = &authorities[i as usize];
                let mut address: Vec<u8> = Vec::new();
                let mut k: usize = 4;
                while k < 24
                    invariant
                        4 <= k <= 24,
                        raw.len() >= 24,
                        address@ == raw@.subrange(4, k as int),
                    decreases 24 - k,
                {
                    address.push(raw[k]);
                    k += 1;
                }
                Some(address)
            },
            None => None,
        }
    }
}

/// Every address found is 20 bytes long, the length of an Ethereum address,
/// and its `k`-th byte is byte `k + 4` of the raw key.
pub proof fn lemma_author_address_length(raw_key: Seq<u8>)
    requires
        raw_key.len() >= 24,
    ensures
        spec_author_address(raw_key).len() == 20,
        forall|k: int| 0 <= k < 20 ==> #[trigger] spec_author_address(raw_key)[k] == raw_key[k + 4],
{
}

} // verus!
