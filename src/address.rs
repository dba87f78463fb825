use vstd::bytes::{spec_u64_to_le_bytes, u64_to_le_bytes};
use vstd::prelude::*;
use vstd::slice::slice_to_vec;

verus! {

/// A 32-byte account address: a public key or a program-derived address.
#[derive(Clone, Copy, Debug)]
pub struct Address {
    pub bytes: [u8; 32],
}

impl View for Address {
    type V = Seq<u8>;

    open spec fn view(&self) -> Seq<u8> {
        self.bytes@
    }
}

impl PartialEq for Address {
    fn eq(&self, other: &Address) -> (r: bool) {
        let mut i: usize = 0;
        while i < 32
            invariant
                i <= 32,
                forall|j: int| 0 <= j < i ==> self.bytes[j] == other.bytes[j],
            decreases 32 - i,
        {
            if self.bytes[i] != other.bytes[i] {
                return false;
            }
            i = i + 1;
        }
        assert(self.bytes@ =~= other.bytes@);
        true
    }
}

impl Eq for Address {

}

impl vstd::std_specs::cmp::PartialEqSpecImpl for Address {
    open spec fn obeys_eq_spec() -> bool {
        true
    }

    open spec fn eq_spec(&self, other: &Address) -> bool {
        self@ == other@
    }
}

impl Address {
    pub fn new_from_array(bytes: [u8; 32]) -> (r: Address)
        ensures
            r.bytes == bytes,
    {
        Address { bytes }
    }

    pub fn to_bytes(&self) -> (r: [u8; 32])
        ensures
            r == self.bytes,
    {
        self.bytes
    }
}

/// The address that the host's derivation scheme assigns to a seed list under a
/// program id, or `None` where no address can be derived from them.
pub uninterp spec fn program_address(seeds: Seq<Seq<u8>>, program_id: Seq<u8>) -> Option<Seq<u8>>;

/// Relies on `Pubkey::try_find_program_address`: the derived address is a
/// function of the seeds and the program id alone, and `None` comes back
/// exactly when no address can be derived.
#[verifier::external_body]
fn find_program_address(seeds: &Vec<Vec<u8>>, program_id: &Address) -> (r: Option<Address>)
    ensures
        r is None <==> program_address(seeds@.map_values(|s: Vec<u8>| s@), program_id@) is None,
        r is Some ==> program_address(seeds@.map_values(|s: Vec<u8>| s@), program_id@) == Some(
            r->0@,
        ),
{
    let s: Vec<&[u8]> = seeds.iter().map(|x| x.as_slice()).collect();
    let id = anchor_lang::prelude::Pubkey::new_from_array(program_id.bytes);
    anchor_lang::prelude::Pubkey::try_find_program_address(&s, &id).map(
        |(k, _)| Address { bytes: k.to_bytes() },
    )
}

/// The domain tag that prefixes a poll's seeds.
pub open spec fn poll_tag() -> Seq<u8> {
    seq![0x70u8, 0x6fu8, 0x6cu8, 0x6cu8]
}

/// The seeds of a poll's record: the tag, then the poll id in little-endian order.
pub open spec fn poll_seeds(poll_id: u64) -> Seq<Seq<u8>> {
    seq![poll_tag(), spec_u64_to_le_bytes(poll_id)]
}

/// The seeds of a candidate's record: the poll id in little-endian order, then
/// the UTF-8 bytes of the candidate's name.
pub open spec fn candidate_seeds(poll_id: u64, name: Seq<char>) -> Seq<Seq<u8>> {
    seq![spec_u64_to_le_bytes(poll_id), vstd::utf8::encode_utf8(name)]
}

fn tag_bytes() -> (r: Vec<u8>)
    ensures
        r@ == poll_tag(),
{
    let r: Vec<u8> = vec![0x70u8, 0x6fu8, 0x6cu8, 0x6cu8];
    assert(r@ =~= poll_tag());
    r
}

/// The address of the poll record for `poll_id` under `program_id`.
pub fn poll_address(program_id: &Address, poll_id: u64) -> (r: Option<Address>)
    ensures
        r is None <==> program_address(poll_seeds(poll_id), program_id@) is None,
        r is Some ==> program_address(poll_seeds(poll_id), program_id@) == Some(r->0@),
{
    let seeds: Vec<Vec<u8>> = vec![tag_bytes(), u64_to_le_bytes(poll_id)];
    assert(seeds@.map_values(|s: Vec<u8>| s@) =~= poll_seeds(poll_id));
    find_program_address(&seeds, program_id)
}

/// The address of the record of candidate `name` in poll `poll_id` under
/// `program_id`.
pub fn candidate_address(program_id: &Address, poll_id: u64, name: &String) -> (r: Option<Address>)
    ensures
        r is None <==> program_address(candidate_seeds(poll_id, name@), program_id@) is None,
        r is Some ==> program_address(candidate_seeds(poll_id, name@), program_id@) == Some(
            r->0@,
        ),
{
    let name_str: &str = name.as_str();
    let name_bytes: Vec<u8> = slice_to_vec(name_str.as_bytes());
    assert(name_bytes@ == vstd::utf8::encode_utf8(name@));
    let seeds: Vec<Vec<u8>> = vec![u64_to_le_bytes(poll_id), name_bytes];
    assert(seeds@.map_values(|s: Vec<u8>| s@) =~= candidate_seeds(poll_id, name@));
    find_program_address(&seeds, program_id)
}

} // verus!
