use vstd::prelude::*;
use vstd::arithmetic::power::pow;
use ssz_rs::prelude::{List, Merkleized, Node, Vector};

verus! {

#[verifier::external_type_specification]
#[verifier::external_body]
pub struct ExMerkleizationError(ssz_rs::MerkleizationError);

/// The chunk that holds a basic integer: its little-endian bytes, padded with zeros to 32 bytes.
pub open spec fn spec_uint_chunk(x: int) -> Seq<u8> {
    Seq::new(32, |i: int| ((x / pow(256, i as nat)) % 256) as u8)
}

/// The chunk that holds a fixed-length byte string of at most 32 bytes: the bytes, then zeros.
pub open spec fn spec_bytes_chunk(bytes: Seq<u8>) -> Seq<u8> {
    bytes + Seq::new((32 - bytes.len()) as nat, |i: int| 0u8)
}

/// The SSZ root of four 32-byte chunks: the Merkle root of the tree with them as leaves.
pub uninterp spec fn ssz_root_of_chunks(chunks: Seq<Seq<u8>>) -> Seq<u8>;

/// The SSZ hash tree root of a list, bounded by `limit`, of composite values whose roots are `roots`.
pub uninterp spec fn ssz_list_root(limit: nat, roots: Seq<Seq<u8>>) -> Seq<u8>;

/// The SSZ hash tree root of a byte list bounded by `limit`.
pub uninterp spec fn ssz_byte_list_root(limit: nat, bytes: Seq<u8>) -> Seq<u8>;

/// `u64::hash_tree_root` of ssz_rs: the value's eight little-endian bytes, padded with
/// zeros to a 32-byte chunk. It never fails.
#[verifier::external_body]
pub(crate) fn u64_root(x: u64) -> (r: Result<Vec<u8>, ssz_rs::MerkleizationError>)
    ensures
        r is Ok,
        r matches Ok(c) ==> c@ == spec_uint_chunk(x as int),
{
    let mut value = x;
    value.hash_tree_root().map(|node| node.as_ref().to_vec())
}

/// `usize::hash_tree_root` of ssz_rs: the value's little-endian bytes, padded with zeros
/// to a 32-byte chunk. It never fails.
#[verifier::external_body]
pub(crate) fn usize_root(x: usize) -> (r: Result<Vec<u8>, ssz_rs::MerkleizationError>)
    ensures
        r is Ok,
        r matches Ok(c) ==> c@ == spec_uint_chunk(x as int),
{
    let mut value = x;
    value.hash_tree_root().map(|node| node.as_ref().to_vec())
}

/// `Vector::<u8, 20>::hash_tree_root` of ssz_rs on the given twenty bytes: the bytes,
/// padded with zeros to a 32-byte chunk. It never fails.
#[verifier::external_body]
pub(crate) fn address_root(address: &Vec<u8>) -> (r: Result<Vec<u8>, ssz_rs::MerkleizationError>)
    requires
        address@.len() == 20,
    ensures
        r is Ok,
        r matches Ok(c) ==> c@ == spec_bytes_chunk(address@),
{
    let mut value = Vector::<u8, 20>::try_from(address.clone()).expect("twenty bytes");
    value.hash_tree_root().map(|node| node.as_ref().to_vec())
}

/// `<[Node; 4]>::hash_tree_root` of ssz_rs: the Merkle root of the four chunks, which is
/// how a container of four fields is rooted. It never fails; its result is named
/// `ssz_root_of_chunks`.
#[verifier::external_body]
pub(crate) fn root_of_four_chunks(
    a: &Vec<u8>,
    b: &Vec<u8>,
    c: &Vec<u8>,
    d: &Vec<u8>,
) -> (r: Result<Vec<u8>, ssz_rs::MerkleizationError>)
    requires
        a@.len() == 32,
        b@.len() == 32,
        c@.len() == 32,
        d@.len() == 32,
    ensures
        r is Ok,
        r matches Ok(root) ==> root@ == ssz_root_of_chunks(seq![a@, b@, c@, d@]),
        r matches Ok(root) ==> root@.len() == 32,
{
    let mut nodes = [
        Node::try_from(a.as_slice()).expect("32 bytes"),
        Node::try_from(b.as_slice()).expect("32 bytes"),
        Node::try_from(c.as_slice()).expect("32 bytes"),
        Node::try_from(d.as_slice()).expect("32 bytes"),
    ];
    nodes.hash_tree_root().map(|root| root.as_ref().to_vec())
}

/// `List::<Node, N>::hash_tree_root` of ssz_rs: the root of a list, bounded by `N`, of
/// values whose roots are `roots`. It never fails when the list fits its bound; its
/// result is named `ssz_list_root`.
#[verifier::external_body]
pub(crate) fn list_root<const N: usize>(roots: &Vec<Vec<u8>>) -> (r: Result<
    Vec<u8>,
    ssz_rs::MerkleizationError,
>)
    requires
        roots@.len() <= N,
        N <= usize::MAX / 2 + 1,
        forall|i: int| 0 <= i < roots@.len() ==> (#[trigger] roots@[i])@.len() == 32,
    ensures
        r is Ok,
        r matches Ok(root) ==> root@ == ssz_list_root(N as nat, roots@.map_values(|x: Vec<u8>| x@)),
        r matches Ok(root) ==> root@.len() == 32,
{
    let nodes: Vec<Node> = roots.iter().map(|x| Node::try_from(x.as_slice()).expect("32 bytes")).collect();
    let mut list = List::<Node, N>::try_from(nodes).expect("within bound");
    list.hash_tree_root().map(|root| root.as_ref().to_vec())
}

/// `List::<u8, N>::hash_tree_root` of ssz_rs: the root of a byte list bounded by `N`. It
/// never fails when the bytes fit their bound; its result is named `ssz_byte_list_root`.
#[verifier::external_body]
pub(crate) fn byte_list_root<const N: usize>(bytes: &Vec<u8>) -> (r: Result<
    Vec<u8>,
    ssz_rs::MerkleizationError,
>)
    requires
        bytes@.len() <= N,
        N <= usize::MAX - 31,
    ensures
        r is Ok,
        r matches Ok(root) ==> root@ == ssz_byte_list_root(N as nat, bytes@),
        r matches Ok(root) ==> root@.len() == 32,
{
    let mut list = List::<u8, N>::try_from(bytes.clone()).expect("within bound");
    list.hash_tree_root().map(|root| root.as_ref().to_vec())
}

} // verus!
