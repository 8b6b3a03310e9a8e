//! NFT identifiers: how one is derived from the output that mints the NFT,
//! how two are ordered, and which of them are worth keeping.

use iota_sdk::types::block::output::OutputId;
use iota_sdk::types::block::payload::transaction::TransactionId;
use vstd::prelude::*;

verus! {

/// The number of bytes of an identifier.
pub const ID_LENGTH: usize = 32;

/// The highest index that an output can have in its transaction.
pub const MAX_OUTPUT_INDEX: u16 = 127;

/// The bytes with which an identifier that is worth keeping begins.
pub const NFT_ID_START_BYTES: [u8; 2] = [0, 0];

/// The identifier of an NFT.
#[derive(Clone, Copy, Debug, PartialEq, Eq)]
pub struct NftId {
    pub bytes: [u8; 32],
}

impl View for NftId {
    type V = Seq<u8>;

    open spec fn view(&self) -> Seq<u8> {
        self.bytes@
    }
}

/// Why no identifier could be derived.
#[derive(Clone, Copy, Debug, PartialEq, Eq, Structural)]
pub enum IdError {
    /// The output index is above `MAX_OUTPUT_INDEX`.
    OutputIndexOutOfRange { index: u16 },
}

/// The SDK's error type for block data.
#[verifier::external_type_specification]
#[verifier::external_body]
pub struct ExBlockError(iota_sdk::types::block::Error);

/// The BLAKE2b-256 digest of an output identifier, which is made of the
/// 32 bytes of the transaction identifier and the output index.
pub uninterp spec fn output_id_digest(transaction_id: Seq<u8>, index: u16) -> Seq<u8>;

/// Calls the SDK's `OutputId::new` and its conversion of an output
/// identifier to an `NftId`.  `OutputId::new` accepts exactly the indices
/// up to 127; the conversion hashes the packed output identifier, and the
/// contract gives that digest its name.
#[verifier::external_body]
fn digest_output_id(transaction_id: &[u8; 32], index: u16) -> (r: Result<
    [u8; 32],
    iota_sdk::types::block::Error,
>)
    ensures
        r is Ok <==> index <= MAX_OUTPUT_INDEX,
        r matches Ok(digest) ==> digest@ == output_id_digest(transaction_id@, index),
{
    let output_id = OutputId::new(TransactionId::new(*transaction_id), index)?;
    Ok(*iota_sdk::types::block::output::NftId::from(&output_id))
}

/// Whether `a` and `b` hold the same bytes before position `k`.
pub open spec fn agree_before(a: Seq<u8>, b: Seq<u8>, k: int) -> bool {
    forall|j: int| 0 <= j < k ==> a[j] == b[j]
}

/// Whether `a` comes before `b` in the order of their bytes, read from the
/// first byte on: at the first position where the two differ, `a` holds
/// the lower byte.
pub open spec fn below(a: Seq<u8>, b: Seq<u8>) -> bool {
    exists|k: int| 0 <= k < ID_LENGTH && #[trigger] agree_before(a, b, k) && a[k] < b[k]
}

/// Whether position `k` of `ids` holds the lowest identifier, and no
/// earlier position holds the same one.
pub open spec fn is_first_lowest(ids: Seq<NftId>, k: int) -> bool {
    &&& 0 <= k < ids.len()
    &&& forall|j: int| 0 <= j < ids.len() ==> !below(#[trigger] ids[j]@, ids[k]@)
    &&& forall|j: int| 0 <= j < k ==> below(ids[k]@, #[trigger] ids[j]@)
}

/// No identifier comes before itself.
pub proof fn lemma_below_irreflexive(a: Seq<u8>)
    ensures
        !below(a, a),
{
}

/// Of two identifiers, at most one comes before the other.
pub proof fn lemma_below_asymmetric(a: Seq<u8>, b: Seq<u8>)
    requires
        below(a, b),
    ensures
        !below(b, a),
{
    let k = choose|k: int| 0 <= k < ID_LENGTH && #[trigger] agree_before(a, b, k) && a[k] < b[k];
    assert forall|m: int| 0 <= m < ID_LENGTH && #[trigger] agree_before(b, a, m) implies !(b[m]
        < a[m]) by {
        if m < k {
            assert(a[m] == b[m]);
        } else if m > k {
            assert(b[k] == a[k]);
        }
    }
}

/// What comes before an identifier comes before all that it comes before.
pub proof fn lemma_below_transitive(a: Seq<u8>, b: Seq<u8>, c: Seq<u8>)
    requires
        below(a, b),
        below(b, c),
    ensures
        below(a, c),
{
    let k = choose|k: int| 0 <= k < ID_LENGTH && #[trigger] agree_before(a, b, k) && a[k] < b[k];
    let m = choose|m: int| 0 <= m < ID_LENGTH && #[trigger] agree_before(b, c, m) && b[m] < c[m];
    let n = if k <= m {
        k
    } else {
        m
    };
    assert(agree_before(a, c, n)) by {
        assert forall|j: int| 0 <= j < n implies a[j] == c[j] by {
            assert(a[j] == b[j]);
            assert(b[j] == c[j]);
        }
    }
    if k < m {
        assert(b[k] == c[k]);
    } else if m < k {
        assert(a[m] == b[m]);
    }
    assert(a[n] < c[n]);
}

/// Two identifiers that agree before position `k` and are not the same
/// differ first at some position from `k` on.
proof fn lemma_first_difference(a: Seq<u8>, b: Seq<u8>, k: int) -> (d: int)
    requires
        a.len() == ID_LENGTH,
        b.len() == ID_LENGTH,
        0 <= k <= ID_LENGTH,
        agree_before(a, b, k),
        a != b,
    ensures
        k <= d < ID_LENGTH,
        agree_before(a, b, d),
        a[d] != b[d],
    decreases ID_LENGTH - k,
{
    if k == ID_LENGTH {
        assert(a =~= b);
        0
    } else if a[k] != b[k] {
        k
    } else {
        assert(agree_before(a, b, k + 1));
        lemma_first_difference(a, b, k + 1)
    }
}

/// Of two different identifiers, one comes before the other.
pub proof fn lemma_below_total(a: Seq<u8>, b: Seq<u8>)
    requires
        a.len() == ID_LENGTH,
        b.len() == ID_LENGTH,
        a != b,
    ensures
        below(a, b) || below(b, a),
{
    let d = lemma_first_difference(a, b, 0);
    if a[d] < b[d] {
        assert(agree_before(a, b, d));
    } else {
        assert(agree_before(b, a, d));
        assert(b[d] < a[d]);
    }
}

/// What comes before `b` comes before everything that does not itself come
/// before `b`.
pub proof fn lemma_below_all_not_below(a: Seq<u8>, b: Seq<u8>, c: Seq<u8>)
    requires
        b.len() == ID_LENGTH,
        c.len() == ID_LENGTH,
        below(a, b),
        !below(c, b),
    ensures
        below(a, c),
{
    if b != c {
        lemma_below_total(b, c);
        lemma_below_transitive(a, b, c);
    }
}

impl NftId {
    /// The identifier with the given bytes.
    pub fn new(bytes: [u8; 32]) -> (r: NftId)
        ensures
            r.bytes == bytes,
    {
        NftId { bytes }
    }

    /// The identifier of the NFT that output `index` of the transaction
    /// `transaction_id` mints.
    pub fn for_output(transaction_id: &[u8; 32], index: u16) -> (r: Result<NftId, IdError>)
        ensures
            r is Ok <==> index <= MAX_OUTPUT_INDEX,
            r matches Ok(id) ==> id@ == output_id_digest(transaction_id@, index),
            r matches Err(e) ==> e == (IdError::OutputIndexOutOfRange { index }),
    {
        match digest_output_id(transaction_id, index) {
            Ok(bytes) => Ok(NftId { bytes }),
            Err(_) => Err(IdError::OutputIndexOutOfRange { index }),
        }
    }

    /// The identifier of the NFT that the first output of the transaction
    /// `transaction_id` mints.
    pub fn for_first_output(transaction_id: &[u8; 32]) -> (r: NftId)
        ensures
            r@ == output_id_digest(transaction_id@, 0),
    {
        match digest_output_id(transaction_id, 0) {
            Ok(bytes) => NftId { bytes },
            Err(_) => unreached(),
        }
    }

    /// Whether this identifier comes before `other`.
    pub fn is_below(&self, other: &NftId) -> (r: bool)
        ensures
            r == below(self@, other@),
    {
        let mut i: usize = 0;
        while i < ID_LENGTH
            invariant
                i <= ID_LENGTH,
                agree_before(self@, other@, i as int),
            decreases ID_LENGTH - i,
        {
            if self.bytes[i] != other.bytes[i] {
                let lower = self.bytes[i] < other.bytes[i];
                proof {
                    if !lower {
                        assert forall|k: int|
                            0 <= k < ID_LENGTH && #[trigger] agree_before(
                                self@,
                                other@,
                                k,
                            ) implies !(self@[k] < other@[k]) by {
                            if k > i {
                                assert(self@[i as int] == other@[i as int]);
                            }
                        }
                    }
                }
                return lower;
            }
            i = i + 1;
        }
        proof {
            lemma_below_irreflexive(self@);
            assert(self@ =~= other@);
        }
        false
    }

    /// Whether this identifier begins with the bytes of `prefix`.
    pub fn starts_with(&self, prefix: &[u8]) -> (r: bool)
        ensures
            r == prefix@.is_prefix_of(self@),
    {
        if prefix.len() > ID_LENGTH {
            return false;
        }
        let mut i: usize = 0;
        while i < prefix.len()
            invariant
                i <= prefix@.len() <= ID_LENGTH,
                forall|j: int| 0 <= j < i ==> self@[j] == prefix@[j],
            decreases prefix@.len() - i,
        {
            if self.bytes[i] != prefix[i] {
                assert(self@.subrange(0, prefix@.len() as int)[i as int] != prefix@[i as int]);
                return false;
            }
            i = i + 1;
        }
        assert(self@.subrange(0, prefix@.len() as int) =~= prefix@);
        true
    }

    /// Whether this identifier is worth keeping: it begins with
    /// `NFT_ID_START_BYTES`.
    pub fn is_sought(&self) -> (r: bool)
        ensures
            r == NFT_ID_START_BYTES@.is_prefix_of(self@),
    {
        let start = NFT_ID_START_BYTES;
        self.starts_with(start.as_slice())
    }
}

/// An identifier is worth keeping exactly when its first two bytes are
/// zero.
pub proof fn lemma_sought_begins_with_zeros(id: Seq<u8>)
    requires
        id.len() == ID_LENGTH,
    ensures
        NFT_ID_START_BYTES@.is_prefix_of(id) <==> id[0] == 0 && id[1] == 0,
{
    let start = NFT_ID_START_BYTES@;
    assert(start.len() == 2 && start[0] == 0 && start[1] == 0);
    if id[0] == 0 && id[1] == 0 {
        assert(id.subrange(0, 2) =~= start);
    } else {
        assert(id.subrange(0, 2)[0] == id[0]);
        assert(id.subrange(0, 2)[1] == id[1]);
    }
}

/// No two positions hold the first of the lowest identifiers.
pub proof fn lemma_first_lowest_is_one(ids: Seq<NftId>, j: int, k: int)
    requires
        is_first_lowest(ids, j),
        is_first_lowest(ids, k),
    ensures
        j == k,
{
    if j < k {
        assert(below(ids[k]@, ids[j]@));
        assert(!below(ids[k]@, ids[j]@));
    } else if k < j {
        assert(below(ids[j]@, ids[k]@));
        assert(!below(ids[j]@, ids[k]@));
    }
}

/// The position of the lowest identifier of `ids`, the first such position
/// where identifiers repeat; `None` where there is no identifier.
pub fn lowest(ids: &Vec<NftId>) -> (r: Option<usize>)
    ensures
        r is None <==> ids@.len() == 0,
        r matches Some(k) ==> is_first_lowest(ids@, k as int),
{
    if ids.len() == 0 {
        return None;
    }
    let mut best: usize = 0;
    let mut i: usize = 1;
    while i < ids.len()
        invariant
            0 <= best < i <= ids@.len(),
            forall|j: int| 0 <= j < i ==> !below(#[trigger] ids@[j]@, ids@[best as int]@),
            forall|j: int| 0 <= j < best ==> below(ids@[best as int]@, #[trigger] ids@[j]@),
        decreases ids@.len() - i,
    {
        if ids[i].is_below(&ids[best]) {
            proof {
                let new = ids@[i as int]@;
                let old_best = ids@[best as int]@;
                assert forall|j: int| 0 <= j < i + 1 implies !below(#[trigger] ids@[j]@, new) by {
                    if j < i {
                        if below(ids@[j]@, new) {
                            lemma_below_transitive(ids@[j]@, new, old_best);
                        }
                    } else {
                        lemma_below_irreflexive(new);
                    }
                }
                assert forall|j: int| 0 <= j < i implies below(new, #[trigger] ids@[j]@) by {
                    lemma_below_all_not_below(new, old_best, ids@[j]@);
                }
            }
            best = i;
        }
        i = i + 1;
    }
    Some(best)
}

} // verus!
