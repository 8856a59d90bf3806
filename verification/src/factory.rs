//! The decisions behind the plugin's CLAP entry point: which factory the host asked for,
//! which descriptor an index selects, which plugin an identifier names, and whether the
//! identifiers of the exported plugins are distinct.
//!
//! The host hands C strings and indices across the FFI boundary; the caller turns them
//! into byte slices (without the terminating nul) before asking these functions.
use vstd::prelude::*;

verus! {

/// The bytes of the CLAP plugin factory identifier, `clap.plugin-factory`.
pub open spec fn plugin_factory_id_bytes() -> Seq<u8> {
    // "clap.plugin-factory"
    seq![
        99u8, 108u8, 97u8, 112u8, 46u8, 112u8, 108u8, 117u8, 103u8, 105u8, 110u8, 45u8, 102u8, 97u8, 99u8, 116u8, 111u8, 114u8, 121u8,
    ]}

/// The identifiers held in `ids`, each as its bytes.
pub open spec fn id_seqs(ids: Seq<Vec<u8>>) -> Seq<Seq<u8>> {
    ids.map_values(|id: Vec<u8>| id@)
}

/// No identifier occurs twice in `ids`.
pub open spec fn all_distinct(ids: Seq<Seq<u8>>) -> bool {
    forall|i: int, j: int| 0 <= i < j < ids.len() ==> ids[i] != ids[j]
}

/// `found` is what a lookup of `requested` among `ids` answers: the first position that
/// holds `requested`, or `None` where no position does.
pub open spec fn is_lookup_result(ids: Seq<Seq<u8>>, requested: Seq<u8>, found: Option<usize>) -> bool {
    match found {
        Some(i) => {
            &&& i < ids.len()
            &&& ids[i as int] == requested
            &&& forall|j: int| 0 <= j < i ==> ids[j] != requested
        },
        None => forall|j: int| 0 <= j < ids.len() ==> ids[j] != requested,
    }
}

/// The identifier that clap-sys exports as `CLAP_PLUGIN_FACTORY_ID`, as its bytes
/// without the terminating nul.
///
/// Trusted: clap-sys defines the constant as the C string `"clap.plugin-factory"`.
#[verifier::external_body]
fn plugin_factory_id() -> (id: Vec<u8>)
    ensures
        id@ == plugin_factory_id_bytes(),
{
    clap_sys::factory::plugin_factory::CLAP_PLUGIN_FACTORY_ID.to_bytes().to_vec()
}

/// Whether two byte strings are equal.
fn bytes_equal(a: &[u8], b: &[u8]) -> (eq: bool)
    ensures
        eq == (a@ == b@),
{
    if a.len() != b.len() {
        return false;
    }
    let mut k: usize = 0;
    while k < a.len()
        invariant
            a@.len() == b@.len(),
            0 <= k <= a@.len(),
            forall|m: int| 0 <= m < k ==> a@[m] == b@[m],
        decreases a@.len() - k,
    {
        if a[k] != b[k] {
            return false;
        }
        k = k + 1;
    }
    assert(a@ =~= b@);
    true
}

/// Whether the host asked for the plugin factory: `requested` is the identifier the
/// host passed to `get_factory`.
pub fn is_plugin_factory_id(requested: &[u8]) -> (is_factory: bool)
    ensures
        is_factory == (requested@ == plugin_factory_id_bytes()),
{
    let id = plugin_factory_id();
    bytes_equal(requested, id.as_slice())
}

/// The descriptor that `index` selects among `count` descriptors, if there is one.
pub fn descriptor_index(count: usize, index: u32) -> (selected: Option<usize>)
    ensures
        selected == (if (index as int) < count { Some(index as usize) } else { None::<usize> }),
{
    let i = index as usize;
    if i < count {
        Some(i)
    } else {
        None
    }
}

/// The position of the plugin whose identifier is `requested`: the first such position
/// among `ids`, or `None` where no plugin has that identifier.
pub fn find_plugin(ids: &Vec<Vec<u8>>, requested: &[u8]) -> (found: Option<usize>)
    ensures
        is_lookup_result(id_seqs(ids@), requested@, found),
{
    let mut k: usize = 0;
    while k < ids.len()
        invariant
            0 <= k <= ids@.len(),
            forall|j: int| 0 <= j < k ==> id_seqs(ids@)[j] != requested@,
        decreases ids@.len() - k,
    {
        if bytes_equal(ids[k].as_slice(), requested) {
            return Some(k);
        }
        k = k + 1;
    }
    None
}

/// Whether no two plugins share an identifier.
pub fn ids_unique(ids: &Vec<Vec<u8>>) -> (unique: bool)
    ensures
        unique == all_distinct(id_seqs(ids@)),
{
    let mut i: usize = 0;
    while i < ids.len()
        invariant
            0 <= i <= ids@.len(),
            forall|p: int, q: int| 0 <= p < q < ids@.len() && p < i ==> id_seqs(ids@)[p] != id_seqs(ids@)[q],
        decreases ids@.len() - i,
    {
        let mut j: usize = i + 1;
        while j < ids.len()
            invariant
                0 <= i < ids@.len(),
                i + 1 <= j <= ids@.len(),
                forall|p: int, q: int| 0 <= p < q < ids@.len() && p < i ==> id_seqs(ids@)[p] != id_seqs(ids@)[q],
                forall|q: int| i < q < j ==> id_seqs(ids@)[i as int] != id_seqs(ids@)[q],
            decreases ids@.len() - j,
        {
            if bytes_equal(ids[i].as_slice(), ids[j].as_slice()) {
                assert(id_seqs(ids@)[i as int] == id_seqs(ids@)[j as int]);
                return false;
            }
            j = j + 1;
        }
        i = i + 1;
    }
    true
}

/// Where the identifiers are distinct, looking up the identifier at position `k` finds
/// position `k`: every exported plugin can be created by its own identifier.
pub proof fn lemma_distinct_ids_are_found(ids: Seq<Seq<u8>>, k: int, found: Option<usize>)
    requires
        all_distinct(ids),
        0 <= k < ids.len(),
        is_lookup_result(ids, ids[k], found),
    ensures
        found == Some(k as usize),
{
    match found {
        Some(i) => {
            if (i as int) < k {
                assert(ids[i as int] != ids[k]);
            } else if (i as int) > k {
                assert(ids[k] != ids[k]);
            }
        },
        None => {
            assert(ids[k] != ids[k]);
        },
    }
}

/// A lookup has one answer: two results of looking up the same identifier agree.
pub proof fn lemma_lookup_is_deterministic(
    ids: Seq<Seq<u8>>,
    requested: Seq<u8>,
    a: Option<usize>,
    b: Option<usize>,
)
    requires
        is_lookup_result(ids, requested, a),
        is_lookup_result(ids, requested, b),
    ensures
        a == b,
{
    match (a, b) {
        (Some(i), Some(j)) => {
            if i < j {
                assert(ids[i as int] == requested);
            } else if j < i {
                assert(ids[j as int] == requested);
            }
        },
        (Some(i), None) => {
            assert(ids[i as int] == requested);
        },
        (None, Some(j)) => {
            assert(ids[j as int] == requested);
        },
        (None, None) => {},
    }
}

} // verus!
