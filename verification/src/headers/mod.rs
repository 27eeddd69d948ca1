//! Typed views of the headers of one request, and the vendor-specific
//! parameters that both views share.

use crate::error::HeaderId;
use crate::request::{Request, VendorPair};
use crate::text::{apt_str_to_string, present_text};
use vstd::hash_map::StringHashMap;
use vstd::prelude::*;

pub mod recog;
pub mod synth;

pub use recog::RecogHeaders;
pub use synth::SynthHeaders;

verus! {

/// Whether both halves of a pair decode to text.
pub open spec fn decodable(pair: VendorPair) -> bool {
    present_text(pair.name@) is Some && present_text(pair.value@) is Some
}

/// The name under which a decodable pair is filed.
pub open spec fn name_of(pair: VendorPair) -> Seq<char> {
    present_text(pair.name@).unwrap()
}

/// The value that a decodable pair carries.
pub open spec fn value_of(pair: VendorPair) -> Seq<char> {
    present_text(pair.value@).unwrap()
}

/// The mapping that a list of pairs stands for. Pairs are taken in protocol
/// order and a later pair replaces an earlier one of the same name. A pair
/// of which either half does not decode to text contributes nothing.
pub open spec fn pairs_to_map(pairs: Seq<VendorPair>) -> Map<Seq<char>, Seq<char>>
    decreases pairs.len(),
{
    if pairs.len() == 0 {
        Map::empty()
    } else {
        let earlier = pairs_to_map(pairs.drop_last());
        let pair = pairs.last();
        if decodable(pair) {
            earlier.insert(name_of(pair), value_of(pair))
        } else {
            earlier
        }
    }
}

/// The vendor-specific parameters of a request. There are none where no
/// request was handed in, where the presence flag is down, or where the
/// generic header block is unreachable.
pub open spec fn vendor_parameters(request: Option<&Request>) -> Map<Seq<char>, Seq<char>> {
    match request {
        Some(r) => if r.has(HeaderId::VendorSpecificParams) {
            match r.generic_header {
                Some(header) => pairs_to_map(header.vendor_specific_params@),
                None => Map::empty(),
            }
        } else {
            Map::empty()
        },
        None => Map::empty(),
    }
}

/// Absence of vendor parameters is no error: without a request, with the
/// presence flag down, or with the generic header block out of reach, the
/// mapping is empty.
pub proof fn lemma_no_parameters_without_header(request: &Request)
    ensures
        vendor_parameters(None) == Map::<Seq<char>, Seq<char>>::empty(),
        !request.has(HeaderId::VendorSpecificParams) || request.generic_header is None
            ==> vendor_parameters(Some(request)) == Map::<Seq<char>, Seq<char>>::empty(),
{
}

/// An empty parameter list stands for the empty mapping.
pub proof fn lemma_no_pairs_no_parameters()
    ensures
        pairs_to_map(Seq::<VendorPair>::empty()) == Map::<Seq<char>, Seq<char>>::empty(),
{
}

/// A name is in the mapping exactly when some decodable pair of the list
/// carries it.
pub proof fn lemma_parameter_names(pairs: Seq<VendorPair>, name: Seq<char>)
    ensures
        pairs_to_map(pairs).contains_key(name) <==> exists|i: int|
            0 <= i < pairs.len() && decodable(#[trigger] pairs[i]) && name_of(pairs[i]) == name,
    decreases pairs.len(),
{
    if pairs.len() > 0 {
        let earlier = pairs.drop_last();
        lemma_parameter_names(earlier, name);
        let last = pairs.len() - 1;
        if pairs_to_map(pairs).contains_key(name) {
            if decodable(pairs[last]) && name_of(pairs[last]) == name {
            } else {
                let i = choose|i: int|
                    0 <= i < earlier.len() && decodable(#[trigger] earlier[i]) && name_of(
                        earlier[i],
                    ) == name;
                assert(pairs[i] == earlier[i]);
            }
        }
        if exists|i: int|
            0 <= i < pairs.len() && decodable(#[trigger] pairs[i]) && name_of(pairs[i]) == name {
            let i = choose|i: int|
                0 <= i < pairs.len() && decodable(#[trigger] pairs[i]) && name_of(pairs[i])
                    == name;
            if i < last {
                assert(earlier[i] == pairs[i]);
            }
        }
    }
}

/// Last write wins: a decodable pair decides the value of its name unless a
/// later decodable pair carries the same name.
pub proof fn lemma_last_write_wins(pairs: Seq<VendorPair>, i: int)
    requires
        0 <= i < pairs.len(),
        decodable(pairs[i]),
        forall|j: int|
            i < j < pairs.len() && decodable(#[trigger] pairs[j]) ==> name_of(pairs[j])
                != name_of(pairs[i]),
    ensures
        pairs_to_map(pairs).contains_key(name_of(pairs[i])),
        pairs_to_map(pairs)[name_of(pairs[i])] == value_of(pairs[i]),
    decreases pairs.len(),
{
    let last = pairs.len() - 1;
    if i < last {
        let earlier = pairs.drop_last();
        assert(earlier[i] == pairs[i]);
        assert forall|j: int|
            i < j < earlier.len() && decodable(#[trigger] earlier[j]) implies name_of(earlier[j])
            != name_of(earlier[i]) by {
            assert(earlier[j] == pairs[j]);
        }
        lemma_last_write_wins(earlier, i);
    }
}

/// A pair that does not decode leaves no trace: of one such pair and one
/// decodable pair, in either order, only the decodable one is in the
/// mapping.
pub proof fn lemma_only_decodable_pair_remains(undecodable: VendorPair, good: VendorPair)
    requires
        !decodable(undecodable),
        decodable(good),
    ensures
        pairs_to_map(seq![undecodable, good]) == Map::<Seq<char>, Seq<char>>::empty().insert(
            name_of(good),
            value_of(good),
        ),
        pairs_to_map(seq![good, undecodable]) == Map::<Seq<char>, Seq<char>>::empty().insert(
            name_of(good),
            value_of(good),
        ),
{
    let bad_first = seq![undecodable, good];
    let good_first = seq![good, undecodable];
    assert(bad_first.drop_last() =~= seq![undecodable]);
    assert(seq![undecodable].drop_last() =~= Seq::<VendorPair>::empty());
    assert(good_first.drop_last() =~= seq![good]);
    assert(seq![good].drop_last() =~= Seq::<VendorPair>::empty());
    reveal_with_fuel(pairs_to_map, 3);
}

/// Of two decodable pairs with one name, the mapping has a single entry,
/// with the value of the later pair.
pub proof fn lemma_later_pair_replaces_earlier(first: VendorPair, second: VendorPair)
    requires
        decodable(first),
        decodable(second),
        name_of(first) == name_of(second),
    ensures
        pairs_to_map(seq![first, second]) == Map::<Seq<char>, Seq<char>>::empty().insert(
            name_of(second),
            value_of(second),
        ),
{
    let both = seq![first, second];
    assert(both.drop_last() =~= seq![first]);
    assert(seq![first].drop_last() =~= Seq::<VendorPair>::empty());
    reveal_with_fuel(pairs_to_map, 3);
    assert(pairs_to_map(both) =~= Map::<Seq<char>, Seq<char>>::empty().insert(
        name_of(second),
        value_of(second),
    ));
}

/// Whether a table holds exactly the entries of `model`.
pub open spec fn holds_exactly(
    params: StringHashMap<String>,
    model: Map<Seq<char>, Seq<char>>,
) -> bool {
    &&& params@.dom() =~= model.dom()
    &&& forall|name: Seq<char>| #[trigger]
        model.contains_key(name) ==> params@[name]@ == model[name]
}

/// Reads the vendor-specific parameters of a request into a table keyed by
/// name. Absence of parameters is normal and gives an empty table, never an
/// error; a pair that does not decode is skipped and the rest are still
/// read.
pub fn extract_vendor_specific_parameters(request: Option<&Request>) -> (params: StringHashMap<
    String,
>)
    ensures
        holds_exactly(params, vendor_parameters(request)),
{
    let mut params: StringHashMap<String> = StringHashMap::new();
    let request = match request {
        Some(request) => request,
        None => {
            return params;
        },
    };
    if !request.property_check(HeaderId::VendorSpecificParams) {
        return params;
    }
    let header = match &request.generic_header {
        Some(header) => header,
        None => {
            return params;
        },
    };
    let pairs = &header.vendor_specific_params;
    let mut offset: usize = 0;
    while offset < pairs.len()
        invariant
            offset <= pairs@.len(),
            holds_exactly(params, pairs_to_map(pairs@.take(offset as int))),
        decreases pairs@.len() - offset,
    {
        let pair = &pairs[offset];
        let name = apt_str_to_string(&pair.name);
        let value = apt_str_to_string(&pair.value);
        proof {
            let read = pairs@.take(offset + 1);
            assert(read.drop_last() =~= pairs@.take(offset as int));
            assert(read.last() == pairs@[offset as int]);
        }
        match (name, value) {
            (Ok(Some(name)), Ok(Some(value))) => {
                params.insert(name, value);
            },
            _ => {},
        }
        offset += 1;
    }
    proof {
        assert(pairs@.take(offset as int) =~= pairs@);
    }
    params
}

} // verus!
