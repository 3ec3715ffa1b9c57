//! The hand-off exchange: the request line and the choice of the descriptor
//! that the daemon's reply carries.
use vstd::prelude::*;

verus! {

/// The literal line that asks the daemon for the PTY master.
pub open spec fn request_line() -> Seq<u8> {
    seq![87u8, 65u8, 84u8, 67u8, 72u8, 10u8]
}

/// The request line `WATCH\n`, as bytes.
pub fn handoff_request() -> (r: Vec<u8>)
    ensures
        r@ == request_line(),
{
    let r: Vec<u8> = vec![87u8, 65u8, 84u8, 67u8, 72u8, 10u8];
    assert(r@ =~= request_line());
    r
}

/// Index of the first control entry that carries at least one descriptor.
pub open spec fn first_carrier(entries: Seq<Option<Seq<i32>>>, i: int) -> bool {
    &&& 0 <= i < entries.len()
    &&& entries[i] is Some
    &&& entries[i]->Some_0.len() > 0
    &&& forall|j: int|
        0 <= j < i ==> !(#[trigger] entries[j] is Some && entries[j]->Some_0.len() > 0)
}

/// The descriptor that the reply hands over, if any: the first descriptor of
/// the first entry that carries one.
pub open spec fn chosen_descriptor(entries: Seq<Option<Seq<i32>>>) -> Option<i32> {
    if exists|i: int| first_carrier(entries, i) {
        let i = choose|i: int| first_carrier(entries, i);
        Some(entries[i]->Some_0[0])
    } else {
        None
    }
}

/// The view of a reply's control entries: `Some(descriptors)` for an entry
/// that passes descriptor rights, `None` for any other kind of entry.
pub open spec fn entries_view(entries: Seq<Option<Vec<i32>>>) -> Seq<Option<Seq<i32>>> {
    entries.map_values(|e: Option<Vec<i32>>| match e {
        Some(v) => Some(v@),
        None => None,
    })
}

/// Takes the first descriptor of the first descriptor-bearing entry of a
/// reply; entries that carry none, and the rest of the reply, are passed over.
pub fn first_descriptor(entries: &Vec<Option<Vec<i32>>>) -> (r: Option<i32>)
    ensures
        r == chosen_descriptor(entries_view(entries@)),
{
    let ghost ev = entries_view(entries@);
    let mut i: usize = 0;
    while i < entries.len()
        invariant
            i <= entries.len(),
            ev == entries_view(entries@),
            forall|j: int| 0 <= j < i ==> !(#[trigger] ev[j] is Some && ev[j]->Some_0.len() > 0),
        decreases entries.len() - i,
    {
        match &entries[i] {
            Some(fds) => {
                if fds.len() > 0 {
                    assert(first_carrier(ev, i as int));
                    proof {
                        let k = choose|k: int| first_carrier(ev, k);
                        if k < i as int {
                        } else if k > i as int {
                            assert(!(ev[i as int] is Some && ev[i as int]->Some_0.len() > 0));
                        }
                    }
                    return Some(fds[0]);
                }
            },
            None => {},
        }
        i += 1;
    }
    assert(!exists|k: int| first_carrier(ev, k));
    None
}

} // verus!
