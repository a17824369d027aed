use vstd::prelude::*;

verus! {

/// Whether some contact source holds a contact: `sources` holds, per source,
/// the number of contacts read, or `None` where reading that source failed.
pub open spec fn any_contacts(sources: Seq<Option<usize>>) -> bool {
    exists|i: int| 0 <= i < sources.len() && (#[trigger] sources[i] matches Some(n) && n > 0)
}

/// Decides whether the user has contacts, from what reading the contact store
/// gave: `None` where its sources could not be listed (a missing or unreadable
/// path). A missing store or a failed source is no error.
pub fn has_contacts(sources: &Option<Vec<Option<usize>>>) -> (r: bool)
    ensures
        sources is None ==> !r,
        sources matches Some(v) ==> r == any_contacts(v@),
{
    match sources {
        None => false,
        Some(v) => {
            let mut i: usize = 0;
            while i < v.len()
                invariant
                    i <= v@.len(),
                    sources matches Some(w) && w@ == v@,
                    forall|j: int| 0 <= j < i ==> !(#[trigger] v@[j] matches Some(n) && n > 0),
                decreases v@.len() - i,
            {
                match v[i] {
                    Some(n) => {
                        if n > 0 {
                            assert(v@[i as int] matches Some(m) && m > 0);
                            assert(any_contacts(v@));
                            return true;
                        }
                    },
                    None => {},
                }
                i += 1;
            }
            assert(!any_contacts(v@));
            false
        },
    }
}

/// Whether gathering may go on with the contact sources that opened, listed
/// primary source first: partial contact data is tolerated, but not the loss
/// of the primary source.
pub fn contact_sources_usable(opened: &Vec<bool>) -> (r: bool)
    ensures
        r == (opened@.len() > 0 && opened@[0]),
{
    opened.len() > 0 && opened[0]
}

} // verus!
