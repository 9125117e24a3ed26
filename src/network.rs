//! Decisions about instances' private networks and their removal.
use vstd::prelude::*;
use crate::instance::InstanceSelection;
use crate::layout::NETWORK_NAME;
use crate::text::{join3, strings_view, text_eq, text_starts_with};

verus! {

/// A network must be created only where none of that name exists.
pub open spec fn needs_create(existing: Seq<Seq<char>>, name: Seq<char>) -> bool {
    !existing.contains(name)
}

/// The networks that exist once the create step has run for `name`.
pub open spec fn after_create(existing: Seq<Seq<char>>, name: Seq<char>) -> Seq<Seq<char>> {
    if needs_create(existing, name) {
        existing.push(name)
    } else {
        existing
    }
}

/// The names among `s` that carry `prefix`, in order.
pub open spec fn with_prefix(prefix: Seq<char>, s: Seq<Seq<char>>) -> Seq<Seq<char>>
    decreases s.len(),
{
    if s.len() == 0 {
        Seq::empty()
    } else {
        let rest = with_prefix(prefix, s.drop_last());
        if prefix.is_prefix_of(s.last()) {
            rest.push(s.last())
        } else {
            rest
        }
    }
}

/// What purging removes: the private networks and a directory tree.
pub struct PurgePlan {
    pub networks: Vec<String>,
    pub directory: String,
}

/// Whether the network `network_name` must be created, given the names of
/// the networks that exist.
pub fn network_needs_create(existing: &Vec<String>, network_name: &str) -> (r: bool)
    ensures
        r == needs_create(strings_view(existing@), network_name@),
{
    let ghost names = strings_view(existing@);
    let mut i: usize = 0;
    while i < existing.len()
        invariant
            i <= existing.len(),
            names == strings_view(existing@),
            forall|j: int| 0 <= j < i ==> names[j] != network_name@,
        decreases existing.len() - i,
    {
        if text_eq(existing[i].as_str(), network_name) {
            assert(names[i as int] == network_name@);
            return false;
        }
        i = i + 1;
    }
    true
}

/// Running the create step twice for one name creates the network at most
/// once, and never where it already existed.
pub proof fn lemma_network_create_once(existing: Seq<Seq<char>>, name: Seq<char>)
    ensures
        !needs_create(after_create(existing, name), name),
        after_create(existing, name).contains(name),
        existing.contains(name) ==> !needs_create(existing, name),
        !existing.contains(name) ==> needs_create(existing, name),
{
    if needs_create(existing, name) {
        assert(existing.push(name)[existing.len() as int] == name);
    }
}

/// The networks and the directory that purging `selection` removes: for all
/// instances, every network carrying the instance prefix and the whole
/// storage root; for one, its network and its directory.
pub fn purge_plan(selection: &InstanceSelection, networks: &Vec<String>, root: &str) -> (r: PurgePlan)
    ensures
        selection is All ==> strings_view(r.networks@) == with_prefix(NETWORK_NAME@, strings_view(networks@))
            && r.directory@ == root@,
        selection matches InstanceSelection::One(id) ==> strings_view(r.networks@) == seq![id@]
            && r.directory@ == root@ + "/"@ + id@,
{
    match selection {
        InstanceSelection::All => {
            let ghost names = strings_view(networks@);
            let mut v: Vec<String> = Vec::new();
            let mut i: usize = 0;
            while i < networks.len()
                invariant
                    i <= networks.len(),
                    names == strings_view(networks@),
                    strings_view(v@) == with_prefix(NETWORK_NAME@, names.take(i as int)),
                decreases networks.len() - i,
            {
                assert(names.take(i + 1).drop_last() =~= names.take(i as int));
                assert(names.take(i + 1).last() == networks@[i as int]@);
                if text_starts_with(networks[i].as_str(), NETWORK_NAME) {
                    let x = networks[i].clone();
                    let ghost prev = v@;
                    v.push(x);
                    assert(strings_view(v@) =~= strings_view(prev).push(x@));
                }
                i = i + 1;
            }
            assert(names.take(i as int) =~= names);
            PurgePlan { networks: v, directory: root.to_owned() }
        },
        InstanceSelection::One(id) => {
            let mut v: Vec<String> = Vec::new();
            v.push(id.clone());
            assert(strings_view(v@) =~= seq![id@]);
            PurgePlan { networks: v, directory: join3(root, "/", id.as_str()) }
        },
    }
}

} // verus!
