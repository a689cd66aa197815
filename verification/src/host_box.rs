//! The grid of the hosts: which hosts it shows under a filter, and which
//! host a button stands for.

use crate::host::Host;
use crate::settings::Environment;
use crate::views::places_view;
use vstd::prelude::*;

verus! {

/// The name of each host.
pub open spec fn host_names(hosts: Seq<Host>) -> Seq<Seq<char>> {
    Seq::new(hosts.len(), |i: int| hosts[i].host@)
}

/// `i` is the place of the first host of this name.
pub open spec fn is_first_named(names: Seq<Seq<char>>, name: Seq<char>, i: int) -> bool {
    &&& 0 <= i < names.len()
    &&& names[i] == name
    &&& forall|j: int| 0 <= j < i ==> #[trigger] names[j] != name
}

/// The place of the first host of this name.
pub open spec fn first_named(names: Seq<Seq<char>>, name: Seq<char>) -> int {
    choose|i: int| is_first_named(names, name, i)
}

/// The hosts that the buttons stand for, one button for each of the first
/// `upto` hosts that the filter lets through. Without a filter every host has
/// a button, which stands for it. With one, the hosts of that group have a
/// button, and each stands for the first host of the same name.
pub open spec fn button_ids(hosts: Seq<Host>, filter: Seq<char>, upto: int) -> Seq<int>
    decreases upto,
{
    if upto <= 0 {
        Seq::empty()
    } else {
        let before = button_ids(hosts, filter, upto - 1);
        if filter.len() == 0 {
            before.push(upto - 1)
        } else if hosts[upto - 1].group@ == filter {
            before.push(first_named(host_names(hosts), hosts[upto - 1].host@))
        } else {
            before
        }
    }
}

/// The place of the first host of this name, if there is one.
pub fn position(hosts: &[Host], name: &String) -> (place: Option<usize>)
    ensures
        match place {
            Some(i) => is_first_named(host_names(hosts@), name@, i as int) && i as int
                == first_named(host_names(hosts@), name@),
            None => !host_names(hosts@).contains(name@),
        },
{
    let ghost names = host_names(hosts@);
    let mut i: usize = 0;
    while i < hosts.len()
        invariant
            i <= hosts.len(),
            names == host_names(hosts@),
            forall|j: int| 0 <= j < i ==> #[trigger] names[j] != name@,
        decreases hosts.len() - i,
    {
        if hosts[i].host == *name {
            proof {
                assert(names[i as int] == name@);
                assert(is_first_named(names, name@, i as int));
                let c = first_named(names, name@);
                assert(is_first_named(names, name@, c));
                assert(names[c] == name@);
            }
            return Some(i);
        }
        i += 1;
    }
    None
}

/// The grid of the hosts: it has a fixed number of columns.
#[derive(Debug)]
pub struct HostBox {
    cols: usize,
}

impl View for HostBox {
    type V = nat;

    /// The number of columns.
    closed spec fn view(&self) -> nat {
        self.cols as nat
    }
}

impl HostBox {
    /// A grid of `cols` columns.
    pub fn new(_env: &Environment, cols: usize) -> (host_box: HostBox)
        ensures
            host_box@ == cols,
    {
        HostBox { cols }
    }

    /// The number of columns.
    pub fn cols(&self) -> (cols: usize)
        ensures
            cols == self@,
    {
        self.cols
    }

    /// The host that a button stands for: without a filter the host at the
    /// button's own place `id`, with one the first host named `name`.
    pub fn effective_hid(&self, hosts: &[Host], id: usize, name: &String, filter: &String) -> (hid:
        usize)
        requires
            filter@.len() > 0 ==> host_names(hosts@).contains(name@),
        ensures
            filter@.len() == 0 ==> hid == id,
            filter@.len() > 0 ==> is_first_named(host_names(hosts@), name@, hid as int),
    {
        if filter.as_str().is_empty() {
            id
        } else {
            match position(hosts, name) {
                Some(hid) => hid,
                None => id,
            }
        }
    }

    /// The hosts that the buttons of the grid stand for, in the order of the
    /// buttons.
    pub fn visible(&self, filter: &String, hosts: &[Host]) -> (ids: Vec<usize>)
        ensures
            places_view(ids@) == button_ids(hosts@, filter@, hosts.len() as int),
            forall|k: int| 0 <= k < ids.len() ==> 0 <= #[trigger] ids[k] < hosts.len(),
    {
        let ghost names = host_names(hosts@);
        let unfiltered = filter.as_str().is_empty();
        let mut ids: Vec<usize> = Vec::new();
        let mut i: usize = 0;
        assert(places_view(ids@) =~= button_ids(hosts@, filter@, 0));
        while i < hosts.len()
            invariant
                i <= hosts.len(),
                unfiltered == (filter@.len() == 0),
                names == host_names(hosts@),
                places_view(ids@) == button_ids(hosts@, filter@, i as int),
                forall|k: int| 0 <= k < ids.len() ==> 0 <= #[trigger] ids[k] < hosts.len(),
            decreases hosts.len() - i,
        {
            let ghost before = places_view(ids@);
            if unfiltered {
                ids.push(i);
                assert(places_view(ids@) =~= before.push(i as int));
            } else if hosts[i].group == *filter {
                proof {
                    assert(names[i as int] == hosts[i as int].host@);
                    assert(names.contains(hosts[i as int].host@));
                }
                match position(hosts, &hosts[i].host) {
                    Some(hid) => {
                        ids.push(hid);
                        assert(places_view(ids@) =~= before.push(hid as int));
                    },
                    None => {},
                }
            }
            i += 1;
        }
        ids
    }
}

} // verus!
