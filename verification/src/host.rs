//! Hosts, and one poll of them: which address stands for each host, which
//! addresses are probed, and how the replies, in whatever order they come,
//! give each host its state.

use crate::views::{places_view, strings_view};
use vstd::prelude::*;

verus! {

/// One monitored host.
#[derive(Debug, Default)]
pub struct Host {
    pub group: String,
    pub host: String,
    pub label: String,
}

/// One reply of the probe: the address that it speaks of, and whether that
/// address answered.
#[derive(Debug)]
pub struct Reply {
    pub addr: String,
    pub reachable: bool,
}

impl View for Reply {
    type V = (Seq<char>, bool);

    open spec fn view(&self) -> (Seq<char>, bool) {
        (self.addr@, self.reachable)
    }
}

/// Why a poll gave no state.
#[derive(Debug, Clone, Copy, PartialEq, Eq)]
pub enum PollError {
    /// The name of the host has no address.
    Resolve,
    /// The probe could not be set up.
    ProbeSession,
}

/// The replies as addresses and answers.
pub open spec fn replies_view(replies: Seq<Reply>) -> Seq<(Seq<char>, bool)> {
    Seq::new(replies.len(), |k: int| replies[k]@)
}

/// The address that stands for a host: the first one of the answer to the
/// lookup of its name; none where the lookup failed or gave no address.
pub open spec fn first_address(answer: Option<Vec<String>>) -> Option<Seq<char>> {
    match answer {
        Some(addrs) => if addrs.len() > 0 {
            Some(addrs[0]@)
        } else {
            None
        },
        None => None,
    }
}

/// For each host, the address that stands for it.
pub open spec fn batch_of(answers: Seq<Option<Vec<String>>>) -> Seq<Option<Seq<char>>> {
    Seq::new(answers.len(), |i: int| first_address(answers[i]))
}

/// The addresses that are probed: one for each host that has one, in the
/// order of the hosts.
pub open spec fn submitted(targets: Seq<Option<Seq<char>>>) -> Seq<Seq<char>>
    decreases targets.len(),
{
    if targets.len() == 0 {
        Seq::empty()
    } else {
        match targets.last() {
            Some(addr) => submitted(targets.drop_last()).push(addr),
            None => submitted(targets.drop_last()),
        }
    }
}

/// Some reply speaks of `addr`.
pub open spec fn answered(addr: Seq<char>, replies: Seq<(Seq<char>, bool)>) -> bool {
    exists|k: int| 0 <= k < replies.len() && (#[trigger] replies[k]).0 == addr
}

/// What the replies say of `addr`: the answer of the last reply that speaks
/// of it, and `false` where none does.
pub open spec fn verdict(addr: Seq<char>, replies: Seq<(Seq<char>, bool)>) -> bool
    decreases replies.len(),
{
    if replies.len() == 0 {
        false
    } else if replies.last().0 == addr {
        replies.last().1
    } else {
        verdict(addr, replies.drop_last())
    }
}

/// The state of a host: `false` without an address, else what the replies
/// say of its address.
pub open spec fn status(target: Option<Seq<char>>, replies: Seq<(Seq<char>, bool)>) -> bool {
    match target {
        Some(addr) => verdict(addr, replies),
        None => false,
    }
}

/// The state of each host, in the order of the hosts.
pub open spec fn statuses(
    targets: Seq<Option<Seq<char>>>,
    replies: Seq<(Seq<char>, bool)>,
) -> Seq<bool> {
    Seq::new(targets.len(), |i: int| status(targets[i], replies))
}

/// The hosts, among the first `upto`, that were probed and of whose address
/// no reply speaks, in the order of the hosts.
pub open spec fn gaps(
    targets: Seq<Option<Seq<char>>>,
    replies: Seq<(Seq<char>, bool)>,
    upto: int,
) -> Seq<int>
    decreases upto,
{
    if upto <= 0 {
        Seq::empty()
    } else {
        let before = gaps(targets, replies, upto - 1);
        match targets[upto - 1] {
            Some(addr) => if answered(addr, replies) {
                before
            } else {
                before.push(upto - 1)
            },
            None => before,
        }
    }
}

/// The replies that speak of `addr` all give the same answer.
pub open spec fn agrees(addr: Seq<char>, replies: Seq<(Seq<char>, bool)>) -> bool {
    forall|j: int, k: int|
        0 <= j < replies.len() && 0 <= k < replies.len() && (#[trigger] replies[j]).0 == addr && (
        #[trigger] replies[k]).0 == addr ==> replies[j].1 == replies[k].1
}

/// Of each address that is probed, the replies that speak of it all give the
/// same answer.
pub open spec fn agree_on(
    targets: Seq<Option<Seq<char>>>,
    replies: Seq<(Seq<char>, bool)>,
) -> bool {
    forall|i: int|
        0 <= i < targets.len() && (#[trigger] targets[i]).is_some() ==> agrees(
            targets[i].unwrap(),
            replies,
        )
}

/// The address that stands for a host, from the answer to the lookup of its
/// name: the first address. A failed lookup, or one without an address, is
/// an error of this host alone.
pub fn resolve(answer: &Option<Vec<String>>) -> (target: Result<String, PollError>)
    ensures
        match first_address(*answer) {
            Some(addr) => target.is_ok() && target.unwrap()@ == addr,
            None => target == Err::<String, PollError>(PollError::Resolve),
        },
{
    match answer {
        Some(addrs) => {
            if addrs.len() > 0 {
                Ok(addrs[0].clone())
            } else {
                Err(PollError::Resolve)
            }
        },
        None => Err(PollError::Resolve),
    }
}

/// Whether some reply speaks of `addr`.
pub fn has_reply(addr: &String, replies: &Vec<Reply>) -> (found: bool)
    ensures
        found == answered(addr@, replies_view(replies@)),
{
    let ghost all = replies_view(replies@);
    let mut k: usize = 0;
    while k < replies.len()
        invariant
            k <= replies.len(),
            all == replies_view(replies@),
            forall|j: int| 0 <= j < k ==> (#[trigger] all[j]).0 != addr@,
        decreases replies.len() - k,
    {
        if replies[k].addr == *addr {
            assert(all[k as int].0 == addr@);
            return true;
        }
        k += 1;
    }
    false
}

/// What the replies say of `addr`.
pub fn correlate(addr: &String, replies: &Vec<Reply>) -> (up: bool)
    ensures
        up == verdict(addr@, replies_view(replies@)),
{
    let ghost all = replies_view(replies@);
    let mut k: usize = replies.len();
    assert(all.take(k as int) == all);
    while k > 0
        invariant
            k <= replies.len(),
            all == replies_view(replies@),
            verdict(addr@, all) == verdict(addr@, all.take(k as int)),
        decreases k,
    {
        k -= 1;
        proof {
            assert(all.take(k + 1).drop_last() == all.take(k as int));
            assert(all.take(k + 1).last() == replies[k as int]@);
        }
        if replies[k].addr == *addr {
            return replies[k].reachable;
        }
    }
    false
}

/// What is said of a host in one line: its address and whether it is up,
/// or that its name has no address.
pub open spec fn info_text(name: Seq<char>, target: Option<Seq<char>>, up: bool) -> Seq<char> {
    match target {
        Some(addr) => addr + " "@ + (if up {
            "up"@
        } else {
            "down"@
        }),
        None => "hostname: "@ + name + " DNS lookup failure"@,
    }
}

/// The group of each host.
pub open spec fn group_names(hosts: Seq<Host>) -> Seq<Seq<char>> {
    Seq::new(hosts.len(), |i: int| hosts[i].group@)
}

/// The groups that occur among `names`, each once, in the order in which
/// they first occur.
pub open spec fn groups_of(names: Seq<Seq<char>>) -> Seq<Seq<char>>
    decreases names.len(),
{
    if names.len() == 0 {
        Seq::empty()
    } else {
        let before = groups_of(names.drop_last());
        if before.contains(names.last()) {
            before
        } else {
            before.push(names.last())
        }
    }
}

/// Whether `name` is among `strings`.
fn holds(strings: &Vec<String>, name: &String) -> (found: bool)
    ensures
        found == strings_view(strings@).contains(name@),
{
    let ghost all = strings_view(strings@);
    let mut i: usize = 0;
    while i < strings.len()
        invariant
            i <= strings.len(),
            all == strings_view(strings@),
            forall|k: int| 0 <= k < i ==> all[k] != name@,
        decreases strings.len() - i,
    {
        if strings[i] == *name {
            assert(all[i as int] == name@);
            return true;
        }
        i += 1;
    }
    false
}

impl Host {
    /// One line on the host: its address and `up` or `down`, as a poll of
    /// this host alone finds it, or the notice that its name has no address.
    pub fn info(host: &Host, answer: &Option<Vec<String>>, replies: &Vec<Reply>) -> (text: String)
        ensures
            text@ == info_text(
                host.host@,
                first_address(*answer),
                status(first_address(*answer), replies_view(replies@)),
            ),
    {
        let mut text = String::new();
        match resolve(answer) {
            Ok(addr) => {
                let up = correlate(&addr, replies);
                text.append(addr.as_str());
                text.append(" ");
                if up {
                    text.append("up");
                    assert(text@ =~= addr@ + " "@ + "up"@);
                } else {
                    text.append("down");
                    assert(text@ =~= addr@ + " "@ + "down"@);
                }
            },
            Err(_) => {
                text.append("hostname: ");
                text.append(host.host.as_str());
                text.append(" DNS lookup failure");
                assert(text@ =~= "hostname: "@ + host.host@ + " DNS lookup failure"@);
            },
        }
        text
    }

    /// The groups of the hosts, each once, in the order in which they first
    /// occur.
    pub fn groups(hosts: &Vec<Host>) -> (groups: Vec<String>)
        ensures
            strings_view(groups@) == groups_of(group_names(hosts@)),
    {
        let ghost names = group_names(hosts@);
        let mut groups: Vec<String> = Vec::new();
        let mut i: usize = 0;
        assert(strings_view(groups@) =~= groups_of(names.take(0)));
        while i < hosts.len()
            invariant
                i <= hosts.len(),
                names == group_names(hosts@),
                strings_view(groups@) == groups_of(names.take(i as int)),
            decreases hosts.len() - i,
        {
            proof {
                assert(names.take(i + 1).drop_last() == names.take(i as int));
                assert(names.take(i + 1).last() == hosts[i as int].group@);
            }
            let ghost before = strings_view(groups@);
            if !holds(&groups, &hosts[i].group) {
                groups.push(hosts[i].group.clone());
                assert(strings_view(groups@) =~= before.push(hosts[i as int].group@));
            }
            i += 1;
        }
        assert(names.take(hosts.len() as int) == names);
        groups
    }
}

/// One poll of a list of hosts: for each host the address that stands for
/// it, if its name has one.
pub struct Poll {
    targets: Vec<Option<String>>,
}

impl View for Poll {
    type V = Seq<Option<Seq<char>>>;

    closed spec fn view(&self) -> Seq<Option<Seq<char>>> {
        Seq::new(
            self.targets.len() as nat,
            |i: int|
                match self.targets[i] {
                    Some(addr) => Some(addr@),
                    None => None,
                },
        )
    }
}

impl Poll {
    /// How long the probe waits for an answer when all hosts are polled, in
    /// milliseconds.
    pub const SWEEP_TIMEOUT_MS: u64 = 1000;

    /// How long the probe waits for an answer when one host is polled, in
    /// milliseconds.
    pub const SINGLE_TIMEOUT_MS: u64 = 500;

    /// The poll of the hosts whose names were looked up with these answers,
    /// one answer for each host and in the order of the hosts.
    pub fn new(answers: &Vec<Option<Vec<String>>>) -> (poll: Poll)
        ensures
            poll@ == batch_of(answers@),
    {
        let mut targets: Vec<Option<String>> = Vec::new();
        let mut i: usize = 0;
        while i < answers.len()
            invariant
                i <= answers.len(),
                targets.len() == i,
                forall|j: int|
                    0 <= j < i ==> (match #[trigger] targets[j] {
                        Some(addr) => Some(addr@),
                        None => None,
                    }) == first_address(answers[j]),
            decreases answers.len() - i,
        {
            match resolve(&answers[i]) {
                Ok(addr) => targets.push(Some(addr)),
                Err(_) => targets.push(None),
            }
            i += 1;
        }
        let poll = Poll { targets };
        assert(poll@ =~= batch_of(answers@));
        poll
    }

    /// The addresses to probe: one for each host that has one, in the order
    /// of the hosts. A host without an address is not probed.
    pub fn targets(&self) -> (addrs: Vec<String>)
        ensures
            strings_view(addrs@) == submitted(self@),
    {
        let mut addrs: Vec<String> = Vec::new();
        let mut i: usize = 0;
        while i < self.targets.len()
            invariant
                i <= self.targets.len(),
                strings_view(addrs@) == submitted(self@.take(i as int)),
            decreases self.targets.len() - i,
        {
            proof {
                assert(self@.take(i + 1).drop_last() == self@.take(i as int));
                assert(self@.take(i + 1).last() == self@[i as int]);
            }
            let ghost before = strings_view(addrs@);
            match &self.targets[i] {
                Some(addr) => {
                    addrs.push(addr.clone());
                    assert(strings_view(addrs@) =~= before.push(addr@));
                },
                None => {},
            }
            i += 1;
        }
        assert(self@.take(self.targets.len() as int) == self@);
        addrs
    }

    /// The state of each host, in the order of the hosts, from the replies
    /// that came, in whatever order they came. A host without an address is
    /// down, and so is one of whose address no reply speaks.
    pub fn poll_all(&self, replies: &Vec<Reply>) -> (states: Vec<bool>)
        ensures
            states@ == statuses(self@, replies_view(replies@)),
            states.len() == self@.len(),
    {
        let mut states: Vec<bool> = Vec::new();
        let mut i: usize = 0;
        while i < self.targets.len()
            invariant
                i <= self.targets.len(),
                states.len() == i,
                forall|j: int|
                    0 <= j < i ==> #[trigger] states[j] == status(
                        self@[j],
                        replies_view(replies@),
                    ),
            decreases self.targets.len() - i,
        {
            let up = match &self.targets[i] {
                Some(addr) => correlate(addr, replies),
                None => false,
            };
            states.push(up);
            i += 1;
        }
        assert(states@ =~= statuses(self@, replies_view(replies@)));
        states
    }

    /// The hosts that were probed and of whose address no reply speaks: the
    /// gap between what was asked and what came back. Each of them is down.
    pub fn unanswered(&self, replies: &Vec<Reply>) -> (places: Vec<usize>)
        ensures
            places_view(places@) == gaps(self@, replies_view(replies@), self@.len() as int),
            forall|k: int|
                0 <= k < places.len() ==> 0 <= #[trigger] places[k] < self@.len() && !statuses(
                    self@,
                    replies_view(replies@),
                )[places[k] as int],
    {
        let ghost all = replies_view(replies@);
        let mut places: Vec<usize> = Vec::new();
        let mut i: usize = 0;
        assert(places_view(places@) =~= gaps(self@, all, 0));
        while i < self.targets.len()
            invariant
                i <= self.targets.len(),
                all == replies_view(replies@),
                places_view(places@) == gaps(self@, all, i as int),
                forall|k: int|
                    0 <= k < places.len() ==> 0 <= #[trigger] places[k] < self@.len() && !status(
                        self@[places[k] as int],
                        all,
                    ),
            decreases self.targets.len() - i,
        {
            let ghost before = places_view(places@);
            match &self.targets[i] {
                Some(addr) => {
                    if !has_reply(addr, replies) {
                        proof {
                            lemma_verdict(addr@, all);
                        }
                        places.push(i);
                        assert(places_view(places@) =~= before.push(i as int));
                    }
                },
                None => {},
            }
            i += 1;
        }
        places
    }

    /// The state of one host: a poll of that host alone.
    pub fn poll(answer: &Option<Vec<String>>, replies: &Vec<Reply>) -> (up: bool)
        ensures
            up == status(first_address(*answer), replies_view(replies@)),
            up == statuses(batch_of(seq![*answer]), replies_view(replies@))[0],
    {
        match resolve(answer) {
            Ok(addr) => correlate(&addr, replies),
            Err(_) => false,
        }
    }
}

/// The last reply that speaks of an address decides: what the replies say
/// of the address is the answer of a reply after which no reply speaks of
/// it.
pub proof fn lemma_last_reply_decides(addr: Seq<char>, replies: Seq<(Seq<char>, bool)>, k: int)
    requires
        0 <= k < replies.len(),
        replies[k].0 == addr,
        forall|j: int| k < j < replies.len() ==> (#[trigger] replies[j]).0 != addr,
    ensures
        verdict(addr, replies) == replies[k].1,
    decreases replies.len(),
{
    if k < replies.len() - 1 {
        let rest = replies.drop_last();
        assert(replies.last() == replies[replies.len() - 1]);
        assert forall|j: int| k < j < rest.len() implies (#[trigger] rest[j]).0 != addr by {
            assert(rest[j] == replies[j]);
        }
        lemma_last_reply_decides(addr, rest, k);
    }
}

/// What the replies say of an address: `false` where no reply speaks of it,
/// else the answer of one of the replies that do; and where the replies
/// that speak of it all give the same answer, that answer.
pub proof fn lemma_verdict(addr: Seq<char>, replies: Seq<(Seq<char>, bool)>)
    ensures
        !answered(addr, replies) ==> !verdict(addr, replies),
        answered(addr, replies) ==> exists|k: int|
            0 <= k < replies.len() && (#[trigger] replies[k]).0 == addr && replies[k].1
                == verdict(addr, replies),
        agrees(addr, replies) ==> forall|k: int|
            0 <= k < replies.len() && (#[trigger] replies[k]).0 == addr ==> replies[k].1
                == verdict(addr, replies),
    decreases replies.len(),
{
    if replies.len() > 0 {
        let rest = replies.drop_last();
        let last = replies.len() - 1;
        lemma_verdict(addr, rest);
        assert(forall|k: int| 0 <= k < rest.len() ==> rest[k] == replies[k]);
        if replies.last().0 == addr {
            assert(replies[last].0 == addr);
        } else {
            if answered(addr, replies) {
                let k = choose|k: int| 0 <= k < replies.len() && (#[trigger] replies[k]).0 == addr;
                assert(rest[k].0 == addr);
                let m = choose|m: int|
                    0 <= m < rest.len() && (#[trigger] rest[m]).0 == addr && rest[m].1 == verdict(
                        addr,
                        rest,
                    );
                assert(replies[m].0 == addr && replies[m].1 == verdict(addr, replies));
            }
            if answered(addr, rest) {
                let k = choose|k: int| 0 <= k < rest.len() && (#[trigger] rest[k]).0 == addr;
                assert(replies[k].0 == addr);
            }
        }
        if agrees(addr, replies) {
            assert(agrees(addr, rest)) by {
                assert forall|j: int, k: int|
                    0 <= j < rest.len() && 0 <= k < rest.len() && (#[trigger] rest[j]).0 == addr
                        && (#[trigger] rest[k]).0 == addr implies rest[j].1 == rest[k].1 by {
                    assert(replies[j].0 == addr && replies[k].0 == addr);
                }
            }
            assert forall|k: int|
                0 <= k < replies.len() && (#[trigger] replies[k]).0 == addr implies replies[k].1
                == verdict(addr, replies) by {
                if replies.last().0 == addr {
                    assert(replies[k].0 == addr && replies[last].0 == addr);
                } else {
                    assert(rest[k].0 == addr);
                }
            }
        }
    }
}

/// What the replies say of an address does not depend on their order, where
/// the replies that speak of it all give the same answer.
pub proof fn lemma_verdict_of_any_order(
    addr: Seq<char>,
    first: Seq<(Seq<char>, bool)>,
    second: Seq<(Seq<char>, bool)>,
)
    requires
        agrees(addr, first),
        first.to_multiset() == second.to_multiset(),
    ensures
        agrees(addr, second),
        answered(addr, first) == answered(addr, second),
        verdict(addr, first) == verdict(addr, second),
{
    first.to_multiset_ensures();
    second.to_multiset_ensures();
    assert forall|k: int| 0 <= k < second.len() implies first.contains(#[trigger] second[k]) by {
        assert(second.contains(second[k]));
        assert(second.to_multiset().count(second[k]) > 0);
        assert(first.to_multiset().count(second[k]) > 0);
    }
    assert forall|k: int| 0 <= k < first.len() implies second.contains(#[trigger] first[k]) by {
        assert(first.contains(first[k]));
        assert(first.to_multiset().count(first[k]) > 0);
        assert(second.to_multiset().count(first[k]) > 0);
    }
    assert(agrees(addr, second)) by {
        assert forall|j: int, k: int|
            0 <= j < second.len() && 0 <= k < second.len() && (#[trigger] second[j]).0 == addr && (
            #[trigger] second[k]).0 == addr implies second[j].1 == second[k].1 by {
            assert(first.contains(second[j]));
            assert(first.contains(second[k]));
            let a = choose|a: int| 0 <= a < first.len() && first[a] == second[j];
            let b = choose|b: int| 0 <= b < first.len() && first[b] == second[k];
            assert(first[a].0 == addr && first[b].0 == addr);
        }
    }
    lemma_verdict(addr, first);
    lemma_verdict(addr, second);
    if answered(addr, first) {
        let k = choose|k: int| 0 <= k < first.len() && (#[trigger] first[k]).0 == addr;
        assert(second.contains(first[k]));
        let m = choose|m: int| 0 <= m < second.len() && second[m] == first[k];
        assert(second[m].0 == addr);
    } else if answered(addr, second) {
        let k = choose|k: int| 0 <= k < second.len() && (#[trigger] second[k]).0 == addr;
        assert(first.contains(second[k]));
        let m = choose|m: int| 0 <= m < first.len() && first[m] == second[k];
        assert(first[m].0 == addr);
    }
}

/// The states line up with the hosts, one for each, and do not depend on the
/// order in which the replies came: two runs of the same replies give every
/// host the same state, where of each address that is probed the replies
/// all give the same answer.
pub proof fn lemma_reply_order_is_irrelevant(
    targets: Seq<Option<Seq<char>>>,
    first: Seq<(Seq<char>, bool)>,
    second: Seq<(Seq<char>, bool)>,
)
    requires
        agree_on(targets, first),
        first.to_multiset() == second.to_multiset(),
    ensures
        statuses(targets, first).len() == targets.len(),
        statuses(targets, first) == statuses(targets, second),
{
    assert forall|i: int| 0 <= i < targets.len() implies status(targets[i], first) == status(
        targets[i],
        second,
    ) by {
        if targets[i].is_some() {
            lemma_verdict_of_any_order(targets[i].unwrap(), first, second);
        }
    }
    assert(statuses(targets, first) =~= statuses(targets, second));
}

/// A host has the answer of a reply that speaks of its address, where the
/// replies that speak of that address all give the same answer: whatever
/// the other hosts are, and whether their names have an address.
pub proof fn lemma_reply_decides(
    targets: Seq<Option<Seq<char>>>,
    i: int,
    replies: Seq<(Seq<char>, bool)>,
    k: int,
)
    requires
        0 <= i < targets.len(),
        0 <= k < replies.len(),
        targets[i] == Some(replies[k].0),
        agrees(replies[k].0, replies),
    ensures
        statuses(targets, replies)[i] == replies[k].1,
{
    lemma_verdict(replies[k].0, replies);
}

/// A host whose name has no address is down, whatever the replies; and
/// whether its name has one changes the state of no other host.
pub proof fn lemma_failed_lookup_is_isolated(
    answers: Seq<Option<Vec<String>>>,
    i: int,
    other: Option<Vec<String>>,
    replies: Seq<(Seq<char>, bool)>,
)
    requires
        0 <= i < answers.len(),
        first_address(answers[i]).is_none(),
    ensures
        statuses(batch_of(answers), replies).len() == answers.len(),
        !statuses(batch_of(answers), replies)[i],
        forall|j: int|
            0 <= j < answers.len() && j != i ==> statuses(batch_of(answers), replies)[j]
                == statuses(batch_of(answers.update(i, other)), replies)[j],
        forall|j: int|
            0 <= j < answers.len() ==> #[trigger] statuses(batch_of(answers), replies)[j]
                == status(first_address(answers[j]), replies),
{
}

/// Two hosts with the same address have the same state.
pub proof fn lemma_same_address_same_state(
    targets: Seq<Option<Seq<char>>>,
    i: int,
    j: int,
    replies: Seq<(Seq<char>, bool)>,
)
    requires
        0 <= i < targets.len(),
        0 <= j < targets.len(),
        targets[i] == targets[j],
    ensures
        statuses(targets, replies)[i] == statuses(targets, replies)[j],
{
}

/// Where only some of the replies came, `got` of `got + rest`: a host of
/// whose address none of them speaks is down, whatever the replies are. And
/// where of each address that is probed the replies all give the same
/// answer, every other host has the state that all the replies would have
/// given it, which is the answer of each reply that came for its address.
pub proof fn lemma_missing_replies(
    targets: Seq<Option<Seq<char>>>,
    got: Seq<(Seq<char>, bool)>,
    rest: Seq<(Seq<char>, bool)>,
)
    ensures
        forall|i: int|
            0 <= i < targets.len() && targets[i].is_some() && !answered(targets[i].unwrap(), got)
                ==> !(#[trigger] statuses(targets, got)[i]),
        agree_on(targets, got + rest) ==> forall|i: int|
            0 <= i < targets.len() && targets[i].is_some() && answered(targets[i].unwrap(), got)
                ==> #[trigger] statuses(targets, got)[i] == statuses(targets, got + rest)[i],
        agree_on(targets, got + rest) ==> forall|i: int, k: int|
            0 <= i < targets.len() && 0 <= k < got.len() && targets[i] == Some(
                (#[trigger] got[k]).0,
            ) ==> #[trigger] statuses(targets, got)[i] == got[k].1,
{
    let all = got + rest;
    assert forall|i: int|
        0 <= i < targets.len() && targets[i].is_some() && !answered(
            targets[i].unwrap(),
            got,
        ) implies !(#[trigger] statuses(targets, got)[i]) by {
        lemma_verdict(targets[i].unwrap(), got);
    }
    if agree_on(targets, all) {
        assert forall|i: int| 0 <= i < targets.len() && targets[i].is_some() implies agrees(
            (#[trigger] targets[i]).unwrap(),
            got,
        ) by {
            let addr = targets[i].unwrap();
            assert(agrees(addr, all));
            assert forall|j: int, k: int|
                0 <= j < got.len() && 0 <= k < got.len() && (#[trigger] got[j]).0 == addr && (
                #[trigger] got[k]).0 == addr implies got[j].1 == got[k].1 by {
                assert(all[j] == got[j] && all[k] == got[k]);
                assert(all[j].0 == addr && all[k].0 == addr);
            }
        }
        assert forall|i: int|
            0 <= i < targets.len() && targets[i].is_some() && answered(
                targets[i].unwrap(),
                got,
            ) implies #[trigger] statuses(targets, got)[i] == statuses(targets, all)[i] by {
            let addr = targets[i].unwrap();
            lemma_verdict(addr, got);
            lemma_verdict(addr, all);
            let k = choose|k: int|
                0 <= k < got.len() && (#[trigger] got[k]).0 == addr && got[k].1 == verdict(
                    addr,
                    got,
                );
            assert(all[k] == got[k]);
            assert(all[k].0 == addr);
        }
        assert forall|i: int, k: int|
            0 <= i < targets.len() && 0 <= k < got.len() && targets[i] == Some(
                (#[trigger] got[k]).0,
            ) implies #[trigger] statuses(targets, got)[i] == got[k].1 by {
            assert(agrees(targets[i].unwrap(), got));
            lemma_verdict(got[k].0, got);
        }
    }
}

/// No group is listed twice, and the groups listed are those that occur.
pub proof fn lemma_groups_of(names: Seq<Seq<char>>)
    ensures
        groups_of(names).no_duplicates(),
        forall|g: Seq<char>| groups_of(names).contains(g) <==> names.contains(g),
    decreases names.len(),
{
    if names.len() > 0 {
        let rest = names.drop_last();
        let before = groups_of(rest);
        lemma_groups_of(rest);
        assert forall|g: Seq<char>| groups_of(names).contains(g) <==> names.contains(g) by {
            if names.contains(g) {
                let k = choose|k: int| 0 <= k < names.len() && names[k] == g;
                if k < rest.len() {
                    assert(rest[k] == g);
                    assert(rest.contains(g));
                    assert(before.contains(g));
                    let m = choose|m: int| 0 <= m < before.len() && before[m] == g;
                    assert(groups_of(names)[m] == g);
                } else if !before.contains(g) {
                    assert(groups_of(names)[before.len() as int] == g);
                }
            }
            if groups_of(names).contains(g) {
                let m = choose|m: int| 0 <= m < groups_of(names).len() && groups_of(names)[m] == g;
                if m < before.len() {
                    assert(before[m] == g);
                    assert(before.contains(g));
                    assert(rest.contains(g));
                    let k = choose|k: int| 0 <= k < rest.len() && rest[k] == g;
                    assert(names[k] == g);
                } else {
                    assert(names[names.len() - 1] == g);
                }
            }
        }
    }
}

} // verus!
