//! Party identifiers and positions in peer-ordered lists.
//!
//! At the boundary a party is named by an identifier in `1..=n`. Lists ordered by
//! party are indexed from 0, and a list of a party's peers leaves the party itself
//! out. The conversions between the three live here and nowhere else.

use vstd::prelude::*;

verus! {

/// The identifier of a party: at least 1.
#[derive(Clone, Copy, Debug, PartialEq, Eq)]
pub struct PartyId {
    id: u16,
}

impl View for PartyId {
    type V = int;

    closed spec fn view(&self) -> int {
        self.id as int
    }
}

impl PartyId {
    #[verifier::type_invariant]
    spec fn inv(self) -> bool {
        self.id >= 1
    }

    /// The identifier `raw`, if it is one.
    pub fn new(raw: u16) -> (r: Option<PartyId>)
        ensures
            r is Some <==> raw >= 1,
            r matches Some(p) ==> p@ == raw,
    {
        if raw >= 1 {
            Some(PartyId { id: raw })
        } else {
            None
        }
    }

    /// The identifier as it is written at the boundary.
    pub fn get(&self) -> (r: u16)
        ensures
            r == self@,
            r >= 1,
    {
        proof {
            use_type_invariant(self);
        }
        self.id
    }

    /// The place of this party in a list ordered by party, counted from 0.
    pub fn position(&self) -> (r: u16)
        ensures
            r == self@ - 1,
    {
        proof {
            use_type_invariant(self);
        }
        self.id - 1
    }

    /// The party that stands at `position` in a list ordered by party.
    pub fn at_position(position: u16) -> (r: Option<PartyId>)
        ensures
            r is Some <==> position < u16::MAX,
            r matches Some(p) ==> p@ == position + 1,
    {
        if position < u16::MAX {
            Some(PartyId { id: position + 1 })
        } else {
            None
        }
    }
}

/// Every identifier of `ids` is at least 1.
pub open spec fn all_named(ids: Seq<u16>) -> bool {
    forall|i: int| 0 <= i < ids.len() ==> ids[i] >= 1
}

/// Every identifier of `ids` is one of `1..=n`.
pub open spec fn all_within(ids: Seq<u16>, n: int) -> bool {
    forall|i: int| 0 <= i < ids.len() ==> 1 <= #[trigger] ids[i] <= n
}

/// No identifier occurs twice in `ids`.
pub open spec fn distinct(ids: Seq<u16>) -> bool {
    forall|i: int, j: int| 0 <= i < j < ids.len() ==> ids[i] != ids[j]
}

/// The positions, counted from 0, of the parties `ids`.
pub open spec fn positions_of(ids: Seq<u16>) -> Seq<u16> {
    Seq::new(ids.len(), |i: int| (ids[i] - 1) as u16)
}

/// The position in a list of all `m` signers of the `j`-th peer of the signer at
/// `own`: the list with `own` left out.
pub open spec fn peer_position(j: int, own: int) -> int {
    if j < own {
        j
    } else {
        j + 1
    }
}

/// The positions of the peers of the signer at `own` among `m` signers, in
/// order.
pub open spec fn peers_of(m: int, own: int) -> Seq<usize> {
    Seq::new((m - 1) as nat, |j: int| peer_position(j, own) as usize)
}

/// The positions of all `m` signers, in order.
pub open spec fn everyone_of(m: int) -> Seq<usize> {
    Seq::new(m as nat, |i: int| i as usize)
}

/// The identifiers of all `n` parties, in order.
pub open spec fn all_parties_of(n: int) -> Seq<u16> {
    Seq::new(n as nat, |i: int| (i + 1) as u16)
}

/// `ids` is a signing subset for a key shared among `n` parties with threshold
/// `t`: more than `t` distinct parties of `1..=n`.
pub open spec fn signing_subset(ids: Seq<u16>, t: int, n: int) -> bool {
    &&& ids.len() > t
    &&& all_within(ids, n)
    &&& distinct(ids)
}

/// `ids` names the signers of a session: at least one party, none twice.
pub open spec fn signers_named(ids: Seq<u16>) -> bool {
    &&& ids.len() >= 1
    &&& all_named(ids)
    &&& distinct(ids)
}

/// Whether every identifier of `ids` is one of `1..=n`.
pub fn check_all_within(ids: &Vec<u16>, n: usize) -> (b: bool)
    ensures
        b == all_within(ids@, n as int),
{
    let mut i: usize = 0;
    while i < ids.len()
        invariant
            i <= ids.len(),
            forall|k: int| 0 <= k < i ==> 1 <= #[trigger] ids@[k] <= n,
        decreases ids.len() - i,
    {
        let id: u16 = ids[i];
        if id < 1 || id as usize > n {
            return false;
        }
        i += 1;
    }
    true
}

/// Whether every identifier of `ids` is at least 1.
pub fn check_all_named(ids: &Vec<u16>) -> (b: bool)
    ensures
        b == all_named(ids@),
{
    let mut i: usize = 0;
    while i < ids.len()
        invariant
            i <= ids.len(),
            forall|k: int| 0 <= k < i ==> ids@[k] >= 1,
        decreases ids.len() - i,
    {
        if ids[i] < 1 {
            return false;
        }
        i += 1;
    }
    true
}

/// Whether no identifier occurs twice in `ids`.
pub fn check_distinct(ids: &Vec<u16>) -> (b: bool)
    ensures
        b == distinct(ids@),
{
    let mut j: usize = 0;
    while j < ids.len()
        invariant
            j <= ids.len(),
            forall|a: int, b: int| 0 <= a < b < j ==> ids@[a] != ids@[b],
        decreases ids.len() - j,
    {
        let mut i: usize = 0;
        while i < j
            invariant
                i <= j < ids.len(),
                forall|a: int| 0 <= a < i ==> ids@[a] != ids@[j as int],
            decreases j - i,
        {
            if ids[i] == ids[j] {
                return false;
            }
            i += 1;
        }
        j += 1;
    }
    true
}

/// Whether `ids` is a signing subset for threshold `t` among `n` parties.
pub fn check_signing_subset(ids: &Vec<u16>, t: u16, n: usize) -> (b: bool)
    ensures
        b == signing_subset(ids@, t as int, n as int),
{
    ids.len() > t as usize && check_all_within(ids, n) && check_distinct(ids)
}

/// Whether `ids` names the signers of a session.
pub fn check_signers_named(ids: &Vec<u16>) -> (b: bool)
    ensures
        b == signers_named(ids@),
{
    ids.len() >= 1 && check_all_named(ids) && check_distinct(ids)
}

/// The positions, counted from 0, of the parties `ids`; `None` where one of them
/// is no identifier.
pub fn positions(ids: &Vec<u16>) -> (r: Option<Vec<u16>>)
    ensures
        r is Some <==> all_named(ids@),
        r matches Some(p) ==> p@ == positions_of(ids@),
{
    let mut out: Vec<u16> = Vec::new();
    let mut i: usize = 0;
    while i < ids.len()
        invariant
            i <= ids.len(),
            out@.len() == i,
            forall|k: int| 0 <= k < i ==> ids@[k] >= 1,
            forall|k: int| 0 <= k < i ==> out@[k] == (ids@[k] - 1) as u16,
        decreases ids.len() - i,
    {
        match PartyId::new(ids[i]) {
            Some(p) => {
                out.push(p.position());
            },
            None => {
                return None;
            },
        }
        i += 1;
    }
    assert(out@ =~= positions_of(ids@));
    Some(out)
}

/// The position among all signers of the `j`-th peer of the signer at `own`.
pub fn peer(j: usize, own: usize) -> (r: usize)
    requires
        j < usize::MAX,
    ensures
        r == peer_position(j as int, own as int),
{
    if j < own {
        j
    } else {
        j + 1
    }
}

/// The positions of the peers of the signer at `own` among `m` signers.
pub fn peers(m: usize, own: usize) -> (r: Vec<usize>)
    requires
        own < m,
    ensures
        r@ == peers_of(m as int, own as int),
        r@.len() == m - 1,
        forall|j: int| 0 <= j < m - 1 ==> r@[j] == peer_position(j, own as int),
        forall|j: int| 0 <= j < m - 1 ==> r@[j] < m && r@[j] != own,
{
    let mut out: Vec<usize> = Vec::new();
    let mut j: usize = 0;
    while j < m - 1
        invariant
            own < m,
            j <= m - 1,
            out@.len() == j,
            forall|k: int| 0 <= k < j ==> out@[k] == peer_position(k, own as int),
        decreases m - 1 - j,
    {
        out.push(peer(j, own));
        j += 1;
    }
    assert(out@ =~= peers_of(m as int, own as int));
    out
}

/// The positions of all `m` signers.
pub fn everyone(m: usize) -> (r: Vec<usize>)
    ensures
        r@ == everyone_of(m as int),
        r@.len() == m,
        forall|i: int| 0 <= i < m ==> r@[i] == i,
{
    let mut out: Vec<usize> = Vec::new();
    let mut i: usize = 0;
    while i < m
        invariant
            i <= m,
            out@.len() == i,
            forall|k: int| 0 <= k < i ==> out@[k] == k,
        decreases m - i,
    {
        out.push(i);
        i += 1;
    }
    assert(out@ =~= everyone_of(m as int));
    out
}

/// The identifiers of all `n` parties.
pub fn all_parties(n: u16) -> (r: Vec<u16>)
    ensures
        r@ == all_parties_of(n as int),
        r@.len() == n,
        forall|i: int| 0 <= i < n ==> r@[i] == i + 1,
{
    let mut out: Vec<u16> = Vec::new();
    let mut i: u16 = 0;
    while i < n
        invariant
            i <= n,
            out@.len() == i,
            forall|k: int| 0 <= k < i ==> out@[k] == k + 1,
        decreases n - i,
    {
        out.push(i + 1);
        i += 1;
    }
    assert(out@ =~= all_parties_of(n as int));
    out
}

/// A peer's position is a position among the `m` signers, and never the signer's
/// own.
pub proof fn lemma_peer_excludes_self(j: int, own: int, m: int)
    requires
        0 <= j < m - 1,
        0 <= own < m,
    ensures
        0 <= peer_position(j, own) < m,
        peer_position(j, own) != own,
{
}

/// Two different peers stand at two different positions, in the same order.
pub proof fn lemma_peer_order(j: int, k: int, own: int)
    requires
        j < k,
    ensures
        peer_position(j, own) < peer_position(k, own),
{
}

/// Every signer but the one at `own` is a peer: the peer list leaves out nobody
/// else.
pub proof fn lemma_peer_covers_others(p: int, own: int, m: int) -> (j: int)
    requires
        0 <= p < m,
        0 <= own < m,
        p != own,
    ensures
        0 <= j < m - 1,
        peer_position(j, own) == p,
{
    if p < own {
        p
    } else {
        p - 1
    }
}

/// Positions of distinct identifiers are distinct, and below `n` where the
/// identifiers are within `1..=n`.
pub proof fn lemma_positions(ids: Seq<u16>, n: int)
    requires
        all_within(ids, n),
    ensures
        all_named(ids),
        positions_of(ids).len() == ids.len(),
        forall|i: int| 0 <= i < ids.len() ==> 0 <= #[trigger] positions_of(ids)[i] < n,
        forall|i: int| 0 <= i < ids.len() ==> #[trigger] positions_of(ids)[i] == ids[i] - 1,
        distinct(ids) ==> distinct(positions_of(ids)),
{
    assert forall|i: int| 0 <= i < ids.len() implies ids[i] >= 1 by {
        assert(1 <= ids[i] <= n);
    }
    assert forall|i: int| 0 <= i < ids.len() implies #[trigger] positions_of(ids)[i] == ids[i]
        - 1 && 0 <= positions_of(ids)[i] < n by {
        assert(1 <= ids[i] <= n);
    }
    if distinct(ids) {
        assert forall|i: int, j: int| 0 <= i < j < ids.len() implies positions_of(ids)[i]
            != positions_of(ids)[j] by {
            assert(1 <= ids[i] <= n);
            assert(1 <= ids[j] <= n);
        }
    }
}

/// Parties that are named and distinct are no more than there are identifiers.
pub proof fn lemma_distinct_count(ids: Seq<u16>)
    requires
        all_named(ids),
        distinct(ids),
    ensures
        ids.len() <= u16::MAX,
{
    let ints = Seq::new(ids.len(), |i: int| ids[i] as int);
    assert(ints.no_duplicates()) by {
        assert forall|i: int, j: int|
            0 <= i < ints.len() && 0 <= j < ints.len() && i != j implies ints[i] != ints[j] by {
            if i < j {
                assert(ids[i] != ids[j]);
            } else {
                assert(ids[j] != ids[i]);
            }
        }
    }
    ints.unique_seq_to_set();
    vstd::set_lib::lemma_int_range(1, 65536);
    assert(ints.to_set().subset_of(vstd::set_lib::set_int_range(1, 65536))) by {
        assert forall|x: int| ints.to_set().contains(x) implies vstd::set_lib::set_int_range(
            1,
            65536,
        ).contains(x) by {
            let i = choose|i: int| 0 <= i < ints.len() && ints[i] == x;
            assert(ids[i] >= 1);
        }
    }
    vstd::set_lib::lemma_len_subset(ints.to_set(), vstd::set_lib::set_int_range(1, 65536));
}

/// Positions of named parties are below the greatest identifier, and distinct
/// where the parties are; distinct parties are at most as many as there are
/// identifiers.
pub proof fn lemma_named_positions(ids: Seq<u16>)
    requires
        signers_named(ids),
    ensures
        forall|k: int| 0 <= k < ids.len() ==> #[trigger] positions_of(ids)[k] < u16::MAX,
        distinct(positions_of(ids)),
        ids.len() <= u16::MAX,
{
    lemma_distinct_count(ids);
    assert forall|i: int, j: int| 0 <= i < j < ids.len() implies positions_of(ids)[i]
        != positions_of(ids)[j] by {
        assert(ids[i] >= 1 && ids[j] >= 1);
    }
}

} // verus!
