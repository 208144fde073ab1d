//! The answer of a server's GeoAPI, and how it is checked against an order that
//! the caller expects.

use vstd::prelude::*;
use crate::errors::ScrapeError;
use crate::models::generic::Hostname;
use crate::text::{
    chars_of, decimal, decimal_string, parse_int, parse_int_chars, split, split_chars, trim,
    trim_chars, views, IntErrorKind,
};

verus! {

/// A query to the GeoAPI of a server: the candidate hosts that were sent, in
/// order, and the answer. Each number of the answer is a place in the list of
/// candidates; the answer lists the candidates from the nearest to the farthest.
/// An answer that was never asked for is empty.
#[derive(Debug, PartialEq)]
pub struct GeoapiServerQuery {
    pub hostname: Hostname,
    pub geoapi_hosts: Vec<Hostname>,
    pub response: Vec<u32>,
}

impl Clone for GeoapiServerQuery {
    fn clone(&self) -> (r: Self)
        ensures
            r.hostname == self.hostname,
            r.geoapi_hosts@ == self.geoapi_hosts@,
            r.response@ == self.response@,
    {
        GeoapiServerQuery {
            hostname: self.hostname.clone(),
            geoapi_hosts: self.geoapi_hosts.clone(),
            response: self.response.clone(),
        }
    }
}

/// The names of the hosts, in order.
pub open spec fn host_names(hosts: Seq<Hostname>) -> Seq<Seq<char>> {
    Seq::new(hosts.len(), |i: int| hosts[i]@)
}

/// Whether every host of `a` is among the hosts of `b`.
pub open spec fn hosts_within(a: Seq<Hostname>, b: Seq<Hostname>) -> bool {
    forall|i: int| 0 <= i < a.len() ==> host_names(b).contains(#[trigger] a[i]@)
}

/// Whether the two lists name the same hosts, in whatever order and however often.
pub open spec fn same_hosts(a: Seq<Hostname>, b: Seq<Hostname>) -> bool {
    hosts_within(a, b) && hosts_within(b, a)
}

/// Whether `name` is the name of one of `hosts`.
fn names_host(hosts: &Vec<Hostname>, name: &Hostname) -> (r: bool)
    ensures
        r == host_names(hosts@).contains(name@),
{
    let mut i: usize = 0;
    while i < hosts.len()
        invariant
            i <= hosts.len(),
            forall|j: int| 0 <= j < i ==> hosts[j]@ != name@,
        decreases hosts.len() - i,
    {
        if hosts[i].0 == name.0 {
            assert(host_names(hosts@)[i as int] == name@);
            return true;
        }
        i += 1;
    }
    false
}

/// Whether every host of `a` is among the hosts of `b`.
fn all_within(a: &Vec<Hostname>, b: &Vec<Hostname>) -> (r: bool)
    ensures
        r == hosts_within(a@, b@),
{
    let mut i: usize = 0;
    while i < a.len()
        invariant
            i <= a.len(),
            forall|j: int| 0 <= j < i ==> host_names(b@).contains(#[trigger] a[j]@),
        decreases a.len() - i,
    {
        if !names_host(b, &a[i]) {
            return false;
        }
        i += 1;
    }
    true
}

impl GeoapiServerQuery {
    /// Whether each number of the answer is a place in the list of candidates.
    pub open spec fn indices_in_range(&self) -> bool {
        forall|i: int| 0 <= i < self.response.len() ==> (#[trigger] self.response[i] as int)
            < self.geoapi_hosts.len()
    }

    /// Whether each number of the answer is a place in the list of candidates. An
    /// answer as the server gave it may hold any numbers; only one that passes here
    /// can be turned into hosts.
    pub fn has_indices_in_range(&self) -> (r: bool)
        ensures
            r == self.indices_in_range(),
    {
        let mut i: usize = 0;
        while i < self.response.len()
            invariant
                i <= self.response.len(),
                forall|j: int| 0 <= j < i ==> (#[trigger] self.response[j] as int)
                    < self.geoapi_hosts.len(),
            decreases self.response.len() - i,
        {
            if self.response[i] as usize >= self.geoapi_hosts.len() {
                return false;
            }
            i += 1;
        }
        true
    }

    /// The hosts that the answer names, in the order of the answer.
    pub open spec fn response_hosts(&self) -> Seq<Seq<char>> {
        Seq::new(
            self.response@.len(),
            |i: int| self.geoapi_hosts[self.response[i] as int]@,
        )
    }

    /// The text that reports an answer with more or fewer numbers than candidates.
    pub open spec fn count_mismatch_message(&self) -> Seq<char> {
        "GeoAPI response count mismatch for repository "@ + self.hostname@ + ": expected "@
            + decimal(self.geoapi_hosts.len() as nat) + ", got "@ + decimal(
            self.response.len() as nat,
        )
    }

    /// Whether the answer is exactly the expected one: the same numbers in the same
    /// order.
    pub fn check_against_expected_order_by_id(&self, expected_order: Vec<u32>) -> (r: bool)
        ensures
            r == (self.response@ == expected_order@),
    {
        if self.response.len() != expected_order.len() {
            return false;
        }
        let mut i: usize = 0;
        while i < self.response.len()
            invariant
                i <= self.response.len(),
                self.response.len() == expected_order.len(),
                forall|j: int| 0 <= j < i ==> self.response[j] == expected_order[j],
            decreases self.response.len() - i,
        {
            if self.response[i] != expected_order[i] {
                return false;
            }
            i += 1;
        }
        assert(self.response@ =~= expected_order@);
        true
    }

    /// The candidates at the places that `order` lists.
    pub fn map_order_to_geoapi_hostname(&self, order: Vec<u32>) -> (r: Vec<Hostname>)
        requires
            forall|i: int| 0 <= i < order.len() ==> (#[trigger] order[i] as int)
                < self.geoapi_hosts.len(),
        ensures
            r.len() == order.len(),
            forall|i: int| 0 <= i < order.len() ==> #[trigger] r[i] == self.geoapi_hosts[order[i] as int],
    {
        let mut r: Vec<Hostname> = Vec::new();
        let mut i: usize = 0;
        while i < order.len()
            invariant
                i <= order.len(),
                r.len() == i,
                forall|j: int| 0 <= j < order.len() ==> (#[trigger] order[j] as int)
                    < self.geoapi_hosts.len(),
                forall|j: int| 0 <= j < i ==> #[trigger] r[j] == self.geoapi_hosts[order[j] as int],
            decreases order.len() - i,
        {
            let place = order[i] as usize;
            r.push(self.geoapi_hosts[place].clone());
            i += 1;
        }
        r
    }

    /// The hosts in the order of the answer. An answer that has not one number for
    /// each candidate is a failure of the GeoAPI.
    pub fn map_response_order_to_geoapi_hostnames(&self) -> (r: Result<Vec<Hostname>, ScrapeError>)
        requires
            self.response.len() == self.geoapi_hosts.len() ==> self.indices_in_range(),
        ensures
            self.response.len() == self.geoapi_hosts.len() ==> (r matches Ok(hosts) && host_names(
                hosts@,
            ) == self.response_hosts()),
            self.response.len() != self.geoapi_hosts.len() ==> (r matches Err(
                ScrapeError::GeoAPIFailure(t),
            ) && t@ == self.count_mismatch_message()),
    {
        if self.response.len() != self.geoapi_hosts.len() {
            let mut message = "GeoAPI response count mismatch for repository ".to_owned();
            message.append(self.hostname.as_str());
            message.append(": expected ");
            message.append(decimal_string(self.geoapi_hosts.len() as u64).as_str());
            message.append(", got ");
            message.append(decimal_string(self.response.len() as u64).as_str());
            return Err(ScrapeError::GeoAPIFailure(message));
        }
        let hosts = self.map_order_to_geoapi_hostname(self.response.clone());
        assert(host_names(hosts@) =~= self.response_hosts());
        Ok(hosts)
    }

    /// Whether the answer ranks the hosts in the expected order. Where the expected
    /// hosts are not the candidates of the query, one list naming a host that the
    /// other lacks, the answer is no, whatever the numbers are. Otherwise the
    /// numbers are turned into hosts and compared with the expected ones, place by
    /// place.
    #[verifier::loop_isolation(false)]
    pub fn check_against_expected_order_by_hostname(&self, expected_order: Vec<Hostname>) -> (r:
        Result<bool, ScrapeError>)
        requires
            same_hosts(self.geoapi_hosts@, expected_order@) && self.response.len()
                == self.geoapi_hosts.len() ==> self.indices_in_range(),
        ensures
            !same_hosts(self.geoapi_hosts@, expected_order@) ==> r == Ok::<bool, ScrapeError>(false),
            same_hosts(self.geoapi_hosts@, expected_order@) && self.response.len()
                == self.geoapi_hosts.len() ==> r == Ok::<bool, ScrapeError>(
                self.response_hosts() == host_names(expected_order@),
            ),
            same_hosts(self.geoapi_hosts@, expected_order@) && self.response.len()
                != self.geoapi_hosts.len() ==> (r matches Err(ScrapeError::GeoAPIFailure(t)) && t@
                == self.count_mismatch_message()),
    {
        let candidates_expected = all_within(&self.geoapi_hosts, &expected_order);
        let expected_candidates = all_within(&expected_order, &self.geoapi_hosts);
        if !candidates_expected || !expected_candidates {
            return Ok(false);
        }
        let response_order = match self.map_response_order_to_geoapi_hostnames() {
            Ok(hosts) => hosts,
            Err(e) => return Err(e),
        };
        if response_order.len() != expected_order.len() {
            assert(host_names(response_order@).len() != host_names(expected_order@).len());
            return Ok(false);
        }
        let mut i: usize = 0;
        while i < response_order.len()
            invariant
                i <= response_order.len(),
                response_order.len() == expected_order.len(),
                host_names(response_order@) == self.response_hosts(),
                forall|j: int| 0 <= j < i ==> response_order[j]@ == expected_order[j]@,
            decreases response_order.len() - i,
        {
            if response_order[i].0 != expected_order[i].0 {
                assert(host_names(response_order@)[i as int] != host_names(expected_order@)[i as int]);
                return Ok(false);
            }
            i += 1;
        }
        assert(host_names(response_order@) =~= host_names(expected_order@));
        Ok(true)
    }
}


/// What a piece of an answer of the GeoAPI is worth: a number without sign that
/// fits in 32 bits, or the reason why it is none.
pub open spec fn parse_index(piece: Seq<char>) -> Result<int, IntErrorKind> {
    parse_int(piece, false, 0, u32::MAX as int)
}

/// Whether `k` is the place of the first piece that is not a number.
pub open spec fn first_bad_index(pieces: Seq<Seq<char>>, k: int) -> bool {
    &&& 0 <= k < pieces.len()
    &&& parse_index(pieces[k]) is Err
    &&& forall|i: int| 0 <= i < k ==> parse_index(#[trigger] pieces[i]) is Ok
}

/// Whether every piece is a number.
pub open spec fn all_indices(pieces: Seq<Seq<char>>) -> bool {
    forall|i: int| 0 <= i < pieces.len() ==> parse_index(#[trigger] pieces[i])
        is Ok
}

/// The numbers that the pieces write.
pub open spec fn indices_of(pieces: Seq<Seq<char>>) -> Seq<u32> {
    Seq::new(pieces.len(), |i: int| parse_index(pieces[i])->Ok_0 as u32)
}

/// The pieces of an answer of the GeoAPI: the text without the white space around
/// it, split at the commas.
pub open spec fn response_pieces(body: Seq<char>) -> Seq<Seq<char>> {
    split(trim(body), ',')
}

/// Where one piece is no number, there is a first such piece.
pub proof fn lemma_some_index_is_bad(pieces: Seq<Seq<char>>)
    requires
        !all_indices(pieces),
    ensures
        exists|k: int| first_bad_index(pieces, k),
{
    let bad = choose|i: int|
        0 <= i < pieces.len() && parse_index(#[trigger] pieces[i]) is Err;
    lemma_first_bad_upto(pieces, bad);
}

/// Where the piece at `n` is no number, there is a first piece that is none.
proof fn lemma_first_bad_upto(pieces: Seq<Seq<char>>, n: int)
    requires
        0 <= n < pieces.len(),
        parse_index(pieces[n]) is Err,
    ensures
        exists|k: int| first_bad_index(pieces, k),
    decreases n,
{
    if forall|i: int| 0 <= i < n ==> parse_index(#[trigger] pieces[i])
        is Ok {
        assert(first_bad_index(pieces, n));
    } else {
        let earlier = choose|i: int|
            0 <= i < n && parse_index(#[trigger] pieces[i]) is Err;
        lemma_first_bad_upto(pieces, earlier);
    }
}

impl GeoapiServerQuery {
    /// Reads the answer of the GeoAPI: numbers without sign, separated by commas,
    /// with white space allowed around the whole of it. The first piece that is not
    /// such a number makes the answer a failure of the GeoAPI, reported with the
    /// reason why the piece is no number.
    #[verifier::loop_isolation(false)]
    pub fn parse_response(body: &str) -> (r: Result<Vec<u32>, ScrapeError>)
        ensures
            all_indices(response_pieces(body@)) ==> (r matches Ok(indices) && indices@
                == indices_of(response_pieces(body@))),
            !all_indices(response_pieces(body@)) ==> (r matches Err(ScrapeError::GeoAPIFailure(t))
                && forall|k: int|
                first_bad_index(response_pieces(body@), k) ==> t@ == parse_index(
                    response_pieces(body@)[k],
                )->Err_0.message()),
    {
        let chars = chars_of(body);
        let trimmed = trim_chars(&chars);
        let pieces = split_chars(&trimmed, ',');
        let ghost all = response_pieces(body@);
        let mut indices: Vec<u32> = Vec::new();
        let mut i: usize = 0;
        while i < pieces.len()
            invariant
                i <= pieces.len(),
                views(pieces@) == all,
                indices.len() == i,
                forall|j: int| 0 <= j < i ==> parse_index(#[trigger] all[j])
                    == Ok::<int, IntErrorKind>(indices[j] as int),
            decreases pieces.len() - i,
        {
            assert(all[i as int] == pieces[i as int]@);
            match parse_int_chars(&pieces[i], false, 0, u32::MAX as i64) {
                Ok(v) => indices.push(v as u32),
                Err(kind) => {
                    assert(first_bad_index(all, i as int));
                    return Err(ScrapeError::GeoAPIFailure(kind.to_string()));
                },
            }
            i += 1;
        }
        assert(indices@ =~= indices_of(all));
        assert(all_indices(all));
        Ok(indices)
    }
}

} // verus!
