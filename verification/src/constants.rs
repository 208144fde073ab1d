//! Values that a scrape falls back on.

use vstd::prelude::*;
use crate::models::generic::Hostname;
use crate::models::geoapi::host_names;

verus! {

/// The names of the hosts that a GeoAPI is asked to rank where the caller names
/// none.
pub open spec fn default_geoapi_names() -> Seq<Seq<char>> {
    seq![
        "cvmfs-s1fnal.opensciencegrid.org"@,
        "cvmfs-stratum-one.cern.ch"@,
        "cvmfs-stratum-one.ihep.ac.cn"@,
    ]
}

/// The hosts that a GeoAPI is asked to rank where the caller names none.
pub fn default_geoapi_servers() -> (r: Vec<Hostname>)
    ensures
        host_names(r@) == default_geoapi_names(),
{
    let mut r: Vec<Hostname> = Vec::new();
    r.push(Hostname("cvmfs-s1fnal.opensciencegrid.org".to_owned()));
    r.push(Hostname("cvmfs-stratum-one.cern.ch".to_owned()));
    r.push(Hostname("cvmfs-stratum-one.ihep.ac.cn".to_owned()));
    assert(host_names(r@) =~= default_geoapi_names());
    r
}

} // verus!
