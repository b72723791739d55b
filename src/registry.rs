use vstd::prelude::*;
use crate::instance::{Instance, InstanceRecord};
use crate::paths::{join, path_join};

verus! {

/// What reading the registry document produced.
#[derive(Clone, Debug)]
pub enum RegistryDocument {
    /// No document exists yet.
    Absent,
    /// A document exists but could not be decoded; the text says why.
    Malformed(String),
    /// The decoded records, in stored order.
    Records(Vec<InstanceRecord>),
}

#[derive(Clone, Debug)]
pub enum RegistryError {
    /// The application's data directory is unknown.
    NoInstancesDir,
    /// The stored document could not be decoded.
    Malformed(String),
}

pub open spec fn instances_dir_of(data_dir: Seq<char>) -> Seq<char> {
    path_join(data_dir, "instances"@)
}

pub open spec fn registry_file_of(data_dir: Seq<char>) -> Seq<char> {
    path_join(instances_dir_of(data_dir), "instances.json"@)
}

/// The records that persist the instances, in order.
pub open spec fn records_of(instances: Seq<Instance>) -> Seq<InstanceRecord> {
    instances.map_values(|i: Instance| i.identity())
}

/// `loaded` is what loading `records` gives: the same identities in the
/// same order, each instance `Ready`.
pub open spec fn loads_as(records: Seq<InstanceRecord>, loaded: Seq<Instance>) -> bool {
    &&& loaded.len() == records.len()
    &&& forall|i: int|
        0 <= i < loaded.len() ==> (#[trigger] loaded[i]).identity() == records[i]
            && loaded[i].state@ is Ready
}

/// The directory that holds the installed instances and the registry.
pub fn get_instances_dir(data_dir: Option<String>) -> (r: Option<String>)
    ensures
        match data_dir {
            Some(d) => r matches Some(x) && x@ == instances_dir_of(d@),
            None => r is None,
        },
{
    match data_dir {
        Some(d) => Some(join(d.as_str(), "instances")),
        None => None,
    }
}

/// The location of the registry document.
pub fn registry_file(data_dir: Option<String>) -> (r: Result<String, RegistryError>)
    ensures
        match data_dir {
            Some(d) => r matches Ok(f) && f@ == registry_file_of(d@),
            None => r matches Err(RegistryError::NoInstancesDir),
        },
{
    match get_instances_dir(data_dir) {
        Some(dir) => Ok(join(dir.as_str(), "instances.json")),
        None => Err(RegistryError::NoInstancesDir),
    }
}

/// The records to store for the instances, in order; operational state
/// is left out.
pub fn instance_records(instances: &Vec<Instance>) -> (r: Vec<InstanceRecord>)
    ensures
        r@ == records_of(instances@),
{
    let mut r: Vec<InstanceRecord> = Vec::new();
    let mut i: usize = 0;
    while i < instances.len()
        invariant
            i <= instances@.len(),
            r@ == records_of(instances@.subrange(0, i as int)),
        decreases instances@.len() - i,
    {
        r.push(instances[i].record());
        proof {
            assert(instances@.subrange(0, i + 1) =~= instances@.subrange(0, i as int).push(
                instances@[i as int],
            ));
            assert(records_of(instances@.subrange(0, i + 1)) =~= records_of(
                instances@.subrange(0, i as int),
            ).push(instances@[i as int].identity()));
        }
        i = i + 1;
    }
    proof {
        assert(instances@.subrange(0, i as int) =~= instances@);
    }
    r
}

/// Turns what reading the registry produced into the instance list: an
/// absent document is an empty list, a malformed one an error.
pub fn load_instances(doc: RegistryDocument) -> (r: Result<Vec<Instance>, RegistryError>)
    ensures
        match doc {
            RegistryDocument::Absent => r matches Ok(v) && v@.len() == 0,
            RegistryDocument::Malformed(m) => r matches Err(RegistryError::Malformed(e)) && e == m,
            RegistryDocument::Records(rs) => r matches Ok(v) && loads_as(rs@, v@),
        },
{
    match doc {
        RegistryDocument::Absent => Ok(Vec::new()),
        RegistryDocument::Malformed(m) => Err(RegistryError::Malformed(m)),
        RegistryDocument::Records(rs) => {
            let mut v: Vec<Instance> = Vec::new();
            let mut rest = rs;
            let ghost all = rest@;
            while rest.len() > 0
                invariant
                    all == v@.map_values(|i: Instance| i.identity()) + rest@,
                    forall|j: int| 0 <= j < v@.len() ==> (#[trigger] v@[j]).state@ is Ready,
                decreases rest@.len(),
            {
                let ghost before = v@;
                let rec = rest.remove(0);
                v.push(Instance::from_record(rec));
                proof {
                    assert(v@.map_values(|i: Instance| i.identity()) =~= before.map_values(
                        |i: Instance| i.identity(),
                    ).push(rec));
                }
            }
            proof {
                assert(all =~= v@.map_values(|i: Instance| i.identity()));
                assert forall|i: int| 0 <= i < v@.len() implies (#[trigger] v@[i]).identity()
                    == all[i] by {}
            }
            Ok(v)
        },
    }
}


/// Saving a list of instances and loading what was saved gives back the
/// same identities and configurations, in the same order, with every
/// instance `Ready` whatever state it was in when saved.
pub proof fn lemma_save_load_round_trip(instances: Seq<Instance>, loaded: Seq<Instance>)
    requires
        loads_as(records_of(instances), loaded),
    ensures
        loaded.len() == instances.len(),
        forall|i: int|
            0 <= i < loaded.len() ==> (#[trigger] loaded[i]).identity() == instances[i].identity()
                && loaded[i].state@ is Ready,
{
    assert forall|i: int| 0 <= i < loaded.len() implies (#[trigger] loaded[i]).identity()
        == instances[i].identity() && loaded[i].state@ is Ready by {
        assert(records_of(instances)[i] == instances[i].identity());
    }
}

} // verus!
