use vstd::prelude::*;

verus! {

/// Whether a sample is a single hit or a loop at a given tempo.
#[derive(Clone, Copy, Debug, PartialEq, Eq, Structural)]
pub enum SampleType {
    OneShot,
    Loop(u32),
}

/// One audio asset of the remote library, identified by its path.
#[derive(Clone, Debug, PartialEq, Eq)]
pub struct Sample {
    pub name: String,
    pub path: String,
    pub sampletype: SampleType,
}

impl Sample {
    /// A field-for-field copy.
    pub fn duplicate(&self) -> (r: Sample)
        ensures
            r == *self,
    {
        Sample { name: self.name.clone(), path: self.path.clone(), sampletype: self.sampletype }
    }
}

/// A field-for-field copy of a list of samples.
pub fn duplicate_samples(v: &Vec<Sample>) -> (r: Vec<Sample>)
    ensures
        r@ == v@,
{
    let mut r: Vec<Sample> = Vec::new();
    let mut i: usize = 0;
    while i < v.len()
        invariant
            i <= v.len(),
            r@ == v@.subrange(0, i as int),
        decreases v.len() - i,
    {
        r.push(v[i].duplicate());
        i = i + 1;
        assert(r@ =~= v@.subrange(0, i as int));
    }
    assert(v@.subrange(0, v.len() as int) =~= v@);
    r
}

/// The samples a search returned, in the server's order.
#[derive(Clone, Debug, PartialEq, Eq)]
pub struct SearchResult {
    pub samples: Vec<Sample>,
}

/// Catalog metadata of one pack of samples.
#[derive(Clone, Debug, PartialEq, Eq)]
pub struct PackInfo {
    pub id: String,
    pub name: String,
    pub description: String,
}

/// The parameters of one search request.
#[derive(Clone, Debug, PartialEq, Eq)]
pub struct SearchParams {
    pub query: String,
    pub sample_type: Option<SampleType>,
    pub max_tempo: Option<u32>,
    pub min_tempo: Option<u32>,
    pub pack_id: Option<String>,
    pub max_results: Option<i32>,
}

} // verus!
