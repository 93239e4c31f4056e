//! Index of the assets kept in stable memory: where each one's bytes start
//! and how many there are. Reading and writing the memory itself is left to
//! the host.
use vstd::prelude::*;

verus! {

/// An asset as uploaded.
pub struct Asset {
    pub name: String,
    pub headers: Vec<(String, String)>,
    pub data: Vec<u8>,
}

/// Where an asset's data lies.
pub struct AssetEntry {
    pub name: String,
    pub offset: u32,
    pub size: u32,
    pub headers: Vec<(String, String)>,
}

pub struct StableStorage {
    pub assets: Vec<AssetEntry>,
    /// Bytes in use, asset data and framing included.
    pub size: u32,
    pub state_offset: u32,
    pub state_size: u32,
}

/// Position of the first entry named `name` at or after `from`.
pub open spec fn first_named(assets: Seq<AssetEntry>, name: Seq<char>, i: int) -> bool {
    &&& 0 <= i < assets.len()
    &&& assets[i].name@ == name
    &&& forall|k: int| 0 <= k < i ==> assets[k].name@ != name
}

impl StableStorage {
    pub fn new() -> (r: StableStorage)
        ensures
            r.assets@.len() == 0,
            r.size == 0,
            r.state_offset == 0,
            r.state_size == 0,
    {
        StableStorage { assets: Vec::new(), size: 0, state_offset: 0, state_size: 0 }
    }

    /// Offset and size of the asset named `name`.
    pub fn get(&self, name: &String) -> (r: Option<(u32, u32)>)
        ensures
            match r {
                Some((offset, size)) => exists|i: int|
                    first_named(self.assets@, name@, i) && self.assets@[i].offset == offset
                        && self.assets@[i].size == size,
                None => forall|k: int| 0 <= k < self.assets@.len() ==> self.assets@[k].name@ != name@,
            },
    {
        let mut i: usize = 0;
        while i < self.assets.len()
            invariant
                i <= self.assets@.len(),
                forall|k: int| 0 <= k < i ==> self.assets@[k].name@ != name@,
            decreases self.assets@.len() - i,
        {
            if self.assets[i].name == *name {
                assert(first_named(self.assets@, name@, i as int));
                return Some((self.assets[i].offset, self.assets[i].size));
            }
            i = i + 1;
        }
        None
    }
}

} // verus!
