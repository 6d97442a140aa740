use vstd::prelude::*;
use vstd::string::StringExecFns;

use crate::driver::{
    create_post, get_post, list_matches, list_post, mount_post, path_post, remove_post,
    unmount_post, volume_view_of, CapabilitiesResponse, Capability, CreateRequest, DriverModel,
    GetRequest, GetResponse, ListResponse, MountRequest, MountResponse, NullResponse, PathRequest,
    PathResponse, RemoveRequest, Scope, UnmountRequest, Volume, VolumeDriver, VolumeModel,
};
use crate::errors::{VolumeError, VolumeResponse};
use crate::json::str_eq;

verus! {

// ---------------------------------------------------------------------------
// A reference backend: volumes live in memory, carry no status, and are
// served under a fixed mountpoint prefix. It exists to show the driver
// contract is satisfiable and to give tests a conforming backend; a real
// backend would do storage work where this one only bookkeeps.
// ---------------------------------------------------------------------------

/// The path this backend serves a volume's contents at while mounted.
pub open spec fn mountpoint_of(name: Seq<char>) -> Seq<char> {
    "/mnt/volumes/"@ + name
}

/// One stored volume: its name and the attachment tokens currently holding
/// it mounted, each token held at most once.
struct MemVolume {
    name: String,
    mounters: Vec<String>,
}

/// The set of attachment tokens in a stored token list.
pub open spec fn ids_set(ids: Seq<String>) -> Set<Seq<char>> {
    Set::new(|x: Seq<char>| exists|i: int| 0 <= i < ids.len() && #[trigger] ids[i]@ == x)
}

impl MemVolume {
    /// The abstract state of this stored volume.
    spec fn vmodel(&self) -> VolumeModel {
        VolumeModel {
            mountpoint: if self.mounters@.len() > 0 {
                mountpoint_of(self.name@)
            } else {
                Seq::empty()
            },
            status: Seq::empty(),
            mounters: ids_set(self.mounters@),
        }
    }
}

/// No two stored volumes share a name.
spec fn distinct_names(vs: Seq<MemVolume>) -> bool {
    forall|i: int, j: int| 0 <= i < j < vs.len() ==> vs[i].name@ != vs[j].name@
}

/// Whether some stored volume bears the name.
spec fn has_name(vs: Seq<MemVolume>, n: Seq<char>) -> bool {
    exists|i: int| 0 <= i < vs.len() && #[trigger] vs[i].name@ == n
}

/// The index of the stored volume bearing the name.
spec fn idx_of(vs: Seq<MemVolume>, n: Seq<char>) -> int {
    choose|i: int| 0 <= i < vs.len() && #[trigger] vs[i].name@ == n
}

/// The volumes map a store represents.
spec fn vols_model(vs: Seq<MemVolume>) -> Map<Seq<char>, VolumeModel> {
    Map::new(|n: Seq<char>| has_name(vs, n), |n: Seq<char>| vs[idx_of(vs, n)].vmodel())
}

/// Under distinct names, the entry of the volume stored at `k` is its model.
proof fn lemma_at(vs: Seq<MemVolume>, k: int)
    requires
        distinct_names(vs),
        0 <= k < vs.len(),
    ensures
        has_name(vs, vs[k].name@),
        idx_of(vs, vs[k].name@) == k,
        vols_model(vs).contains_key(vs[k].name@),
        vols_model(vs)[vs[k].name@] == vs[k].vmodel(),
{
    assert(has_name(vs, vs[k].name@));
    let j = idx_of(vs, vs[k].name@);
    assert(0 <= j < vs.len() && vs[j].name@ == vs[k].name@);
    if j < k {
        assert(vs[j].name@ != vs[k].name@);
    } else if k < j {
        assert(vs[k].name@ != vs[j].name@);
    }
}

/// Appending a volume under a fresh name inserts its entry.
proof fn lemma_push(vs: Seq<MemVolume>, v: MemVolume)
    requires
        distinct_names(vs),
        !has_name(vs, v.name@),
    ensures
        distinct_names(vs.push(v)),
        vols_model(vs.push(v)) =~= vols_model(vs).insert(v.name@, v.vmodel()),
{
    let vs2 = vs.push(v);
    assert forall|i: int, j: int| 0 <= i < j < vs2.len() implies vs2[i].name@ != vs2[j].name@ by {
        if j < vs.len() {
        } else {
            assert(vs2[i] == vs[i]);
            if vs[i].name@ == v.name@ {
                assert(has_name(vs, v.name@));
            }
        }
    }
    let m1 = vols_model(vs);
    let m2 = vols_model(vs2);
    let tgt = m1.insert(v.name@, v.vmodel());
    assert forall|n: Seq<char>| m2.contains_key(n) == tgt.contains_key(n) by {
        if n == v.name@ {
            assert(vs2[vs.len() as int].name@ == n);
            assert(has_name(vs2, n));
        } else {
            if has_name(vs, n) {
                let w = idx_of(vs, n);
                assert(vs2[w].name@ == n);
                assert(has_name(vs2, n));
            }
            if has_name(vs2, n) {
                let w = choose|i: int| 0 <= i < vs2.len() && #[trigger] vs2[i].name@ == n;
                assert(w < vs.len());
                assert(vs[w].name@ == n);
                assert(has_name(vs, n));
            }
        }
    }
    assert forall|n: Seq<char>| m2.contains_key(n) implies m2[n] == tgt[n] by {
        lemma_at(vs2, vs.len() as int);
        if n == v.name@ {
            assert(m2[n] == v.vmodel());
        } else {
            let w = choose|i: int| 0 <= i < vs2.len() && #[trigger] vs2[i].name@ == n;
            assert(w < vs.len());
            assert(vs2[w] == vs[w]);
            lemma_at(vs2, w);
            lemma_at(vs, w);
        }
    }
}

/// Replacing the volume at `k` by one of the same name updates its entry.
proof fn lemma_update(vs: Seq<MemVolume>, k: int, v: MemVolume)
    requires
        distinct_names(vs),
        0 <= k < vs.len(),
        vs[k].name@ == v.name@,
    ensures
        distinct_names(vs.update(k, v)),
        vols_model(vs.update(k, v)) =~= vols_model(vs).insert(v.name@, v.vmodel()),
{
    let vs2 = vs.update(k, v);
    assert forall|i: int| 0 <= i < vs2.len() implies vs2[i].name@ == vs[i].name@ by {}
    assert(distinct_names(vs2));
    let m2 = vols_model(vs2);
    let tgt = vols_model(vs).insert(v.name@, v.vmodel());
    assert forall|n: Seq<char>| m2.contains_key(n) == tgt.contains_key(n) by {
        if has_name(vs, n) {
            let w = idx_of(vs, n);
            assert(vs2[w].name@ == n);
            assert(has_name(vs2, n));
        }
        if has_name(vs2, n) {
            let w = choose|i: int| 0 <= i < vs2.len() && #[trigger] vs2[i].name@ == n;
            assert(vs[w].name@ == n);
            assert(has_name(vs, n));
        }
    }
    assert forall|n: Seq<char>| m2.contains_key(n) implies m2[n] == tgt[n] by {
        lemma_at(vs2, k);
        if n == v.name@ {
        } else {
            let w = choose|i: int| 0 <= i < vs2.len() && #[trigger] vs2[i].name@ == n;
            assert(w != k);
            assert(vs2[w] == vs[w]);
            lemma_at(vs2, w);
            lemma_at(vs, w);
        }
    }
}

/// Deleting the volume at `k` removes its entry.
proof fn lemma_remove(vs: Seq<MemVolume>, k: int)
    requires
        distinct_names(vs),
        0 <= k < vs.len(),
    ensures
        distinct_names(vs.remove(k)),
        vols_model(vs.remove(k)) =~= vols_model(vs).remove(vs[k].name@),
{
    let vs2 = vs.remove(k);
    assert forall|i: int| 0 <= i < vs2.len() implies vs2[i] == (if i < k {
        vs[i]
    } else {
        vs[i + 1]
    }) by {}
    assert(distinct_names(vs2));
    let m2 = vols_model(vs2);
    let tgt = vols_model(vs).remove(vs[k].name@);
    assert forall|n: Seq<char>| m2.contains_key(n) == tgt.contains_key(n) by {
        if has_name(vs2, n) {
            let w = choose|i: int| 0 <= i < vs2.len() && #[trigger] vs2[i].name@ == n;
            if w < k {
                assert(vs[w].name@ == n);
            } else {
                assert(vs[w + 1].name@ == n);
            }
            assert(has_name(vs, n));
            lemma_at(vs, k);
            if n == vs[k].name@ {
                if w < k {
                    assert(vs[w].name@ != vs[k].name@);
                } else {
                    assert(vs[k].name@ != vs[w + 1].name@);
                }
            }
        }
        if has_name(vs, n) && n != vs[k].name@ {
            let w = idx_of(vs, n);
            if w < k {
                assert(vs2[w].name@ == n);
            } else {
                assert(w != k);
                assert(vs2[w - 1].name@ == n);
            }
            assert(has_name(vs2, n));
        }
    }
    assert forall|n: Seq<char>| m2.contains_key(n) implies m2[n] == tgt[n] by {
        let w = choose|i: int| 0 <= i < vs2.len() && #[trigger] vs2[i].name@ == n;
        lemma_at(vs2, w);
        if w < k {
            lemma_at(vs, w);
        } else {
            lemma_at(vs, w + 1);
        }
    }
}

/// The in-memory reference backend.
pub struct MemoryDriver {
    volumes: Vec<MemVolume>,
    scope: Scope,
}

impl MemoryDriver {
    /// No two stored volumes share a name; no volume holds a token twice.
    #[verifier::type_invariant]
    spec fn wf(&self) -> bool {
        &&& distinct_names(self.volumes@)
        &&& forall|k: int, i: int, j: int|
            0 <= k < self.volumes@.len() && 0 <= i < j < self.volumes@[k].mounters@.len()
                ==> self.volumes@[k].mounters@[i]@ != self.volumes@[k].mounters@[j]@
    }

    /// An empty store declaring the given scope.
    pub fn new(scope: Scope) -> (d: Self)
        ensures
            d.model() == (DriverModel { volumes: Map::<Seq<char>, VolumeModel>::empty(), scope }),
    {
        let d = MemoryDriver { volumes: Vec::new(), scope };
        proof {
            assert(vols_model(d.volumes@) =~= Map::<Seq<char>, VolumeModel>::empty());
        }
        d
    }

    /// The index of the stored volume bearing the name, if one does.
    fn find(&self, name: &str) -> (r: Option<usize>)
        ensures
            match r {
                Some(i) => i < self.volumes@.len() && self.volumes@[i as int].name@ == name@,
                None => !has_name(self.volumes@, name@),
            },
    {
        let mut i: usize = 0;
        while i < self.volumes.len()
            invariant
                0 <= i <= self.volumes@.len(),
                forall|j: int| 0 <= j < i ==> self.volumes@[j].name@ != name@,
            decreases self.volumes@.len() - i,
        {
            if str_eq(self.volumes[i].name.as_str(), name) {
                return Some(i);
            }
            i = i + 1;
        }
        None
    }

    /// The stored mountpoint string for a name.
    fn mountpoint_string(name: &str) -> (r: String)
        ensures
            r@ == mountpoint_of(name@),
    {
        String::from_str("/mnt/volumes/").concat(name)
    }
}

/// The index of a token in a token list, if it is there.
fn find_id(ids: &Vec<String>, id: &str) -> (r: Option<usize>)
    ensures
        match r {
            Some(i) => i < ids@.len() && ids@[i as int]@ == id@,
            None => forall|j: int| 0 <= j < ids@.len() ==> ids@[j]@ != id@,
        },
{
    let mut i: usize = 0;
    while i < ids.len()
        invariant
            0 <= i <= ids@.len(),
            forall|j: int| 0 <= j < i ==> ids@[j]@ != id@,
        decreases ids@.len() - i,
    {
        if str_eq(ids[i].as_str(), id) {
            return Some(i);
        }
        i = i + 1;
    }
    None
}

impl VolumeDriver for MemoryDriver {
    closed spec fn model(&self) -> DriverModel {
        DriverModel { volumes: vols_model(self.volumes@), scope: self.scope }
    }

    fn create(&mut self, request: &CreateRequest) -> (r: VolumeResponse<NullResponse>) {
        proof {
            use_type_invariant(&*self);
        }
        if request.options.len() > 0 {
            return Err(VolumeError::NoOption(request.options[0].0.clone()));
        }
        match self.find(request.name.as_str()) {
            Some(i) => {
                proof {
                    lemma_at(self.volumes@, i as int);
                    assert(self.model().volumes =~= self.model().volumes.insert(
                        request.name@,
                        self.model().volumes[request.name@],
                    ));
                }
                Ok(NullResponse {  })
            },
            None => {
                let v = MemVolume { name: request.name.clone(), mounters: Vec::new() };
                proof {
                    lemma_push(self.volumes@, v);
                    assert(ids_set(v.mounters@) =~= Set::<Seq<char>>::empty());
                }
                let mut vols: Vec<MemVolume> = Vec::new();
                std::mem::swap(&mut vols, &mut self.volumes);
                vols.push(v);
                self.volumes = vols;
                proof {
                    lemma_at(self.volumes@, self.volumes@.len() - 1);
                }
                Ok(NullResponse {  })
            },
        }
    }

    fn remove(&mut self, request: &RemoveRequest) -> (r: VolumeResponse<NullResponse>) {
        proof {
            use_type_invariant(&*self);
        }
        match self.find(request.name.as_str()) {
            None => Err(VolumeError::NotFound),
            Some(i) => {
                if self.volumes[i].mounters.len() > 0 {
                    return Err(VolumeError::Unknown);
                }
                proof {
                    lemma_remove(self.volumes@, i as int);
                }
                let mut vols: Vec<MemVolume> = Vec::new();
                std::mem::swap(&mut vols, &mut self.volumes);
                vols.remove(i);
                self.volumes = vols;
                Ok(NullResponse {  })
            },
        }
    }

    fn mount(&mut self, request: &MountRequest) -> (r: VolumeResponse<MountResponse>) {
        proof {
            use_type_invariant(&*self);
        }
        match self.find(request.name.as_str()) {
            None => Err(VolumeError::NotFound),
            Some(i) => {
                let ghost vs1 = self.volumes@;
                let ghost pre = self.model();
                let mp = Self::mountpoint_string(request.name.as_str());
                let mut vols: Vec<MemVolume> = Vec::new();
                std::mem::swap(&mut vols, &mut self.volumes);
                let mut vol = vols.remove(i);
                let found = find_id(&vol.mounters, request.id.as_str());
                let ghost ids1 = vol.mounters@;
                if found.is_none() {
                    vol.mounters.push(request.id.clone());
                }
                proof {
                    assert(vols@.insert(i as int, vol) =~= vs1.update(i as int, vol));
                }
                vols.insert(i, vol);
                self.volumes = vols;
                proof {
                    let ghost v2 = self.volumes@[i as int];
                    lemma_update(vs1, i as int, v2);
                    lemma_at(vs1, i as int);
                    lemma_at(self.volumes@, i as int);
                    assert forall|x: Seq<char>|
                        ids_set(v2.mounters@).contains(x) implies ids_set(ids1).insert(
                        request.id@,
                    ).contains(x) by {
                        let w = choose|w: int|
                            0 <= w < v2.mounters@.len() && #[trigger] v2.mounters@[w]@ == x;
                        if w < ids1.len() {
                            assert(ids1[w]@ == x);
                        }
                    }
                    assert forall|x: Seq<char>|
                        ids_set(ids1).insert(request.id@).contains(x) implies ids_set(
                        v2.mounters@,
                    ).contains(x) by {
                        if x == request.id@ {
                            match found {
                                Some(fj) => {
                                    assert(v2.mounters@[fj as int]@ == x);
                                },
                                None => {
                                    assert(v2.mounters@[v2.mounters@.len() - 1]@ == x);
                                },
                            }
                        } else {
                            let w = choose|w: int|
                                0 <= w < ids1.len() && #[trigger] ids1[w]@ == x;
                            assert(v2.mounters@[w]@ == x);
                        }
                    }
                    assert(ids_set(v2.mounters@) =~= ids_set(vs1[i as int].mounters@).insert(
                        request.id@,
                    ));
                    reveal_strlit("/mnt/volumes/");
                    assert(v2.vmodel().mountpoint.len() > 0);
                }
                Ok(MountResponse { mountpoint: mp })
            },
        }
    }

    fn unmount(&mut self, request: &UnmountRequest) -> (r: VolumeResponse<NullResponse>) {
        proof {
            use_type_invariant(&*self);
        }
        match self.find(request.name.as_str()) {
            None => Err(VolumeError::NotFound),
            Some(i) => {
                let ghost vs1 = self.volumes@;
                match find_id(&self.volumes[i].mounters, request.id.as_str()) {
                    None => {
                        proof {
                            lemma_at(vs1, i as int);
                            assert(!ids_set(vs1[i as int].mounters@).contains(request.id@));
                        }
                        Err(VolumeError::Unknown)
                    },
                    Some(j) => {
                        let mut vols: Vec<MemVolume> = Vec::new();
                        std::mem::swap(&mut vols, &mut self.volumes);
                        let mut vol = vols.remove(i);
                        vol.mounters.remove(j);
                        proof {
                            assert(vols@.insert(i as int, vol) =~= vs1.update(i as int, vol));
                        }
                        vols.insert(i, vol);
                        self.volumes = vols;
                        proof {
                            let ghost v1 = vs1[i as int];
                            let ghost v2 = self.volumes@[i as int];
                            lemma_update(vs1, i as int, v2);
                            lemma_at(vs1, i as int);
                            lemma_at(self.volumes@, i as int);
                            assert(ids_set(v2.mounters@) =~= ids_set(v1.mounters@).remove(
                                request.id@,
                            )) by {
                                assert(forall|x: Seq<char>|
                                    ids_set(v2.mounters@).contains(x) ==> ids_set(
                                        v1.mounters@,
                                    ).remove(request.id@).contains(x));
                                assert forall|x: Seq<char>|
                                    ids_set(v1.mounters@).remove(request.id@).contains(x)
                                        implies ids_set(v2.mounters@).contains(x) by {
                                    let w = choose|w: int|
                                        0 <= w < v1.mounters@.len() && #[trigger] v1.mounters@[w]@
                                            == x;
                                    if w < j {
                                        assert(v2.mounters@[w]@ == x);
                                    } else {
                                        assert(w != j);
                                        assert(v2.mounters@[w - 1]@ == x);
                                    }
                                }
                            }
                            if v2.mounters@.len() > 0 {
                                assert(ids_set(v2.mounters@).contains(v2.mounters@[0]@));
                                assert(!(ids_set(v1.mounters@).remove(request.id@) =~= Set::<
                                    Seq<char>,
                                >::empty()));
                            } else {
                                assert(ids_set(v2.mounters@) =~= Set::<Seq<char>>::empty());
                            }
                        }
                        Ok(NullResponse {  })
                    },
                }
            },
        }
    }

    fn path(&self, request: &PathRequest) -> (r: VolumeResponse<PathResponse>) {
        proof {
            use_type_invariant(&*self);
        }
        match self.find(request.name.as_str()) {
            None => Err(VolumeError::NotFound),
            Some(i) => {
                proof {
                    lemma_at(self.volumes@, i as int);
                }
                let v = &self.volumes[i];
                let mp = if v.mounters.len() > 0 {
                    Self::mountpoint_string(v.name.as_str())
                } else {
                    String::new()
                };
                Ok(PathResponse { mountpoint: mp })
            },
        }
    }

    fn get(&self, request: &GetRequest) -> (r: VolumeResponse<GetResponse>) {
        proof {
            use_type_invariant(&*self);
        }
        match self.find(request.name.as_str()) {
            None => Ok(GetResponse { volume: None }),
            Some(i) => {
                proof {
                    lemma_at(self.volumes@, i as int);
                }
                let v = &self.volumes[i];
                let mp = if v.mounters.len() > 0 {
                    Self::mountpoint_string(v.name.as_str())
                } else {
                    String::new()
                };
                let vol = Volume { name: v.name.clone(), mountpoint: mp, status: Vec::new() };
                proof {
                    assert(crate::driver::pairs_view(vol.status@) =~= Seq::<
                        (Seq<char>, Seq<char>),
                    >::empty());
                    assert(vol@ == volume_view_of(self.model(), request.name@));
                }
                Ok(GetResponse { volume: Some(vol) })
            },
        }
    }

    fn list(&self) -> (r: VolumeResponse<ListResponse>) {
        proof {
            use_type_invariant(&*self);
        }
        let mut out: Vec<Volume> = Vec::new();
        let mut i: usize = 0;
        while i < self.volumes.len()
            invariant
                0 <= i <= self.volumes@.len(),
                out@.len() == i,
                distinct_names(self.volumes@),
                forall|k: int|
                    0 <= k < i ==> #[trigger] out@[k].name@ == self.volumes@[k].name@ && out@[k]@
                        == volume_view_of(self.model(), self.volumes@[k].name@),
            decreases self.volumes@.len() - i,
        {
            let v = &self.volumes[i];
            let mp = if v.mounters.len() > 0 {
                Self::mountpoint_string(v.name.as_str())
            } else {
                String::new()
            };
            let vol = Volume { name: v.name.clone(), mountpoint: mp, status: Vec::new() };
            proof {
                lemma_at(self.volumes@, i as int);
                assert(crate::driver::pairs_view(vol.status@) =~= Seq::<
                    (Seq<char>, Seq<char>),
                >::empty());
                assert(vol@ == volume_view_of(self.model(), self.volumes@[i as int].name@));
            }
            out.push(vol);
            i = i + 1;
        }
        proof {
            let vols = out@.map(|k: int, v: Volume| v@);
            assert forall|n: Seq<char>| #[trigger]
                self.model().volumes.contains_key(n) implies exists|k: int|
                0 <= k < vols.len() && #[trigger] vols[k].name == n by {
                let w = idx_of(self.volumes@, n);
                assert(vols[w].name == n);
            }
            assert(list_matches(self.model(), vols));
        }
        Ok(ListResponse { volumes: out })
    }

    fn capabilities(&self) -> (r: VolumeResponse<CapabilitiesResponse>) {
        Ok(CapabilitiesResponse { capabilities: Capability { scope: self.scope } })
    }
}

} // verus!
