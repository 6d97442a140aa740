use vstd::prelude::*;
use vstd::string::StringExecFns;

use crate::errors::{VolumeError, VolumeResponse};

verus! {

// ---------------------------------------------------------------------------
// Wire-level request and response records.
//
// Requests are decoded from JSON bodies (see `json`), accepting the canonical
// protocol spelling of each field name ("Name", "ID", "Opts") as well as the
// record's own field name ("name", "id", "options"); responses always encode
// the canonical spelling. String-to-string mappings (`options`, `status`) are
// pair vectors in source order; at lookup a repeated key's later occurrence
// shadows the earlier.
// ---------------------------------------------------------------------------

/// Body of `/VolumeDriver.Create`: a volume name plus backend-defined options.
#[derive(Clone, Debug)]
pub struct CreateRequest {
    pub name: String,
    pub options: Vec<(String, String)>,
}

/// Body of `/VolumeDriver.Remove`: the name of the volume to delete.
#[derive(Clone, Debug)]
pub struct RemoveRequest {
    pub name: String,
}

/// Body of `/VolumeDriver.Mount`: the volume name and the caller's
/// per-attachment token, passed through to the backend unmodified.
#[derive(Clone, Debug)]
pub struct MountRequest {
    pub name: String,
    pub id: String,
}

/// Successful mount reply: the filesystem path the volume is served at.
#[derive(Clone, Debug)]
pub struct MountResponse {
    pub mountpoint: String,
}

/// Body of `/VolumeDriver.Unmount`: the volume name and the attachment token
/// that is being released.
#[derive(Clone, Debug)]
pub struct UnmountRequest {
    pub name: String,
    pub id: String,
}

/// Body of `/VolumeDriver.Path`: the name of the volume to query.
#[derive(Clone, Debug)]
pub struct PathRequest {
    pub name: String,
}

/// Path reply: the current mountpoint, or the empty string while unmounted.
#[derive(Clone, Debug)]
pub struct PathResponse {
    pub mountpoint: String,
}

/// Body of `/VolumeDriver.Get`: the name of the volume to look up.
#[derive(Clone, Debug)]
pub struct GetRequest {
    pub name: String,
}

/// Get reply: the volume if it exists, absent (not an error) otherwise.
#[derive(Clone, Debug)]
pub struct GetResponse {
    pub volume: Option<Volume>,
}

/// List reply: every known volume, in backend-defined order.
#[derive(Clone, Debug)]
pub struct ListResponse {
    pub volumes: Vec<Volume>,
}

/// A volume as reported on the wire: its unique name, its mountpoint (empty
/// until mounted), and an opaque backend-defined status mapping.
#[derive(Clone, Debug)]
pub struct Volume {
    pub name: String,
    pub mountpoint: String,
    pub status: Vec<(String, String)>,
}

/// Capabilities reply: the backend's scope declaration.
#[derive(Clone, Debug)]
pub struct CapabilitiesResponse {
    pub capabilities: Capability,
}

/// The single capability a backend declares: its scope.
#[derive(Clone, Debug)]
pub struct Capability {
    pub scope: Scope,
}

/// Whether volumes are node-local or shared across a cluster.
#[derive(Clone, Copy, Debug, PartialEq, Eq, Structural)]
pub enum Scope {
    Local,
    Global,
}

/// The empty-object reply used by operations with no payload.
#[derive(Clone, Debug, PartialEq, Eq, Structural)]
pub struct NullResponse {}

// ---------------------------------------------------------------------------
// Mathematical views of the wire records.
// ---------------------------------------------------------------------------

/// The view of a key/value pair vector: the pairs as character sequences.
pub open spec fn pairs_view(s: Seq<(String, String)>) -> Seq<(Seq<char>, Seq<char>)> {
    s.map(|i: int, p: (String, String)| (p.0@, p.1@))
}

/// View of a [`CreateRequest`].
pub struct CreateRequestV {
    pub name: Seq<char>,
    pub options: Seq<(Seq<char>, Seq<char>)>,
}

impl View for CreateRequest {
    type V = CreateRequestV;

    open spec fn view(&self) -> CreateRequestV {
        CreateRequestV { name: self.name@, options: pairs_view(self.options@) }
    }
}

/// View of a [`MountRequest`] or an [`UnmountRequest`].
pub struct AttachRequestV {
    pub name: Seq<char>,
    pub id: Seq<char>,
}

impl View for MountRequest {
    type V = AttachRequestV;

    open spec fn view(&self) -> AttachRequestV {
        AttachRequestV { name: self.name@, id: self.id@ }
    }
}

impl View for UnmountRequest {
    type V = AttachRequestV;

    open spec fn view(&self) -> AttachRequestV {
        AttachRequestV { name: self.name@, id: self.id@ }
    }
}

/// View of a [`Volume`].
pub struct VolumeV {
    pub name: Seq<char>,
    pub mountpoint: Seq<char>,
    pub status: Seq<(Seq<char>, Seq<char>)>,
}

impl View for Volume {
    type V = VolumeV;

    open spec fn view(&self) -> VolumeV {
        VolumeV { name: self.name@, mountpoint: self.mountpoint@, status: pairs_view(self.status@) }
    }
}

// ---------------------------------------------------------------------------
// The abstract state a backend exposes for specification purposes.
// ---------------------------------------------------------------------------

/// Abstract state of one volume: its current mountpoint (empty exactly while
/// no attachment holds it), its status mapping, and the set of attachment
/// tokens currently holding it mounted.
pub struct VolumeModel {
    pub mountpoint: Seq<char>,
    pub status: Seq<(Seq<char>, Seq<char>)>,
    pub mounters: Set<Seq<char>>,
}

/// Abstract state of a backend: its volumes keyed by name, and its scope,
/// which is fixed for the lifetime of the instance.
pub struct DriverModel {
    pub volumes: Map<Seq<char>, VolumeModel>,
    pub scope: Scope,
}

/// The wire view of the volume `name` in model `m`.
pub open spec fn volume_view_of(m: DriverModel, name: Seq<char>) -> VolumeV {
    VolumeV {
        name: name,
        mountpoint: m.volumes[name].mountpoint,
        status: m.volumes[name].status,
    }
}

// ---------------------------------------------------------------------------
// The contract of each driver operation, as a relation between the backend
// state before the call, the state after it, the decoded request, and the
// typed result. Backends promise these relations; the router and the laws
// rely on nothing else about a backend.
// ---------------------------------------------------------------------------

/// Contract of `create`: on success the named volume exists afterwards, a
/// pre-existing volume (and in particular its mount state) is untouched, a
/// fresh volume starts unmounted with an empty mountpoint, no other volume is
/// disturbed, and a failing call leaves the state unchanged.
pub open spec fn create_post(
    pre: DriverModel,
    post: DriverModel,
    req: CreateRequestV,
    r: VolumeResponse<NullResponse>,
) -> bool {
    &&& post.scope == pre.scope
    &&& (r is Err ==> post == pre)
    &&& (r is Ok ==> {
        &&& post.volumes.contains_key(req.name)
        &&& post.volumes =~= pre.volumes.insert(req.name, post.volumes[req.name])
        &&& (pre.volumes.contains_key(req.name) ==> post.volumes[req.name]
            == pre.volumes[req.name])
        &&& (!pre.volumes.contains_key(req.name) ==> post.volumes[req.name].mountpoint
            == Seq::<char>::empty() && post.volumes[req.name].mounters =~= Set::<
            Seq<char>,
        >::empty())
    })
}

/// Contract of `remove`: an unknown name fails with `NotFound`, a failing
/// call leaves the state unchanged, and a successful call deletes exactly the
/// named volume.
pub open spec fn remove_post(
    pre: DriverModel,
    post: DriverModel,
    name: Seq<char>,
    r: VolumeResponse<NullResponse>,
) -> bool {
    &&& post.scope == pre.scope
    &&& (!pre.volumes.contains_key(name) ==> r is Err && r->Err_0 is NotFound)
    &&& (r is Err ==> post == pre)
    &&& (r is Ok ==> post.volumes =~= pre.volumes.remove(name))
}

/// Contract of `mount`: an unknown name fails with `NotFound`, a failing call
/// leaves the state unchanged, and a successful call returns the volume's
/// mountpoint — a nonempty path that is preserved while the volume stays
/// mounted, so every concurrent mounter sees the same path — and records the
/// caller's attachment token.
pub open spec fn mount_post(
    pre: DriverModel,
    post: DriverModel,
    req: AttachRequestV,
    r: VolumeResponse<MountResponse>,
) -> bool {
    &&& post.scope == pre.scope
    &&& (!pre.volumes.contains_key(req.name) ==> r is Err && r->Err_0 is NotFound)
    &&& (r is Err ==> post == pre)
    &&& (r is Ok ==> {
        let mv = post.volumes[req.name];
        &&& pre.volumes.contains_key(req.name)
        &&& post.volumes =~= pre.volumes.insert(req.name, mv)
        &&& mv.mountpoint.len() > 0
        &&& (pre.volumes[req.name].mountpoint.len() > 0 ==> mv.mountpoint
            == pre.volumes[req.name].mountpoint)
        &&& mv.status == pre.volumes[req.name].status
        &&& mv.mounters =~= pre.volumes[req.name].mounters.insert(req.id)
        &&& r->Ok_0.mountpoint@ == mv.mountpoint
    })
}

/// Contract of `unmount`: an unknown name fails with `NotFound`, releasing a
/// token that is not mounted is an error, a failing call leaves the state
/// unchanged, and a successful call removes exactly the caller's token,
/// clearing the mountpoint when the last token goes.
pub open spec fn unmount_post(
    pre: DriverModel,
    post: DriverModel,
    req: AttachRequestV,
    r: VolumeResponse<NullResponse>,
) -> bool {
    &&& post.scope == pre.scope
    &&& (!pre.volumes.contains_key(req.name) ==> r is Err && r->Err_0 is NotFound)
    &&& (pre.volumes.contains_key(req.name) && !pre.volumes[req.name].mounters.contains(req.id)
        ==> r is Err)
    &&& (r is Err ==> post == pre)
    &&& (r is Ok ==> {
        let pv = pre.volumes[req.name];
        let mv = post.volumes[req.name];
        &&& pre.volumes.contains_key(req.name)
        &&& pv.mounters.contains(req.id)
        &&& post.volumes =~= pre.volumes.insert(req.name, mv)
        &&& mv.status == pv.status
        &&& mv.mounters =~= pv.mounters.remove(req.id)
        &&& mv.mountpoint == if pv.mounters.remove(req.id) =~= Set::<Seq<char>>::empty() {
            Seq::<char>::empty()
        } else {
            pv.mountpoint
        }
    })
}

/// Contract of `path`: an unknown name fails with `NotFound`; otherwise the
/// reply is the volume's current mountpoint, empty while unmounted.
pub open spec fn path_post(m: DriverModel, name: Seq<char>, r: VolumeResponse<
    PathResponse,
>) -> bool {
    &&& (!m.volumes.contains_key(name) ==> r is Err && r->Err_0 is NotFound)
    &&& (m.volumes.contains_key(name) ==> r is Ok && r->Ok_0.mountpoint@
        == m.volumes[name].mountpoint)
}

/// Contract of `get`: always a success reply — absent for an unknown name,
/// otherwise exactly the volume's current wire view.
pub open spec fn get_post(m: DriverModel, name: Seq<char>, r: VolumeResponse<
    GetResponse,
>) -> bool {
    &&& (!m.volumes.contains_key(name) ==> r is Ok && r->Ok_0.volume is None)
    &&& (m.volumes.contains_key(name) ==> r is Ok && (r->Ok_0.volume matches Some(v) && v@
        == volume_view_of(m, name)))
}

/// The reply of `list` reports each known volume exactly once, with its
/// current wire view, in backend-defined order.
pub open spec fn list_matches(m: DriverModel, vols: Seq<VolumeV>) -> bool {
    &&& (forall|i: int|
        0 <= i < vols.len() ==> m.volumes.contains_key(#[trigger] vols[i].name) && vols[i]
            == volume_view_of(m, vols[i].name))
    &&& (forall|n: Seq<char>|
        #[trigger] m.volumes.contains_key(n) ==> exists|i: int|
            0 <= i < vols.len() && #[trigger] vols[i].name == n)
    &&& (forall|i: int, j: int|
        0 <= i < j < vols.len() ==> #[trigger] vols[i].name != #[trigger] vols[j].name)
}

/// Contract of `list`.
pub open spec fn list_post(m: DriverModel, r: VolumeResponse<ListResponse>) -> bool {
    r is Ok && list_matches(m, r->Ok_0.volumes@.map(|i: int, v: Volume| v@))
}

/// Contract of `capabilities`: always succeeds and reports the instance's
/// fixed scope.
pub open spec fn capabilities_post(m: DriverModel, r: VolumeResponse<
    CapabilitiesResponse,
>) -> bool {
    r is Ok && r->Ok_0.capabilities.scope == m.scope
}

/// The constant activation reply: the one interface this surface implements.
pub open spec fn activate_json() -> Seq<char> {
    "{\"Implements\":[\"VolumeDriver\"]}"@
}

// ---------------------------------------------------------------------------
// Laws that every conforming backend obeys, proved from the relations alone.
// ---------------------------------------------------------------------------

/// For a name no volume bears, remove, mount and unmount all fail with
/// `NotFound`, whose wire status is 404, and leave the state unchanged; path
/// fails the same way; get succeeds with an absent volume.
pub proof fn law_missing_volume(
    pre: DriverModel,
    post_r: DriverModel,
    post_m: DriverModel,
    post_u: DriverModel,
    name: Seq<char>,
    id: Seq<char>,
    rr: VolumeResponse<NullResponse>,
    mr: VolumeResponse<MountResponse>,
    ur: VolumeResponse<NullResponse>,
    pr: VolumeResponse<PathResponse>,
    gr: VolumeResponse<GetResponse>,
)
    requires
        !pre.volumes.contains_key(name),
        remove_post(pre, post_r, name, rr),
        mount_post(pre, post_m, AttachRequestV { name, id }, mr),
        unmount_post(pre, post_u, AttachRequestV { name, id }, ur),
        path_post(pre, name, pr),
        get_post(pre, name, gr),
    ensures
        rr is Err && rr->Err_0 is NotFound && rr->Err_0.spec_status() == 404 && post_r == pre,
        mr is Err && mr->Err_0 is NotFound && mr->Err_0.spec_status() == 404 && post_m == pre,
        ur is Err && ur->Err_0 is NotFound && ur->Err_0.spec_status() == 404 && post_u == pre,
        pr is Err && pr->Err_0 is NotFound && pr->Err_0.spec_status() == 404,
        gr is Ok && gr->Ok_0.volume is None,
{
}

/// After a successful create, get reports a volume bearing the created name,
/// and list includes one.
pub proof fn law_create_then_visible(
    pre: DriverModel,
    post: DriverModel,
    req: CreateRequestV,
    cr: VolumeResponse<NullResponse>,
    gr: VolumeResponse<GetResponse>,
    lr: VolumeResponse<ListResponse>,
)
    requires
        create_post(pre, post, req, cr),
        cr is Ok,
        get_post(post, req.name, gr),
        list_post(post, lr),
    ensures
        gr is Ok && (gr->Ok_0.volume matches Some(v) && v.name@ == req.name),
        exists|i: int|
            0 <= i < lr->Ok_0.volumes@.len() && #[trigger] lr->Ok_0.volumes@[i].name@ == req.name,
{
    let vols = lr->Ok_0.volumes@.map(|i: int, v: Volume| v@);
    assert(post.volumes.contains_key(req.name));
    let i = choose|i: int| 0 <= i < vols.len() && #[trigger] vols[i].name == req.name;
    assert(lr->Ok_0.volumes@[i].name@ == req.name);
}

/// Two mounts of one volume, under any two attachment tokens, hand back the
/// same mountpoint.
pub proof fn law_mount_same_mountpoint(
    pre: DriverModel,
    mid: DriverModel,
    post: DriverModel,
    name: Seq<char>,
    id1: Seq<char>,
    id2: Seq<char>,
    r1: VolumeResponse<MountResponse>,
    r2: VolumeResponse<MountResponse>,
)
    requires
        mount_post(pre, mid, AttachRequestV { name, id: id1 }, r1),
        mount_post(mid, post, AttachRequestV { name, id: id2 }, r2),
        r1 is Ok,
        r2 is Ok,
    ensures
        r1->Ok_0.mountpoint@ == r2->Ok_0.mountpoint@,
{
    assert(mid.volumes[name].mountpoint == r1->Ok_0.mountpoint@);
    assert(mid.volumes[name].mountpoint.len() > 0);
    assert(post.volumes[name].mountpoint == mid.volumes[name].mountpoint);
}

// ---------------------------------------------------------------------------
// The capability interface a storage backend implements.
// ---------------------------------------------------------------------------

/// The polymorphic driver contract. A backend exposes its abstract state
/// through [`model`] and promises the per-operation relations above; the
/// request router depends on nothing else. `activate` is fixed and
/// backend-independent: an override must keep its declared reply.
///
/// [`model`]: VolumeDriver::model
pub trait VolumeDriver: Sized {
    /// The abstract state this backend currently represents.
    spec fn model(&self) -> DriverModel;

    /// Declares the supported interfaces; independent of backend state.
    fn activate() -> (r: String)
        ensures
            r@ == activate_json(),
    {
        String::from_str("{\"Implements\":[\"VolumeDriver\"]}")
    }

    /// Creates (or idempotently re-creates) the named volume.
    fn create(&mut self, request: &CreateRequest) -> (r: VolumeResponse<NullResponse>)
        ensures
            create_post(old(self).model(), final(self).model(), request@, r),
    ;

    /// Deletes the named volume.
    fn remove(&mut self, request: &RemoveRequest) -> (r: VolumeResponse<NullResponse>)
        ensures
            remove_post(old(self).model(), final(self).model(), request.name@, r),
    ;

    /// Mounts the named volume on behalf of one attachment token.
    fn mount(&mut self, request: &MountRequest) -> (r: VolumeResponse<MountResponse>)
        ensures
            mount_post(old(self).model(), final(self).model(), request@, r),
    ;

    /// Releases one attachment token's mount of the named volume.
    fn unmount(&mut self, request: &UnmountRequest) -> (r: VolumeResponse<NullResponse>)
        ensures
            unmount_post(old(self).model(), final(self).model(), request@, r),
    ;

    /// Reports the named volume's current mountpoint.
    fn path(&self, request: &PathRequest) -> (r: VolumeResponse<PathResponse>)
        ensures
            path_post(self.model(), request.name@, r),
    ;

    /// Looks the named volume up; absence is a success, not an error.
    fn get(&self, request: &GetRequest) -> (r: VolumeResponse<GetResponse>)
        ensures
            get_post(self.model(), request.name@, r),
    ;

    /// Reports every known volume.
    fn list(&self) -> (r: VolumeResponse<ListResponse>)
        ensures
            list_post(self.model(), r),
    ;

    /// Reports the backend's scope declaration.
    fn capabilities(&self) -> (r: VolumeResponse<CapabilitiesResponse>)
        ensures
            capabilities_post(self.model(), r),
    ;
}

} // verus!
