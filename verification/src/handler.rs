use vstd::prelude::*;
use vstd::string::StrSliceExecFns;
use vstd::string::StringExecFns;

use crate::driver::{
    activate_json, capabilities_post, create_post, get_post, list_post, mount_post, path_post,
    remove_post, unmount_post, AttachRequestV, CapabilitiesResponse, CreateRequestV, DriverModel,
    GetResponse, ListResponse, MountResponse, NullResponse, PathResponse, Volume, VolumeDriver,
};
use crate::errors::{VolumeError, VolumeResponse};
use crate::json::{
    decode_create_request, decode_get_request, decode_mount_request, decode_path_request,
    decode_remove_request, decode_unmount_request, enc_caps, enc_get, enc_list,
    enc_mountpoint_obj, enc_null, encode_capabilities_response, encode_get_response,
    encode_list_response, encode_mount_response, encode_null_response, encode_path_response,
    opt_volume_view, spec_decode_attach, spec_decode_create, spec_decode_name_req, str_eq,
};

verus! {

// ---------------------------------------------------------------------------
// The route table and the dispatcher: one fixed path per driver operation,
// shared backend state, transport-agnostic. A transport feeds each inbound
// request's path and body to `handle_request` and writes the status and body
// it returns.
// ---------------------------------------------------------------------------

/// The nine operations of the protocol surface.
#[derive(Clone, Copy, Debug, PartialEq, Eq, Structural)]
pub enum Operation {
    Activate,
    Create,
    Remove,
    Mount,
    Unmount,
    Path,
    Get,
    List,
    Capabilities,
}

/// The operation bound to a path. The nine documented paths are the only
/// ones answered; every other path maps to nothing.
pub open spec fn spec_route(path: Seq<char>) -> Option<Operation> {
    if path == "/Plugin.Activate"@ {
        Some(Operation::Activate)
    } else if path == "/VolumeDriver.Create"@ {
        Some(Operation::Create)
    } else if path == "/VolumeDriver.Remove"@ {
        Some(Operation::Remove)
    } else if path == "/VolumeDriver.Mount"@ {
        Some(Operation::Mount)
    } else if path == "/VolumeDriver.Unmount"@ {
        Some(Operation::Unmount)
    } else if path == "/VolumeDriver.Path"@ {
        Some(Operation::Path)
    } else if path == "/VolumeDriver.Get"@ {
        Some(Operation::Get)
    } else if path == "/VolumeDriver.List"@ {
        Some(Operation::List)
    } else if path == "/VolumeDriver.Capabilities"@ {
        Some(Operation::Capabilities)
    } else {
        None
    }
}

/// Resolves a request path against the fixed route table.
pub fn route_of(path: &str) -> (r: Option<Operation>)
    ensures
        r == spec_route(path@),
{
    if str_eq(path, "/Plugin.Activate") {
        Some(Operation::Activate)
    } else if str_eq(path, "/VolumeDriver.Create") {
        Some(Operation::Create)
    } else if str_eq(path, "/VolumeDriver.Remove") {
        Some(Operation::Remove)
    } else if str_eq(path, "/VolumeDriver.Mount") {
        Some(Operation::Mount)
    } else if str_eq(path, "/VolumeDriver.Unmount") {
        Some(Operation::Unmount)
    } else if str_eq(path, "/VolumeDriver.Path") {
        Some(Operation::Path)
    } else if str_eq(path, "/VolumeDriver.Get") {
        Some(Operation::Get)
    } else if str_eq(path, "/VolumeDriver.List") {
        Some(Operation::List)
    } else if str_eq(path, "/VolumeDriver.Capabilities") {
        Some(Operation::Capabilities)
    } else {
        None
    }
}

// ---------------------------------------------------------------------------
// How a driver result is rendered on the wire: a success carries status 200
// and the operation's encoded payload; a failure carries the error's fixed
// status code and its message as a plain-text body.
// ---------------------------------------------------------------------------

/// The body sent with status 400 when a request body does not decode.
pub open spec fn malformed_msg() -> Seq<char> {
    "malformed request body"@
}

/// A failure renders as its status code and its message text.
pub open spec fn renders_err(e: VolumeError, resp: (u16, Seq<char>)) -> bool {
    resp.0 == e.spec_status() && resp.1 == e.spec_message()
}

pub open spec fn renders_null(r: VolumeResponse<NullResponse>, resp: (u16, Seq<char>)) -> bool {
    match r {
        Ok(_) => resp.0 == 200 && resp.1 == enc_null(),
        Err(e) => renders_err(e, resp),
    }
}

pub open spec fn renders_mount(r: VolumeResponse<MountResponse>, resp: (u16, Seq<char>)) -> bool {
    match r {
        Ok(m) => resp.0 == 200 && resp.1 == enc_mountpoint_obj(m.mountpoint@),
        Err(e) => renders_err(e, resp),
    }
}

pub open spec fn renders_path(r: VolumeResponse<PathResponse>, resp: (u16, Seq<char>)) -> bool {
    match r {
        Ok(p) => resp.0 == 200 && resp.1 == enc_mountpoint_obj(p.mountpoint@),
        Err(e) => renders_err(e, resp),
    }
}

pub open spec fn renders_get(r: VolumeResponse<GetResponse>, resp: (u16, Seq<char>)) -> bool {
    match r {
        Ok(g) => resp.0 == 200 && resp.1 == enc_get(opt_volume_view(g.volume)),
        Err(e) => renders_err(e, resp),
    }
}

pub open spec fn renders_list(r: VolumeResponse<ListResponse>, resp: (u16, Seq<char>)) -> bool {
    match r {
        Ok(l) => resp.0 == 200 && resp.1 == enc_list(l.volumes@.map(|i: int, v: Volume| v@)),
        Err(e) => renders_err(e, resp),
    }
}

pub open spec fn renders_caps(r: VolumeResponse<CapabilitiesResponse>, resp: (u16, Seq<char>)) ->
    bool {
    match r {
        Ok(c) => resp.0 == 200 && resp.1 == enc_caps(c.capabilities.scope),
        Err(e) => renders_err(e, resp),
    }
}


/// One executed create: some driver result satisfying the create relation,
/// rendered as the response.
pub open spec fn step_create(
    pre: DriverModel,
    post: DriverModel,
    req: CreateRequestV,
    resp: (u16, Seq<char>),
) -> bool {
    exists|r: VolumeResponse<NullResponse>|
        #[trigger] create_post(pre, post, req, r) && renders_null(r, resp)
}

/// One executed remove.
pub open spec fn step_remove(
    pre: DriverModel,
    post: DriverModel,
    name: Seq<char>,
    resp: (u16, Seq<char>),
) -> bool {
    exists|r: VolumeResponse<NullResponse>|
        #[trigger] remove_post(pre, post, name, r) && renders_null(r, resp)
}

/// One executed mount.
pub open spec fn step_mount(
    pre: DriverModel,
    post: DriverModel,
    req: AttachRequestV,
    resp: (u16, Seq<char>),
) -> bool {
    exists|r: VolumeResponse<MountResponse>|
        #[trigger] mount_post(pre, post, req, r) && renders_mount(r, resp)
}

/// One executed unmount.
pub open spec fn step_unmount(
    pre: DriverModel,
    post: DriverModel,
    req: AttachRequestV,
    resp: (u16, Seq<char>),
) -> bool {
    exists|r: VolumeResponse<NullResponse>|
        #[trigger] unmount_post(pre, post, req, r) && renders_null(r, resp)
}

/// One executed path query.
pub open spec fn step_path(m: DriverModel, name: Seq<char>, resp: (u16, Seq<char>)) -> bool {
    exists|r: VolumeResponse<PathResponse>| #[trigger] path_post(m, name, r) && renders_path(r, resp)
}

/// One executed get.
pub open spec fn step_get(m: DriverModel, name: Seq<char>, resp: (u16, Seq<char>)) -> bool {
    exists|r: VolumeResponse<GetResponse>| #[trigger] get_post(m, name, r) && renders_get(r, resp)
}

/// One executed list.
pub open spec fn step_list(m: DriverModel, resp: (u16, Seq<char>)) -> bool {
    exists|r: VolumeResponse<ListResponse>| #[trigger] list_post(m, r) && renders_list(r, resp)
}

/// One executed capabilities query.
pub open spec fn step_caps(m: DriverModel, resp: (u16, Seq<char>)) -> bool {
    exists|r: VolumeResponse<CapabilitiesResponse>|
        #[trigger] capabilities_post(m, r) && renders_caps(r, resp)
}

/// What serving one request does, as a relation between the backend state
/// before and after and the wire response:
/// - a path outside the route table is answered 404 with an empty body and
///   touches nothing;
/// - activation is the constant reply;
/// - a body that does not decode is answered 400 and touches nothing;
/// - otherwise the matching driver operation ran, its relation holds between
///   the two states, and its result is rendered as status and body.
pub open spec fn handle_post(
    pre: DriverModel,
    post: DriverModel,
    path: Seq<char>,
    body: Seq<char>,
    resp: (u16, Seq<char>),
) -> bool {
    match spec_route(path) {
        None => post == pre && resp.0 == 404 && resp.1 == Seq::<char>::empty(),
        Some(Operation::Activate) => post == pre && resp.0 == 200 && resp.1 == activate_json(),
        Some(Operation::Create) => match spec_decode_create(body) {
            None => post == pre && resp.0 == 400 && resp.1 == malformed_msg(),
            Some(req) => step_create(pre, post, req, resp),
        },
        Some(Operation::Remove) => match spec_decode_name_req(body) {
            None => post == pre && resp.0 == 400 && resp.1 == malformed_msg(),
            Some(name) => step_remove(pre, post, name, resp),
        },
        Some(Operation::Mount) => match spec_decode_attach(body) {
            None => post == pre && resp.0 == 400 && resp.1 == malformed_msg(),
            Some(req) => step_mount(pre, post, req, resp),
        },
        Some(Operation::Unmount) => match spec_decode_attach(body) {
            None => post == pre && resp.0 == 400 && resp.1 == malformed_msg(),
            Some(req) => step_unmount(pre, post, req, resp),
        },
        Some(Operation::Path) => match spec_decode_name_req(body) {
            None => post == pre && resp.0 == 400 && resp.1 == malformed_msg(),
            Some(name) => post == pre && step_path(pre, name, resp),
        },
        Some(Operation::Get) => match spec_decode_name_req(body) {
            None => post == pre && resp.0 == 400 && resp.1 == malformed_msg(),
            Some(name) => post == pre && step_get(pre, name, resp),
        },
        Some(Operation::List) => post == pre && step_list(pre, resp),
        Some(Operation::Capabilities) => post == pre && step_caps(pre, resp),
    }
}

/// Binds a backend to the protocol surface. One long-lived instance serves
/// every request; a transport hands each request's path and body in and
/// writes the returned status and body out.
pub struct VolumeHandler<T: VolumeDriver> {
    driver: T,
}

impl<T: VolumeDriver> VolumeHandler<T> {
    /// The abstract state of the held backend.
    pub closed spec fn model(&self) -> DriverModel {
        self.driver.model()
    }

    /// Wraps a backend for serving.
    pub fn new(driver: T) -> (h: Self)
        ensures
            h.model() == driver.model(),
    {
        VolumeHandler { driver }
    }

    /// Serves one request: resolves the path against the route table, decodes
    /// the body, runs the backend operation, and renders the reply. The
    /// relation between the backend state before and after the call and the
    /// returned status and body is exactly [`handle_post`].
    #[verifier::rlimit(100)]
    #[verifier::spinoff_prover]
    pub fn handle_request(&mut self, path: &str, body: &str) -> (resp: (u16, String))
        ensures
            handle_post(old(self).model(), final(self).model(), path@, body@, (resp.0, resp.1@)),
    {
        match route_of(path) {
            None => (404, String::new()),
            Some(Operation::Activate) => (200, T::activate()),
            Some(Operation::Create) => match decode_create_request(body) {
                None => (400, String::from_str("malformed request body")),
                Some(req) => {
                    let r = self.driver.create(&req);
                    let resp = match &r {
                        Ok(_) => (200, encode_null_response()),
                        Err(e) => (e.status_code(), e.message()),
                    };
                    proof {
                        assert(create_post(old(self).model(), self.model(), req@, r)
                            && renders_null(r, (resp.0, resp.1@)));
                        assert(step_create(old(self).model(), self.model(), req@, (resp.0, resp.1@)));
                    }
                    resp
                },
            },
            Some(Operation::Remove) => match decode_remove_request(body) {
                None => (400, String::from_str("malformed request body")),
                Some(req) => {
                    let r = self.driver.remove(&req);
                    let resp = match &r {
                        Ok(_) => (200, encode_null_response()),
                        Err(e) => (e.status_code(), e.message()),
                    };
                    proof {
                        assert(remove_post(old(self).model(), self.model(), req.name@, r)
                            && renders_null(r, (resp.0, resp.1@)));
                        assert(step_remove(old(self).model(), self.model(), req.name@, (resp.0, resp.1@)));
                    }
                    resp
                },
            },
            Some(Operation::Mount) => match decode_mount_request(body) {
                None => (400, String::from_str("malformed request body")),
                Some(req) => {
                    let r = self.driver.mount(&req);
                    let resp = match &r {
                        Ok(m) => (200, encode_mount_response(m)),
                        Err(e) => (e.status_code(), e.message()),
                    };
                    proof {
                        assert(mount_post(old(self).model(), self.model(), req@, r)
                            && renders_mount(r, (resp.0, resp.1@)));
                        assert(step_mount(old(self).model(), self.model(), req@, (resp.0, resp.1@)));
                    }
                    resp
                },
            },
            Some(Operation::Unmount) => match decode_unmount_request(body) {
                None => (400, String::from_str("malformed request body")),
                Some(req) => {
                    let r = self.driver.unmount(&req);
                    let resp = match &r {
                        Ok(_) => (200, encode_null_response()),
                        Err(e) => (e.status_code(), e.message()),
                    };
                    proof {
                        assert(unmount_post(old(self).model(), self.model(), req@, r)
                            && renders_null(r, (resp.0, resp.1@)));
                        assert(step_unmount(old(self).model(), self.model(), req@, (resp.0, resp.1@)));
                    }
                    resp
                },
            },
            Some(Operation::Path) => match decode_path_request(body) {
                None => (400, String::from_str("malformed request body")),
                Some(req) => {
                    let r = self.driver.path(&req);
                    let resp = match &r {
                        Ok(p) => (200, encode_path_response(p)),
                        Err(e) => (e.status_code(), e.message()),
                    };
                    proof {
                        assert(path_post(self.model(), req.name@, r) && renders_path(
                            r,
                            (resp.0, resp.1@),
                        ));
                        assert(step_path(self.model(), req.name@, (resp.0, resp.1@)));
                    }
                    resp
                },
            },
            Some(Operation::Get) => match decode_get_request(body) {
                None => (400, String::from_str("malformed request body")),
                Some(req) => {
                    let r = self.driver.get(&req);
                    let resp = match &r {
                        Ok(g) => (200, encode_get_response(g)),
                        Err(e) => (e.status_code(), e.message()),
                    };
                    proof {
                        assert(get_post(self.model(), req.name@, r) && renders_get(
                            r,
                            (resp.0, resp.1@),
                        ));
                        assert(step_get(self.model(), req.name@, (resp.0, resp.1@)));
                    }
                    resp
                },
            },
            Some(Operation::List) => {
                let r = self.driver.list();
                let resp = match &r {
                    Ok(l) => (200, encode_list_response(l)),
                    Err(e) => (e.status_code(), e.message()),
                };
                proof {
                    assert(list_post(self.model(), r) && renders_list(r, (resp.0, resp.1@)));
                    assert(step_list(self.model(), (resp.0, resp.1@)));
                }
                resp
            },
            Some(Operation::Capabilities) => {
                let r = self.driver.capabilities();
                let resp = match &r {
                    Ok(c) => (200, encode_capabilities_response(c)),
                    Err(e) => (e.status_code(), e.message()),
                };
                proof {
                    assert(capabilities_post(self.model(), r) && renders_caps(
                        r,
                        (resp.0, resp.1@),
                    ));
                    assert(step_caps(self.model(), (resp.0, resp.1@)));
                }
                resp
            },
        }
    }
}

} // verus!
