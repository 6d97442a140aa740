use volume_plugin::driver::Scope;
use volume_plugin::errors::VolumeError;
use volume_plugin::handler::{route_of, Operation, VolumeHandler};
use volume_plugin::memory::MemoryDriver;

fn handler() -> VolumeHandler<MemoryDriver> {
    VolumeHandler::new(MemoryDriver::new(Scope::Local))
}

#[test]
fn activate_is_constant_whatever_happened_before() {
    let mut h = handler();
    let first = h.handle_request("/Plugin.Activate", "");
    assert_eq!(first, (200, "{\"Implements\":[\"VolumeDriver\"]}".to_string()));
    h.handle_request("/VolumeDriver.Create", "{\"Name\":\"vol1\",\"Opts\":{}}");
    h.handle_request("/VolumeDriver.Mount", "{\"Name\":\"vol1\",\"ID\":\"c1\"}");
    let again = h.handle_request("/Plugin.Activate", "ignored body");
    assert_eq!(again, (200, "{\"Implements\":[\"VolumeDriver\"]}".to_string()));
}

#[test]
fn error_kinds_map_to_their_status_codes() {
    assert_eq!(VolumeError::Unknown.status_code(), 500);
    assert_eq!(VolumeError::NotFound.status_code(), 404);
    assert_eq!(VolumeError::NoOption("size".to_string()).status_code(), 400);
    assert_eq!(VolumeError::InvalidOptions("bad".to_string()).status_code(), 400);
    assert_eq!(VolumeError::FailedIO("disk".to_string()).status_code(), 500);
    assert_eq!(VolumeError::FailedMount("busy".to_string()).status_code(), 500);
}

#[test]
fn error_messages_embed_their_payload() {
    assert_eq!(VolumeError::Unknown.message(), "Something went wrong");
    assert_eq!(VolumeError::NotFound.message(), "Provided volume wasn't found");
    assert_eq!(
        VolumeError::NoOption("size".to_string()).message(),
        "size is not a valid option"
    );
    assert_eq!(
        VolumeError::InvalidOptions("bad".to_string()).message(),
        "Invalid options: bad"
    );
    assert_eq!(
        VolumeError::FailedIO("disk full".to_string()).message(),
        "Failed to create a location for a volume: disk full"
    );
    assert_eq!(
        VolumeError::FailedMount("busy".to_string()).message(),
        "Failed to mount the volume due to an internal error: busy"
    );
}

#[test]
fn never_created_name_fails_not_found_everywhere_but_get() {
    let mut h = handler();
    let not_found = "Provided volume wasn't found".to_string();
    let remove = h.handle_request("/VolumeDriver.Remove", "{\"Name\":\"ghost\"}");
    assert_eq!(remove, (404, not_found.clone()));
    let mount = h.handle_request("/VolumeDriver.Mount", "{\"Name\":\"ghost\",\"ID\":\"c\"}");
    assert_eq!(mount, (404, not_found.clone()));
    let unmount = h.handle_request("/VolumeDriver.Unmount", "{\"Name\":\"ghost\",\"ID\":\"c\"}");
    assert_eq!(unmount, (404, not_found.clone()));
    let path = h.handle_request("/VolumeDriver.Path", "{\"Name\":\"ghost\"}");
    assert_eq!(path, (404, not_found));
    let get = h.handle_request("/VolumeDriver.Get", "{\"Name\":\"ghost\"}");
    assert_eq!(get, (200, "{\"Volume\":null}".to_string()));
}

#[test]
fn created_volume_shows_up_in_list_and_get() {
    let mut h = handler();
    let create = h.handle_request("/VolumeDriver.Create", "{\"Name\":\"vol1\",\"Opts\":{}}");
    assert_eq!(create, (200, "{}".to_string()));
    let list = h.handle_request("/VolumeDriver.List", "");
    assert_eq!(
        list,
        (200, "{\"Volumes\":[{\"Name\":\"vol1\",\"Mountpoint\":\"\",\"Status\":{}}]}".to_string())
    );
    let get = h.handle_request("/VolumeDriver.Get", "{\"Name\":\"vol1\"}");
    assert_eq!(
        get,
        (200, "{\"Volume\":{\"Name\":\"vol1\",\"Mountpoint\":\"\",\"Status\":{}}}".to_string())
    );
}

#[test]
fn create_is_idempotent_and_rejects_options() {
    let mut h = handler();
    assert_eq!(h.handle_request("/VolumeDriver.Create", "{\"Name\":\"v\",\"Opts\":{}}").0, 200);
    assert_eq!(h.handle_request("/VolumeDriver.Create", "{\"Name\":\"v\",\"Opts\":{}}").0, 200);
    let rejected = h.handle_request(
        "/VolumeDriver.Create",
        "{\"Name\":\"w\",\"Opts\":{\"size\":\"10g\"}}",
    );
    assert_eq!(rejected, (400, "size is not a valid option".to_string()));
}

#[test]
fn two_mounts_with_distinct_ids_share_the_mountpoint() {
    let mut h = handler();
    h.handle_request("/VolumeDriver.Create", "{\"Name\":\"vol1\",\"Opts\":{}}");
    let first = h.handle_request("/VolumeDriver.Mount", "{\"Name\":\"vol1\",\"ID\":\"c1\"}");
    let second = h.handle_request("/VolumeDriver.Mount", "{\"Name\":\"vol1\",\"ID\":\"c2\"}");
    assert_eq!(first.0, 200);
    assert_eq!(first, second);
    assert_eq!(first.1, "{\"Mountpoint\":\"/mnt/volumes/vol1\"}");
}

#[test]
fn unmount_releases_per_id_and_clears_path_at_zero() {
    let mut h = handler();
    h.handle_request("/VolumeDriver.Create", "{\"Name\":\"v\",\"Opts\":{}}");
    h.handle_request("/VolumeDriver.Mount", "{\"Name\":\"v\",\"ID\":\"c1\"}");
    h.handle_request("/VolumeDriver.Mount", "{\"Name\":\"v\",\"ID\":\"c2\"}");
    assert_eq!(h.handle_request("/VolumeDriver.Unmount", "{\"Name\":\"v\",\"ID\":\"c1\"}").0, 200);
    let still = h.handle_request("/VolumeDriver.Path", "{\"Name\":\"v\"}");
    assert_eq!(still, (200, "{\"Mountpoint\":\"/mnt/volumes/v\"}".to_string()));
    assert_eq!(h.handle_request("/VolumeDriver.Unmount", "{\"Name\":\"v\",\"ID\":\"c2\"}").0, 200);
    let cleared = h.handle_request("/VolumeDriver.Path", "{\"Name\":\"v\"}");
    assert_eq!(cleared, (200, "{\"Mountpoint\":\"\"}".to_string()));
}

#[test]
fn unmount_of_never_mounted_id_is_an_error() {
    let mut h = handler();
    h.handle_request("/VolumeDriver.Create", "{\"Name\":\"v\",\"Opts\":{}}");
    let r = h.handle_request("/VolumeDriver.Unmount", "{\"Name\":\"v\",\"ID\":\"nope\"}");
    assert_eq!(r, (500, "Something went wrong".to_string()));
}

#[test]
fn remove_fails_while_mounted_then_succeeds() {
    let mut h = handler();
    h.handle_request("/VolumeDriver.Create", "{\"Name\":\"v\",\"Opts\":{}}");
    h.handle_request("/VolumeDriver.Mount", "{\"Name\":\"v\",\"ID\":\"c1\"}");
    assert_eq!(h.handle_request("/VolumeDriver.Remove", "{\"Name\":\"v\"}").0, 500);
    h.handle_request("/VolumeDriver.Unmount", "{\"Name\":\"v\",\"ID\":\"c1\"}");
    assert_eq!(h.handle_request("/VolumeDriver.Remove", "{\"Name\":\"v\"}"), (200, "{}".to_string()));
    let list = h.handle_request("/VolumeDriver.List", "");
    assert_eq!(list, (200, "{\"Volumes\":[]}".to_string()));
}

#[test]
fn capabilities_reports_the_instance_scope() {
    let mut local = handler();
    assert_eq!(
        local.handle_request("/VolumeDriver.Capabilities", ""),
        (200, "{\"Capabilities\":{\"Scope\":\"local\"}}".to_string())
    );
    let mut global = VolumeHandler::new(MemoryDriver::new(Scope::Global));
    assert_eq!(
        global.handle_request("/VolumeDriver.Capabilities", ""),
        (200, "{\"Capabilities\":{\"Scope\":\"global\"}}".to_string())
    );
}

#[test]
fn router_answers_only_the_nine_documented_paths() {
    assert_eq!(route_of("/Plugin.Activate"), Some(Operation::Activate));
    assert_eq!(route_of("/VolumeDriver.Create"), Some(Operation::Create));
    assert_eq!(route_of("/VolumeDriver.Remove"), Some(Operation::Remove));
    assert_eq!(route_of("/VolumeDriver.Mount"), Some(Operation::Mount));
    assert_eq!(route_of("/VolumeDriver.Unmount"), Some(Operation::Unmount));
    assert_eq!(route_of("/VolumeDriver.Path"), Some(Operation::Path));
    assert_eq!(route_of("/VolumeDriver.Get"), Some(Operation::Get));
    assert_eq!(route_of("/VolumeDriver.List"), Some(Operation::List));
    assert_eq!(route_of("/VolumeDriver.Capabilities"), Some(Operation::Capabilities));
    assert_eq!(route_of("/VolumeDriver.Exec"), None);
    assert_eq!(route_of("/"), None);
    assert_eq!(route_of(""), None);

    let mut h = handler();
    let r = h.handle_request("/VolumeDriver.Exec", "{}");
    assert_eq!(r, (404, String::new()));
}

#[test]
fn malformed_bodies_are_client_errors() {
    let mut h = handler();
    let r = h.handle_request("/VolumeDriver.Create", "{\"Name\":\"v\"");
    assert_eq!(r, (400, "malformed request body".to_string()));
    let r = h.handle_request("/VolumeDriver.Mount", "not json");
    assert_eq!(r.0, 400);
    let r = h.handle_request("/VolumeDriver.Remove", "{}");
    assert_eq!(r.0, 400);
}

#[test]
fn end_to_end_protocol_exchange() {
    let mut h = handler();
    let create = h.handle_request("/VolumeDriver.Create", "{\"Name\":\"vol1\",\"Opts\":{}}");
    assert_eq!(create, (200, "{}".to_string()));
    let mount = h.handle_request("/VolumeDriver.Mount", "{\"Name\":\"vol1\",\"ID\":\"c1\"}");
    assert_eq!(mount, (200, "{\"Mountpoint\":\"/mnt/volumes/vol1\"}".to_string()));
    let get = h.handle_request("/VolumeDriver.Get", "{\"Name\":\"vol1\"}");
    assert_eq!(
        get,
        (
            200,
            "{\"Volume\":{\"Name\":\"vol1\",\"Mountpoint\":\"/mnt/volumes/vol1\",\"Status\":{}}}"
                .to_string()
        )
    );
    let remove = h.handle_request("/VolumeDriver.Remove", "{\"Name\":\"missing\"}");
    assert_eq!(remove, (404, "Provided volume wasn't found".to_string()));
}
