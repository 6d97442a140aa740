use volume_plugin::driver::{
    Capability, CapabilitiesResponse, GetResponse, ListResponse, MountResponse, PathResponse,
    Scope, Volume,
};
use volume_plugin::json::{
    decode_create_request, decode_get_request, decode_mount_request, decode_path_request,
    decode_remove_request, decode_unmount_request, encode_capabilities_response,
    encode_get_response, encode_list_response, encode_mount_response, encode_null_response,
    encode_path_response,
};

#[test]
fn create_decodes_canonical_spelling() {
    let req = decode_create_request("{\"Name\":\"vol1\",\"Opts\":{}}").unwrap();
    assert_eq!(req.name, "vol1");
    assert!(req.options.is_empty());
}

#[test]
fn create_decodes_lowercase_spelling() {
    let req = decode_create_request("{\"name\":\"vol1\",\"options\":{\"size\":\"10g\"}}").unwrap();
    assert_eq!(req.name, "vol1");
    assert_eq!(req.options, vec![("size".to_string(), "10g".to_string())]);
}

#[test]
fn create_accepts_mixed_spellings_and_whitespace() {
    let req = decode_create_request(" { \"Opts\" : { \"a\" : \"1\" , \"b\" : \"2\" } , \"name\" : \"v\" } ").unwrap();
    assert_eq!(req.name, "v");
    assert_eq!(
        req.options,
        vec![("a".to_string(), "1".to_string()), ("b".to_string(), "2".to_string())]
    );
}

#[test]
fn create_rejects_missing_options() {
    assert!(decode_create_request("{\"Name\":\"vol1\"}").is_none());
}

#[test]
fn create_rejects_missing_name() {
    assert!(decode_create_request("{\"Opts\":{}}").is_none());
}

#[test]
fn create_rejects_duplicate_field_across_spellings() {
    assert!(decode_create_request("{\"Name\":\"a\",\"name\":\"b\",\"Opts\":{}}").is_none());
}

#[test]
fn create_rejects_wrong_kind() {
    assert!(decode_create_request("{\"Name\":7,\"Opts\":{}}").is_none());
    assert!(decode_create_request("{\"Name\":\"a\",\"Opts\":[]}").is_none());
}

#[test]
fn create_skips_unknown_members() {
    let body = "{\"Name\":\"v\",\"Extra\":[1,2,{\"x\":null}],\"Opts\":{},\"Flag\":true}";
    let req = decode_create_request(body).unwrap();
    assert_eq!(req.name, "v");
    assert!(req.options.is_empty());
}

#[test]
fn create_rejects_trailing_content() {
    assert!(decode_create_request("{\"Name\":\"v\",\"Opts\":{}} x").is_none());
}

#[test]
fn create_rejects_non_object() {
    assert!(decode_create_request("[]").is_none());
    assert!(decode_create_request("\"Name\"").is_none());
    assert!(decode_create_request("").is_none());
    assert!(decode_create_request("{").is_none());
}

#[test]
fn name_requests_decode_both_spellings() {
    assert_eq!(decode_remove_request("{\"Name\":\"a\"}").unwrap().name, "a");
    assert_eq!(decode_remove_request("{\"name\":\"a\"}").unwrap().name, "a");
    assert_eq!(decode_path_request("{\"Name\":\"p\"}").unwrap().name, "p");
    assert_eq!(decode_get_request("{\"name\":\"g\"}").unwrap().name, "g");
}

#[test]
fn name_request_rejects_empty_object() {
    assert!(decode_remove_request("{}").is_none());
    assert!(decode_remove_request("{ }").is_none());
}

#[test]
fn attach_requests_decode_both_spellings() {
    let m = decode_mount_request("{\"Name\":\"v\",\"ID\":\"c1\"}").unwrap();
    assert_eq!(m.name, "v");
    assert_eq!(m.id, "c1");
    let u = decode_unmount_request("{\"id\":\"c2\",\"name\":\"w\"}").unwrap();
    assert_eq!(u.name, "w");
    assert_eq!(u.id, "c2");
}

#[test]
fn attach_request_rejects_missing_id() {
    assert!(decode_mount_request("{\"Name\":\"v\"}").is_none());
    assert!(decode_unmount_request("{\"ID\":\"c\"}").is_none());
}

#[test]
fn string_escapes_decode() {
    let req = decode_remove_request("{\"Name\":\"a\\\"b\\\\c\\/d\\n\\t\\r\\b\\f\"}").unwrap();
    assert_eq!(req.name, "a\"b\\c/d\n\t\r\u{8}\u{c}");
}

#[test]
fn unicode_escapes_decode() {
    let req = decode_remove_request("{\"Name\":\"\\u0041\\u00e9\"}").unwrap();
    assert_eq!(req.name, "Aé");
    let pair = decode_remove_request("{\"Name\":\"\\ud83d\\ude00\"}").unwrap();
    assert_eq!(pair.name, "😀");
}

#[test]
fn lone_surrogate_is_rejected() {
    assert!(decode_remove_request("{\"Name\":\"\\ud83d\"}").is_none());
    assert!(decode_remove_request("{\"Name\":\"\\ude00\"}").is_none());
}

#[test]
fn unescaped_control_character_is_rejected() {
    assert!(decode_remove_request("{\"Name\":\"a\u{1}b\"}").is_none());
}

#[test]
fn decoding_agrees_with_reference_parser_on_accepts() {
    let bodies = [
        "{\"Name\":\"vol1\",\"Opts\":{}}",
        "{\"Name\":\"v\",\"Extra\":[1,2,3],\"Opts\":{\"k\":\"x\"}}",
        "{\"Name\":\"\\u0041\"}",
        "{\"Name\":7}",
        "{\"Name\":\"v\",}",
        "{\"Name\":\"v\" \"x\"}",
    ];
    for body in bodies {
        let mine = decode_remove_request(body).is_some() || decode_create_request(body).is_some();
        let reference = serde_json::from_str::<serde_json::Value>(body).is_ok();
        if mine {
            assert!(reference, "accepted a body the reference parser rejects: {body}");
        }
    }
}

#[test]
fn null_response_encodes_empty_object() {
    assert_eq!(encode_null_response(), "{}");
}

#[test]
fn mount_and_path_responses_encode_canonical_field() {
    let m = MountResponse { mountpoint: "/mnt/volumes/v".to_string() };
    assert_eq!(encode_mount_response(&m), "{\"Mountpoint\":\"/mnt/volumes/v\"}");
    let p = PathResponse { mountpoint: String::new() };
    assert_eq!(encode_path_response(&p), "{\"Mountpoint\":\"\"}");
}

#[test]
fn get_response_encodes_volume_or_null() {
    assert_eq!(encode_get_response(&GetResponse { volume: None }), "{\"Volume\":null}");
    let v = Volume {
        name: "vol1".to_string(),
        mountpoint: "/mnt/volumes/vol1".to_string(),
        status: Vec::new(),
    };
    assert_eq!(
        encode_get_response(&GetResponse { volume: Some(v) }),
        "{\"Volume\":{\"Name\":\"vol1\",\"Mountpoint\":\"/mnt/volumes/vol1\",\"Status\":{}}}"
    );
}

#[test]
fn list_response_encodes_all_volumes() {
    let a = Volume { name: "a".to_string(), mountpoint: String::new(), status: Vec::new() };
    let b = Volume {
        name: "b".to_string(),
        mountpoint: "/mnt/volumes/b".to_string(),
        status: vec![("k".to_string(), "v".to_string())],
    };
    assert_eq!(
        encode_list_response(&ListResponse { volumes: vec![a, b] }),
        "{\"Volumes\":[{\"Name\":\"a\",\"Mountpoint\":\"\",\"Status\":{}},{\"Name\":\"b\",\"Mountpoint\":\"/mnt/volumes/b\",\"Status\":{\"k\":\"v\"}}]}"
    );
}

#[test]
fn capabilities_response_encodes_scope() {
    let local = CapabilitiesResponse { capabilities: Capability { scope: Scope::Local } };
    assert_eq!(
        encode_capabilities_response(&local),
        "{\"Capabilities\":{\"Scope\":\"local\"}}"
    );
    let global = CapabilitiesResponse { capabilities: Capability { scope: Scope::Global } };
    assert_eq!(
        encode_capabilities_response(&global),
        "{\"Capabilities\":{\"Scope\":\"global\"}}"
    );
}

#[test]
fn encoded_strings_escape_like_the_reference_encoder() {
    let v = Volume {
        name: "a\"b\\c\n\t\u{1}".to_string(),
        mountpoint: String::new(),
        status: Vec::new(),
    };
    let mine = encode_get_response(&GetResponse { volume: Some(v) });
    let parsed: serde_json::Value = serde_json::from_str(&mine).unwrap();
    assert_eq!(parsed["Volume"]["Name"].as_str().unwrap(), "a\"b\\c\n\t\u{1}");
}

#[test]
fn encoded_output_round_trips_through_decoder() {
    let m = MountResponse { mountpoint: "/mnt/\u{8}\u{c}é😀".to_string() };
    let encoded = encode_mount_response(&m);
    let parsed: serde_json::Value = serde_json::from_str(&encoded).unwrap();
    assert_eq!(parsed["Mountpoint"].as_str().unwrap(), "/mnt/\u{8}\u{c}é😀");
}

#[test]
fn duplicate_option_keys_keep_both_pairs_in_order() {
    let req = decode_create_request("{\"Name\":\"v\",\"Opts\":{\"a\":\"1\",\"a\":\"2\"}}").unwrap();
    assert_eq!(
        req.options,
        vec![("a".to_string(), "1".to_string()), ("a".to_string(), "2".to_string())]
    );
}

#[test]
fn unknown_member_nesting_is_bounded() {
    let shallow = format!(
        "{{\"Name\":\"v\",\"Extra\":{}{}}}",
        "[".repeat(50),
        "]".repeat(50)
    );
    assert!(decode_remove_request(&shallow).is_some());
    let deep = format!(
        "{{\"Name\":\"v\",\"Extra\":{}{}}}",
        "[".repeat(200),
        "]".repeat(200)
    );
    assert!(decode_remove_request(&deep).is_none());
}

#[test]
fn skipped_numbers_follow_the_number_grammar() {
    assert!(decode_remove_request("{\"Name\":\"v\",\"N\":-12.5e+3}").is_some());
    assert!(decode_remove_request("{\"Name\":\"v\",\"N\":0}").is_some());
    assert!(decode_remove_request("{\"Name\":\"v\",\"N\":01}").is_none());
    assert!(decode_remove_request("{\"Name\":\"v\",\"N\":1.}").is_none());
    assert!(decode_remove_request("{\"Name\":\"v\",\"N\":--1}").is_none());
}
