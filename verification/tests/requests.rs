use drive_client::descriptor::Method;
use drive_client::ops;
use drive_client::request::{build_request, ParameterSet, Payload};
use drive_client::schema::{AboutGetParams, FilesCreateParams, FilesGetParams};

#[test]
fn bare_get_url_is_exactly_base_path_token_fields() {
    let desc = ops::about_get();
    let params = AboutGetParams {}.to_parameters();
    let req = build_request(&desc, &params, b"tok123", &Payload::NoBody).unwrap();
    assert_eq!(
        String::from_utf8(req.url).unwrap(),
        "https://www.googleapis.com/drive/v3/about?oauth_token=tok123&fields=*"
    );
    assert_eq!(req.method, Method::Get);
    assert_eq!(req.body, Vec::<u8>::new());
}

#[test]
fn path_placeholder_is_substituted_unescaped() {
    let desc = ops::files_get();
    let params = FilesGetParams { file_id: "abc 123".to_string(), ..Default::default() }
        .to_parameters();
    let req = build_request(&desc, &params, b"t", &Payload::NoBody).unwrap();
    assert_eq!(
        String::from_utf8(req.url).unwrap(),
        "https://www.googleapis.com/drive/v3/files/abc 123?oauth_token=t&fields=*"
    );
}

#[test]
fn missing_path_parameter_is_refused_at_build() {
    let desc = ops::files_get();
    let empty = ParameterSet { path: Vec::new(), query: Vec::new() };
    assert!(build_request(&desc, &empty, b"t", &Payload::NoBody).is_none());
}

#[test]
fn upload_request_carries_content_length_and_no_content_type() {
    let desc = ops::files_create_upload();
    let params = FilesCreateParams::default().to_parameters();
    let data = vec![7u8; 1024];
    let req = build_request(&desc, &params, b"tok", &Payload::Raw(data.clone())).unwrap();
    assert_eq!(req.headers.len(), 1);
    assert_eq!(req.headers[0].name, b"Content-Length".to_vec());
    assert_eq!(req.headers[0].value, b"1024".to_vec());
    assert!(req.headers.iter().all(|h| h.name != b"Content-Type".to_vec()));
    assert_eq!(req.body, data);
    assert_eq!(
        String::from_utf8(req.url).unwrap(),
        "https://www.googleapis.com/upload/drive/v3/files?uploadType=media&oauth_token=tok&fields=*"
    );
}

#[test]
fn json_payload_is_sent_verbatim_with_json_content_type() {
    let desc = ops::files_create();
    let params = FilesCreateParams::default().to_parameters();
    let req = build_request(&desc, &params, b"tok", &Payload::Json(b"{\"name\":\"x\"}".to_vec()))
        .unwrap();
    assert_eq!(req.method, Method::Post);
    assert_eq!(req.headers.len(), 1);
    assert_eq!(req.headers[0].name, b"Content-Type".to_vec());
    assert_eq!(req.headers[0].value, b"application/json".to_vec());
    assert_eq!(req.body, b"{\"name\":\"x\"}".to_vec());
}

#[test]
fn null_payload_sentinel_clears_the_body() {
    let desc = ops::files_create();
    let params = FilesCreateParams::default().to_parameters();
    let req = build_request(&desc, &params, b"tok", &Payload::Json(b"null".to_vec())).unwrap();
    assert_eq!(req.body, Vec::<u8>::new());
    assert_eq!(req.headers[0].name, b"Content-Type".to_vec());
}

#[test]
fn building_twice_gives_identical_requests() {
    let desc1 = ops::files_copy();
    let desc2 = ops::files_copy();
    let make_params = || {
        drive_client::schema::FilesCopyParams {
            file_id: "f99".to_string(),
            keep_revision_forever: Some(true),
            ocr_language: Some("da".to_string()),
            ..Default::default()
        }
        .to_parameters()
    };
    let payload = b"{\"name\":\"copy\"}".to_vec();
    let r1 = build_request(&desc1, &make_params(), b"tok", &Payload::Json(payload.clone()))
        .unwrap();
    let r2 = build_request(&desc2, &make_params(), b"tok", &Payload::Json(payload)).unwrap();
    assert_eq!(r1, r2);
}

#[test]
fn optional_parameters_follow_the_fixed_prefix() {
    let desc = ops::files_get();
    let params = FilesGetParams {
        file_id: "f1".to_string(),
        acknowledge_abuse: Some(true),
        include_permissions_for_view: Some("published".to_string()),
        ..Default::default()
    }
    .to_parameters();
    let req = build_request(&desc, &params, b"tk", &Payload::NoBody).unwrap();
    assert_eq!(
        String::from_utf8(req.url).unwrap(),
        "https://www.googleapis.com/drive/v3/files/f1?oauth_token=tk&fields=*\
         &acknowledgeAbuse=true&includePermissionsForView=published"
    );
}

#[test]
fn update_upload_substitutes_the_placeholder_in_the_upload_path() {
    let desc = ops::files_update_upload();
    let params = drive_client::schema::FilesUpdateParams {
        file_id: "f7".to_string(),
        ..Default::default()
    }
    .to_parameters();
    let req = build_request(&desc, &params, b"tok", &Payload::Raw(b"body".to_vec())).unwrap();
    assert_eq!(req.method, Method::Patch);
    assert_eq!(
        String::from_utf8(req.url).unwrap(),
        "https://www.googleapis.com/upload/drive/v3/files/f7?uploadType=media&oauth_token=tok&fields=*"
    );
    assert_eq!(req.headers[0].value, b"4".to_vec());
}

#[test]
fn list_parameters_ride_behind_the_fixed_prefix() {
    let desc = ops::files_list();
    let params = drive_client::schema::FilesListParams {
        page_size: Some(5),
        q: Some("name = 'x'".to_string()),
        ..Default::default()
    }
    .to_parameters();
    let req = build_request(&desc, &params, b"tk", &Payload::NoBody).unwrap();
    assert_eq!(
        String::from_utf8(req.url).unwrap(),
        "https://www.googleapis.com/drive/v3/files?oauth_token=tk&fields=*\
         &pageSize=5&q=name%20%3D%20%27x%27"
    );
}
