use b2_bench::backblaze_api::BackblazeApi;
use b2_bench::config::Config;
use b2_bench::consts::{API_VERSION, BASE_URL, MAX_FILE_COUNT};
use b2_bench::digest::sha1_hex;
use b2_bench::error::{ApiError, Operation};
use b2_bench::exchange::{is_header_text, Method, Outcome, Request};
use b2_bench::models::{ApiInfo, AuthorizeAccount, B2File, GetUploadUrl, ListFileNames, StorageApi};
use b2_bench::timing::Elapsed;

fn config() -> Config {
    Config::new(Some("key-id".to_string()), Some("key-secret".to_string()), Some("samples".to_string()))
        .unwrap()
}

fn reply(token: &str, bucket_name: &str) -> AuthorizeAccount {
    AuthorizeAccount {
        authorization_token: token.to_string(),
        application_key_expiration_timestamp: None,
        api_info: ApiInfo {
            storage_api: StorageApi {
                bucket_id: "b1d".to_string(),
                bucket_name: bucket_name.to_string(),
                api_url: "https://api005.example.com".to_string(),
                s3_api_url: "https://s3.example.com".to_string(),
                download_url: "https://f005.example.com".to_string(),
                name_prefix: "audio".to_string(),
            },
        },
    }
}

fn success<T>(payload: T) -> Outcome<T> {
    Outcome::Reply { status: 200, payload: Some(payload) }
}

fn session() -> BackblazeApi {
    BackblazeApi::new(&config(), success(reply("4_token", "samples"))).unwrap()
}

fn page(names: &[&str]) -> ListFileNames {
    ListFileNames {
        files: names.iter().map(|name| B2File { file_name: name.to_string() }).collect(),
        next_file_name: None,
    }
}

fn header_value(request: &Request, name: &str) -> Vec<String> {
    request.headers.iter().filter(|h| h.name == name).map(|h| h.value.clone()).collect()
}

fn auth_error() -> Option<ApiError> {
    Some(ApiError::Authentication { operation: Operation::AuthorizeAccount })
}

#[test]
fn constants_are_the_providers() {
    assert_eq!(BASE_URL, "https://api.backblazeb2.com");
    assert_eq!(API_VERSION, "b2api/v3");
    assert_eq!(MAX_FILE_COUNT, 10_000);
}

#[test]
fn authorize_request_uses_basic_auth() {
    let request = BackblazeApi::authorize_request(&config());
    assert_eq!(request.method, Method::Get);
    assert_eq!(request.url, "https://api.backblazeb2.com/b2api/v3/b2_authorize_account");
    let auth = request.basic_auth.unwrap();
    assert_eq!(auth.user, "key-id");
    assert_eq!(auth.password, "key-secret");
    assert!(request.query.is_empty());
    assert!(request.headers.is_empty());
    assert!(request.body.is_empty());
}

#[test]
fn valid_authorization_opens_a_session() {
    let api = session();
    assert_eq!(api.versionless_api_url(), "https://api005.example.com");
    assert_eq!(api.api_url(), "https://api005.example.com/b2api/v3");
    assert_eq!(api.bucket_id(), "b1d");
    assert_eq!(api.bucket(), "samples");
    assert_eq!(api.bucket(), config().bucket);
    assert_eq!(api.prefix(), "audio");
    let request = api.download_file_by_name("x");
    assert_eq!(header_value(&request, "authorization"), vec!["4_token".to_string()]);
}

#[test]
fn empty_token_opens_no_session() {
    let result = BackblazeApi::new(&config(), success(reply("", "samples")));
    assert_eq!(result.err(), auth_error());
}

#[test]
fn unsendable_token_opens_no_session() {
    let result = BackblazeApi::new(&config(), success(reply("tok\nen", "samples")));
    assert_eq!(result.err(), auth_error());
}

#[test]
fn another_bucket_opens_no_session() {
    let result = BackblazeApi::new(&config(), success(reply("4_token", "elsewhere")));
    assert_eq!(result.err(), auth_error());
}

#[test]
fn rejected_key_opens_no_session() {
    let outcome = Outcome::Reply { status: 401, payload: Some(reply("4_token", "samples")) };
    assert_eq!(BackblazeApi::new(&config(), outcome).err(), auth_error());
    let outcome = Outcome::Reply { status: 401, payload: None };
    assert_eq!(BackblazeApi::new(&config(), outcome).err(), auth_error());
}

#[test]
fn failed_authorization_opens_no_session() {
    assert_eq!(BackblazeApi::new(&config(), Outcome::TransportFailure).err(), auth_error());
    let malformed = Outcome::Reply { status: 200, payload: None };
    assert_eq!(BackblazeApi::new(&config(), malformed).err(), auth_error());
    let failed = Outcome::Reply { status: 500, payload: Some(reply("4_token", "samples")) };
    assert_eq!(BackblazeApi::new(&config(), failed).err(), auth_error());
    assert_eq!(
        BackblazeApi::new(&config(), Outcome::LocalFailure).err(),
        Some(ApiError::LocalIo { operation: Operation::AuthorizeAccount })
    );
}

#[test]
fn description_leaves_the_token_out() {
    let text = session().describe();
    assert_eq!(
        text,
        "api_url = https://api005.example.com/b2api/v3\nbucket_id = b1d\nbucket = samples\nprefix = audio"
    );
    assert!(!text.contains("4_token"));
}

#[test]
fn upload_info_request_names_the_bucket() {
    let request = session().upload_info_request();
    assert_eq!(request.method, Method::Get);
    assert_eq!(request.url, "https://api005.example.com/b2api/v3/b2_get_upload_url");
    assert!(request.basic_auth.is_none());
    assert_eq!(request.query.len(), 1);
    assert_eq!(request.query[0].name, "bucketId");
    assert_eq!(request.query[0].value, "b1d");
    assert_eq!(request.headers.len(), 1);
    assert_eq!(request.headers[0].name, "authorization");
    assert_eq!(request.headers[0].value, "4_token");
    assert!(request.headers[0].sensitive);
    assert!(request.body.is_empty());
}

#[test]
fn upload_ticket_is_read_from_the_reply() {
    let ticket = GetUploadUrl {
        authorization_token: "up_token".to_string(),
        upload_url: "https://pod.example.com/upload/1".to_string(),
    };
    let got = session().get_upload_info(success(ticket)).ok().unwrap();
    assert_eq!(got.authorization_token, "up_token");
    assert_eq!(got.upload_url, "https://pod.example.com/upload/1");
}

#[test]
fn upload_ticket_failures() {
    let api = session();
    let expired: Outcome<GetUploadUrl> = Outcome::Reply { status: 401, payload: None };
    assert_eq!(
        api.get_upload_info(expired).err(),
        Some(ApiError::Authentication { operation: Operation::GetUploadUrl })
    );
    let malformed: Outcome<GetUploadUrl> = Outcome::Reply { status: 200, payload: None };
    assert_eq!(
        api.get_upload_info(malformed).err(),
        Some(ApiError::Request { operation: Operation::GetUploadUrl })
    );
    assert_eq!(
        api.get_upload_info(Outcome::TransportFailure).err(),
        Some(ApiError::Request { operation: Operation::GetUploadUrl })
    );
}

#[test]
fn upload_request_carries_ticket_name_and_hash() {
    let ticket = GetUploadUrl {
        authorization_token: "up_token".to_string(),
        upload_url: "https://pod.example.com/upload/1".to_string(),
    };
    let content = b"abc".to_vec();
    let request = session().upload_file(&ticket, content.clone(), "clip.ogg".to_string()).unwrap();
    assert_eq!(request.method, Method::Post);
    assert_eq!(request.url, "https://pod.example.com/upload/1");
    assert!(request.basic_auth.is_none());
    assert!(request.query.is_empty());
    assert_eq!(request.body, content);
    assert_eq!(request.headers.len(), 4);
    assert_eq!(header_value(&request, "authorization"), vec!["up_token".to_string()]);
    assert_eq!(header_value(&request, "content-type"), vec!["b2/x-auto".to_string()]);
    assert_eq!(header_value(&request, "X-Bz-File-Name"), vec!["audio/clip.ogg".to_string()]);
    assert_eq!(
        header_value(&request, "X-Bz-Content-Sha1"),
        vec!["A9993E364706816ABA3E25717850C26C9CD0D89D".to_string()]
    );
    assert_eq!(header_value(&request, "X-Bz-Content-Sha1"), vec![sha1_hex(&content)]);
    for header in request.headers.iter() {
        assert_eq!(header.sensitive, header.name == "authorization");
        assert!(is_header_text(&header.value));
    }
}

#[test]
fn upload_of_nothing_has_the_hash_of_nothing() {
    let ticket = GetUploadUrl {
        authorization_token: "up_token".to_string(),
        upload_url: "https://pod.example.com/upload/1".to_string(),
    };
    let request = session().upload_file(&ticket, vec![], "empty".to_string()).unwrap();
    assert!(request.body.is_empty());
    assert_eq!(
        header_value(&request, "X-Bz-Content-Sha1"),
        vec!["DA39A3EE5E6B4B0D3255BFEF95601890AFD80709".to_string()]
    );
}

#[test]
fn upload_with_unsendable_name_or_ticket_fails() {
    let failed = Some(ApiError::Request { operation: Operation::UploadFile });
    let good = GetUploadUrl {
        authorization_token: "up_token".to_string(),
        upload_url: "https://pod.example.com/upload/1".to_string(),
    };
    let bad = GetUploadUrl {
        authorization_token: "up\u{7f}token".to_string(),
        upload_url: "https://pod.example.com/upload/1".to_string(),
    };
    let api = session();
    assert_eq!(api.upload_file(&good, vec![1], "a\nb".to_string()).err(), failed);
    assert_eq!(api.upload_file(&bad, vec![1], "clip.ogg".to_string()).err(), failed);
    assert!(api.upload_file(&good, vec![1], "clip.ogg".to_string()).is_ok());
}

#[test]
fn upload_result_follows_the_reply() {
    let api = session();
    assert_eq!(api.upload_result(success(())), Ok(()));
    assert_eq!(
        api.upload_result(Outcome::Reply { status: 200, payload: None }),
        Err(ApiError::Request { operation: Operation::UploadFile })
    );
    assert_eq!(
        api.upload_result(Outcome::Reply { status: 403, payload: Some(()) }),
        Err(ApiError::Authentication { operation: Operation::UploadFile })
    );
    assert_eq!(
        api.upload_result(Outcome::LocalFailure),
        Err(ApiError::LocalIo { operation: Operation::UploadFile })
    );
}

#[test]
fn list_request_asks_for_one_capped_page() {
    let request = session().list_request().unwrap();
    assert_eq!(request.method, Method::Post);
    assert_eq!(request.url, "https://api005.example.com/b2api/v3/b2_list_file_names");
    assert!(request.basic_auth.is_none());
    assert!(request.query.is_empty());
    assert_eq!(header_value(&request, "authorization"), vec!["4_token".to_string()]);
    let body = String::from_utf8(request.body).unwrap();
    assert_eq!(body, "{\"bucketId\":\"b1d\",\"maxFileCount\":10000,\"prefix\":\"audio\"}");
}

#[test]
fn list_request_escapes_its_texts() {
    let mut odd = reply("4_token", "samples");
    odd.api_info.storage_api.bucket_id = "a\"b".to_string();
    odd.api_info.storage_api.name_prefix = "back\\slash".to_string();
    let api = BackblazeApi::new(&config(), success(odd)).unwrap();
    let body = String::from_utf8(api.list_request().unwrap().body).unwrap();
    assert_eq!(body, "{\"bucketId\":\"a\\\"b\",\"maxFileCount\":10000,\"prefix\":\"back\\\\slash\"}");
}

#[test]
fn list_request_with_given_text() {
    let api = session();
    let request = api.list_request_with(Some("{}".to_string())).unwrap();
    assert_eq!(request.body, b"{}".to_vec());
    assert_eq!(request.method, Method::Post);
    assert_eq!(request.url, "https://api005.example.com/b2api/v3/b2_list_file_names");
    assert_eq!(
        api.list_request_with(None).err(),
        Some(ApiError::Request { operation: Operation::ListFileNames })
    );
}

#[test]
fn listing_yields_the_names_in_order() {
    let names = session().list_files(success(page(&["audio/b", "audio/a", "audio/b"]))).unwrap();
    assert_eq!(names, vec!["audio/b".to_string(), "audio/a".to_string(), "audio/b".to_string()]);
}

#[test]
fn listing_ignores_the_cursor() {
    let mut first = page(&["audio/a"]);
    first.next_file_name = Some("audio/b".to_string());
    let names = session().list_files(success(first)).unwrap();
    assert_eq!(names, vec!["audio/a".to_string()]);
}

#[test]
fn listing_of_an_empty_page_is_empty() {
    assert_eq!(session().list_files(success(page(&[]))).unwrap(), Vec::<String>::new());
}

#[test]
fn listing_holds_at_most_the_cap() {
    let full: Vec<B2File> = (0..10_000).map(|i| B2File { file_name: format!("audio/{i}") }).collect();
    let mut over = full.clone();
    over.push(B2File { file_name: "audio/one-too-many".to_string() });
    let api = session();
    let names = api.list_files(success(ListFileNames { files: full, next_file_name: None })).unwrap();
    assert_eq!(names.len(), 10_000);
    assert_eq!(names[0], "audio/0");
    assert_eq!(names[9_999], "audio/9999");
    let result = api.list_files(success(ListFileNames { files: over, next_file_name: None }));
    assert_eq!(result, Err(ApiError::Request { operation: Operation::ListFileNames }));
}

#[test]
fn listing_failures() {
    let api = session();
    let expired = Outcome::Reply { status: 401, payload: Some(page(&["audio/a"])) };
    assert_eq!(
        api.list_files(expired),
        Err(ApiError::Authentication { operation: Operation::ListFileNames })
    );
    let unparsed: Outcome<ListFileNames> = Outcome::Reply { status: 401, payload: None };
    assert_eq!(
        api.list_files(unparsed),
        Err(ApiError::Authentication { operation: Operation::ListFileNames })
    );
    let malformed: Outcome<ListFileNames> = Outcome::Reply { status: 200, payload: None };
    assert_eq!(api.list_files(malformed), Err(ApiError::Request { operation: Operation::ListFileNames }));
    assert_eq!(
        api.list_files(Outcome::TransportFailure),
        Err(ApiError::Request { operation: Operation::ListFileNames })
    );
}

#[test]
fn download_request_addresses_the_object() {
    let request = session().download_file_by_name("audio/clip 1.ogg");
    assert_eq!(request.method, Method::Get);
    assert_eq!(request.url, "https://api005.example.com/file/samples/audio/clip 1.ogg");
    assert!(request.basic_auth.is_none());
    assert!(request.query.is_empty());
    assert_eq!(request.headers.len(), 1);
    assert_eq!(request.headers[0].name, "authorization");
    assert_eq!(request.headers[0].value, "4_token");
    assert!(request.headers[0].sensitive);
    assert!(request.body.is_empty());
}

#[test]
fn every_listed_name_gives_a_download_request() {
    let api = session();
    let names = api.list_files(success(page(&["audio/a", "", "audio/\u{fc}ber"]))).unwrap();
    for name in names.iter() {
        let request = api.download_file_by_name(name);
        assert_eq!(request.url, format!("https://api005.example.com/file/samples/{name}"));
        let span = Elapsed::new(0, 5_000_000).unwrap();
        let took = api.download_result(success(span)).unwrap();
        assert_eq!(took.as_millis(), 5);
    }
}

#[test]
fn download_result_follows_the_reply() {
    let api = session();
    let span = Elapsed::new(1, 500_000_000).unwrap();
    let took = api.download_result(success(span)).unwrap();
    assert_eq!(took.as_millis(), 1500);
    assert_eq!(
        api.download_result(Outcome::Reply { status: 404, payload: Some(span) }).err(),
        Some(ApiError::Request { operation: Operation::DownloadFile })
    );
    assert_eq!(
        api.download_result(Outcome::Reply { status: 401, payload: Some(span) }).err(),
        Some(ApiError::Authentication { operation: Operation::DownloadFile })
    );
    assert_eq!(
        api.download_result(Outcome::LocalFailure).err(),
        Some(ApiError::LocalIo { operation: Operation::DownloadFile })
    );
    assert_eq!(
        api.download_result(Outcome::TransportFailure).err(),
        Some(ApiError::Request { operation: Operation::DownloadFile })
    );
}

#[test]
fn uploaded_name_is_found_in_a_later_listing() {
    let api = session();
    let ticket = GetUploadUrl {
        authorization_token: "up_token".to_string(),
        upload_url: "https://pod.example.com/upload/1".to_string(),
    };
    let request = api.upload_file(&ticket, b"data".to_vec(), "new.ogg".to_string()).unwrap();
    let assigned = header_value(&request, "X-Bz-File-Name");
    assert_eq!(assigned, vec!["audio/new.ogg".to_string()]);
    let names = api.list_files(success(page(&["audio/old.ogg", "audio/new.ogg"]))).unwrap();
    assert!(names.contains(&assigned[0]));
}

#[test]
fn list_request_comes_for_every_session() {
    for (bucket_id, prefix) in [("", ""), ("b1d", ""), ("\u{0}\n", "\u{fc}ber/\"q\""), ("id", "a/b/c")] {
        let mut odd = reply("4_token", "samples");
        odd.api_info.storage_api.bucket_id = bucket_id.to_string();
        odd.api_info.storage_api.name_prefix = prefix.to_string();
        let api = BackblazeApi::new(&config(), success(odd)).unwrap();
        let request = api.list_request().unwrap();
        assert_eq!(request.method, Method::Post);
        assert_eq!(request.url, "https://api005.example.com/b2api/v3/b2_list_file_names");
        assert_eq!(header_value(&request, "authorization"), vec!["4_token".to_string()]);
        let body: serde_json::Value = serde_json::from_slice(&request.body).unwrap();
        let members = body.as_object().unwrap();
        assert_eq!(members.len(), 3);
        assert_eq!(members["bucketId"].as_str(), Some(bucket_id));
        assert_eq!(members["prefix"].as_str(), Some(prefix));
        assert_eq!(members["maxFileCount"].as_u64(), Some(10_000));
    }
}
