// The service end to end, against a store that is kept in memory: each test
// sends requests the way a client of the HTTP surface would.

use std::collections::HashMap;

use base64::encode;
use litebin::{
    handle, loaded, stored, upload, Credentials, Request, Response, Route, Step, StoreError,
    Strategy,
};
use rocket::http::{ContentType, Status};
use rocket_basicauth::BasicAuth;

struct Call {
    route: Route,
    headers: Vec<(String, String)>,
    body: Vec<u8>,
}

fn get(path: &str) -> Call {
    let route = match path {
        "/" => Route::Index,
        "/test_auth" => Route::TestAuth,
        name => Route::Retrieve(name[1..].to_string()),
    };
    Call { route, headers: Vec::new(), body: Vec::new() }
}

fn post_upload() -> Call {
    Call { route: Route::Upload, headers: Vec::new(), body: Vec::new() }
}

impl Call {
    fn header(mut self, name: &str, value: &str) -> Call {
        self.headers.push((name.to_string(), value.to_string()));
        self
    }

    fn body(mut self, body: &str) -> Call {
        self.body = body.as_bytes().to_vec();
        self
    }

    fn values(&self, name: &str) -> Vec<String> {
        self.headers.iter().filter(|h| h.0 == name).map(|h| h.1.clone()).collect()
    }

    fn request(&self) -> Request {
        let keys = self.values("Authorization");
        let credentials = if keys.len() == 1 {
            BasicAuth::new(keys[0].as_str()).map(|auth| Credentials::new(auth.username, auth.password))
        } else {
            None
        };
        Request::new(credentials, self.values("Host").into_iter().next())
    }
}

struct Client {
    secrets: Credentials,
    files: HashMap<String, Vec<u8>>,
}

impl Client {
    fn new() -> Client {
        Client { secrets: Credentials::from_environment(None, None), files: HashMap::new() }
    }

    fn dispatch(&mut self, call: Call) -> Response {
        let mut step = handle(&call.route, &call.request(), &self.secrets);
        loop {
            step = match step {
                Step::Respond(response) => return response,
                Step::ReadBody { auth, site_url } => upload(auth, site_url, call.body.clone()),
                Step::Store { path, bytes, link } => {
                    self.files.insert(path, bytes);
                    return stored(link, Ok(()));
                },
                Step::Load { path, hint } => {
                    let outcome = match self.files.get(&path) {
                        Some(bytes) => Ok(bytes.clone()),
                        None => Err(StoreError::Missing(format!("no file at {}", path))),
                    };
                    return loaded(Strategy::default(), hint.as_str(), outcome);
                },
            };
        }
    }
}

fn into_string(response: Response) -> String {
    String::from_utf8(response.body).unwrap()
}

fn first_header(response: &Response) -> Option<(String, String)> {
    response.headers.first().map(|h| (h.name.clone(), h.value.clone()))
}

#[test]
fn test_index() {
    let mut client = Client::new();
    let response = client.dispatch(get("/"));
    assert_eq!(response.status.code(), Status::Ok.code);
    assert_eq!(into_string(response), "litebin.");
}

#[test]
fn tests_test_auth() {
    let mut client = Client::new();

    // Send unauthorised request
    let init_response = client.dispatch(get("/test_auth"));
    assert_eq!(init_response.status.code(), Status::Unauthorized.code);

    // Send authorised request
    let default_credentials_base64 = encode("hello:world");
    let authorisation = format!("Basic {}", default_credentials_base64);
    let response = client.dispatch(get("/test_auth").header("Authorization", &authorisation));
    assert_eq!(response.status.code(), Status::Ok.code);
    assert_eq!(into_string(response), "Test Authentication.");
}

#[test]
fn test_upload_and_retrieve() {
    let body_content = "hello world";
    let host = "test";

    // Send authorised request with text body content
    let mut client = Client::new();
    let authorisation = format!("Basic {}", encode("hello:world"));
    let response = client.dispatch(
        post_upload()
            .header("Host", host)
            .body(body_content)
            .header("Authorization", &authorisation.clone()),
    );

    assert_eq!(response.status.code(), Status::Ok.code);

    // Get returned end of url and host
    let mut returned_url = into_string(response);
    returned_url.pop();
    let url_split: Vec<&str> = returned_url.as_str().split('/').collect();
    assert_eq!(url_split[0], host);

    // Get uploaded content
    let response = client
        .dispatch(get(&format!("/{}", url_split[1])).header("Authorization", &authorisation));

    let plain = ContentType::Plain;
    assert_eq!(
        first_header(&response),
        Some(("Content-Type".to_string(), plain.to_string()))
    );
    assert_eq!(response.status.code(), Status::Ok.code);
    assert_eq!(into_string(response), body_content);
}

#[test]
fn test_unauthorised() {
    let mut client = Client::new();

    // No SiteURL / Host header
    let response = client.dispatch(
        post_upload()
            .body("hello world")
            .header("Authorization", &format!("Basic {}", encode("hello:world"))),
    );

    assert_eq!(response.status.code(), Status::BadRequest.code);

    // Incorrect username and password
    let response = client.dispatch(
        get("/test_auth").header("Authorization", &format!("Basic {}", encode("test:test"))),
    );

    assert_eq!(response.status.code(), Status::Unauthorized.code);
}

#[test]
fn upload_without_host_writes_no_file() {
    let mut client = Client::new();
    let authorisation = format!("Basic {}", encode("hello:world"));
    let response =
        client.dispatch(post_upload().body("hello world").header("Authorization", &authorisation));
    assert_eq!(response.status, litebin::Status::BadRequest);
    assert!(client.files.is_empty());
}

#[test]
fn unauthenticated_requests_are_challenged_and_touch_no_file() {
    let mut client = Client::new();
    let authorisation = format!("Basic {}", encode("hello:world"));
    let stored = client.dispatch(
        post_upload().header("Host", "test").body("kept").header("Authorization", &authorisation),
    );
    let mut link = into_string(stored);
    link.pop();
    let name = link.split('/').nth(1).unwrap().to_string();

    let wrong = format!("Basic {}", encode("hello:wrong"));
    let calls = vec![
        get("/test_auth"),
        get(&format!("/{}", name)),
        get(&format!("/{}", name)).header("Authorization", &wrong),
        post_upload().header("Host", "test").body("dropped"),
        post_upload().header("Host", "test").body("dropped").header("Authorization", &wrong),
        post_upload().body("dropped"),
        get("/test_auth").header("Authorization", "Basic"),
        get("/test_auth").header("Authorization", "Bearer aGVsbG86d29ybGQ="),
        get("/test_auth")
            .header("Authorization", &authorisation)
            .header("Authorization", &authorisation),
    ];
    for call in calls {
        let response = client.dispatch(call);
        assert_eq!(response.status, litebin::Status::Unauthorized);
        assert_eq!(response.status.code(), 401);
        assert_eq!(
            first_header(&response),
            Some(("WWW-Authenticate".to_string(), "Basic".to_string()))
        );
        assert_eq!(response.headers.len(), 1);
        assert!(response.body.is_empty());
        assert_eq!(client.files.len(), 1);
    }
}

#[test]
fn retrieval_is_repeatable() {
    let mut client = Client::new();
    let authorisation = format!("Basic {}", encode("hello:world"));
    let response = client.dispatch(
        post_upload()
            .header("Host", "test")
            .body("hello world")
            .header("Authorization", &authorisation),
    );
    let mut link = into_string(response);
    link.pop();
    let path = format!("/{}", link.split('/').nth(1).unwrap());
    let first = client.dispatch(get(&path).header("Authorization", &authorisation));
    let second = client.dispatch(get(&path).header("Authorization", &authorisation));
    assert_eq!(first.status, litebin::Status::Success);
    assert_eq!(first.status, second.status);
    assert_eq!(first.body, second.body);
    assert_eq!(first_header(&first), first_header(&second));
    assert_eq!(client.files.len(), 1);
}

#[test]
fn unknown_name_is_not_found() {
    let mut client = Client::new();
    let authorisation = format!("Basic {}", encode("hello:world"));
    let response = client.dispatch(get("/abcd1234.png").header("Authorization", &authorisation));
    assert_eq!(response.status, litebin::Status::NotFound);
    assert_eq!(response.status.code(), 404);
    assert_eq!(into_string(response), "no file at upload/abcd1234.png");
}

#[test]
fn unsafe_name_reads_no_file() {
    let mut client = Client::new();
    client.files.insert("upload/../secret".to_string(), b"secret".to_vec());
    let authorisation = format!("Basic {}", encode("hello:world"));
    let response = client.dispatch(get("/../secret").header("Authorization", &authorisation));
    assert_eq!(response.status, litebin::Status::NotFound);
    assert!(response.body.is_empty());
}

#[test]
fn image_upload_is_named_and_served_by_its_signature() {
    let png: Vec<u8> = vec![0x89, 0x50, 0x4e, 0x47, 0x0d, 0x0a, 0x1a, 0x0a, 0, 0, 0, 13];
    let mut client = Client::new();
    let authorisation = format!("Basic {}", encode("hello:world"));
    let mut call = post_upload().header("Host", "paste.example").header("Authorization", &authorisation);
    call.body = png.clone();
    let response = client.dispatch(call);
    assert_eq!(response.status, litebin::Status::Success);
    let link = into_string(response);
    assert!(link.starts_with("paste.example/"));
    assert!(link.ends_with(".png\n"));
    assert_eq!(link.len(), "paste.example/".len() + 16 + ".png\n".len());
    let name = &link["paste.example/".len()..link.len() - 1];
    assert_eq!(client.files.get(&format!("upload/{}", name)), Some(&png));

    let response = client.dispatch(get(&format!("/{}", name)).header("Authorization", &authorisation));
    assert_eq!(first_header(&response), Some(("Content-Type".to_string(), "image/png".to_string())));
    assert_eq!(response.body, png);
}
