// The routes as a client sees them, against a store that is kept in memory.

use std::collections::HashMap;

use base64::encode;
use litebin::{
    handle, loaded, stored, upload, Credentials, Request, Response, Route, Step, StoreError,
    Strategy,
};
use rocket::http::Status;
use rocket_basicauth::BasicAuth;

struct Call {
    route: Route,
    headers: Vec<(String, String)>,
    body: Vec<u8>,
}

fn get(path: &str) -> Call {
    let route = match path {
        "/" => Route::Index,
        "/test_auth" => Route::TestAuth,
        name => Route::Retrieve(name[1..].to_string()),
    };
    Call { route, headers: Vec::new(), body: Vec::new() }
}

fn post_upload() -> Call {
    Call { route: Route::Upload, headers: Vec::new(), body: Vec::new() }
}

impl Call {
    fn header(mut self, name: &str, value: &str) -> Call {
        self.headers.push((name.to_string(), value.to_string()));
        self
    }

    fn body(mut self, body: &str) -> Call {
        self.body = body.as_bytes().to_vec();
        self
    }

    fn values(&self, name: &str) -> Vec<String> {
        self.headers.iter().filter(|h| h.0 == name).map(|h| h.1.clone()).collect()
    }

    fn request(&self) -> Request {
        let keys = self.values("Authorization");
        let credentials = if keys.len() == 1 {
            BasicAuth::new(keys[0].as_str()).map(|auth| Credentials::new(auth.username, auth.password))
        } else {
            None
        };
        Request::new(credentials, self.values("Host").into_iter().next())
    }
}

struct Client {
    secrets: Credentials,
    files: HashMap<String, Vec<u8>>,
}

impl Client {
    fn new() -> Client {
        Client { secrets: Credentials::from_environment(None, None), files: HashMap::new() }
    }

    fn dispatch(&mut self, call: Call) -> Response {
        let mut step = handle(&call.route, &call.request(), &self.secrets);
        loop {
            step = match step {
                Step::Respond(response) => return response,
                Step::ReadBody { auth, site_url } => upload(auth, site_url, call.body.clone()),
                Step::Store { path, bytes, link } => {
                    self.files.insert(path, bytes);
                    return stored(link, Ok(()));
                },
                Step::Load { path, hint } => {
                    let outcome = match self.files.get(&path) {
                        Some(bytes) => Ok(bytes.clone()),
                        None => Err(StoreError::Missing(format!("no file at {}", path))),
                    };
                    return loaded(Strategy::default(), hint.as_str(), outcome);
                },
            };
        }
    }
}

fn into_string(response: Response) -> String {
    String::from_utf8(response.body).unwrap()
}

#[test]
fn index() {
    let mut client = Client::new();
    let response = client.dispatch(get("/"));
    assert_eq!(response.status.code(), Status::Ok.code);
    assert_eq!(into_string(response), "litebin.");
}

#[test]
fn mod_test_auth() {
    let mut client = Client::new();
    let init_response = client.dispatch(get("/test_auth"));
    assert_eq!(init_response.status.code(), Status::Unauthorized.code);
    let default_credentials_base64 = encode("hello:world");
    let authorisation = format!("Basic {}", default_credentials_base64);
    let response = client.dispatch(get("/test_auth").header("Authorization", &authorisation));
    assert_eq!(response.status.code(), Status::Ok.code);
    assert_eq!(into_string(response), "Test Authentication.");
}

#[test]
fn test_upload() {
    let body_content = "hello world";
    let mut client = Client::new();
    let authorisation = format!("Basic {}", encode("hello:world"));
    let request = post_upload()
        .header("Host", "test")
        .body(body_content)
        .header("Authorization", &authorisation.clone());

    let response = client.dispatch(request);
    assert_eq!(response.status.code(), Status::Ok.code);

    let mut returned_url = into_string(response);
    returned_url.pop();
    let url_split: Vec<&str> = returned_url.as_str().split('/').collect();
    let url_end: &str = url_split[1];

    println!("{}", url_end);

    let final_response =
        client.dispatch(get(&format!("/{}", url_end)).header("Authorization", &authorisation));
    assert_eq!(into_string(final_response), body_content);
}
