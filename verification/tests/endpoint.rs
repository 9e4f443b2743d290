use chevereto_upload::endpoint::EndpointConfig;
use chevereto_upload::error::UploadError;
use chevereto_upload::urls::MAX_URL_INPUT_BYTES;

fn request_url(url: &str, key: &str) -> Result<String, String> {
    match EndpointConfig::new(url, key) {
        Ok(config) => Ok(String::from(config.request_url())),
        Err(error) => Err(error.to_string()),
    }
}

#[test]
fn error_keeps_its_message() {
    let error = UploadError::new("connection refused");
    assert_eq!(error.to_string(), "connection refused");
    assert_eq!(UploadError::new("").to_string(), "");
}

#[test]
fn endpoint_adds_key_and_format() {
    assert_eq!(
        request_url("https://cdn.example.com/api/1/upload/", "key123"),
        Ok(String::from("https://cdn.example.com/api/1/upload/?key=key123&format=json"))
    );
}

#[test]
fn endpoint_keeps_parameters_that_are_there() {
    assert_eq!(
        request_url("https://cdn.example.com/api/1/upload/?album=7", "k"),
        Ok(String::from("https://cdn.example.com/api/1/upload/?album=7&key=k&format=json"))
    );
}

#[test]
fn endpoint_url_is_normalised() {
    assert_eq!(
        request_url("HTTPS://CDN.example.com", "k"),
        Ok(String::from("https://cdn.example.com/?key=k&format=json"))
    );
}

#[test]
fn endpoint_encodes_the_key() {
    assert_eq!(
        request_url("https://cdn.example.com/up", "a b&c=d"),
        Ok(String::from("https://cdn.example.com/up?key=a+b%26c%3Dd&format=json"))
    );
}

#[test]
fn endpoint_keeps_the_fragment_last() {
    assert_eq!(
        request_url("https://cdn.example.com/up#top", "k"),
        Ok(String::from("https://cdn.example.com/up?key=k&format=json#top"))
    );
}

#[test]
fn endpoint_rejects_a_relative_url() {
    assert_eq!(
        request_url("cdn.example.com/api/1/upload/", "key123"),
        Err(String::from("url parse error: cdn.example.com/api/1/upload/"))
    );
    assert_eq!(request_url("", "key123"), Err(String::from("url parse error: ")));
}

#[test]
fn endpoint_rejects_a_url_without_host() {
    assert_eq!(request_url("https://", "k"), Err(String::from("url parse error: https://")));
}

#[test]
fn endpoint_rejects_too_long_inputs() {
    let long = "a".repeat(MAX_URL_INPUT_BYTES + 1);
    assert_eq!(
        request_url("https://cdn.example.com/up", &long),
        Err(String::from("the upload url or the key is too long"))
    );
    let long_url = format!("https://cdn.example.com/{}", long);
    assert_eq!(
        request_url(&long_url, "k"),
        Err(String::from("the upload url or the key is too long"))
    );
}

#[test]
fn endpoint_takes_inputs_at_the_bound() {
    let key = "a".repeat(MAX_URL_INPUT_BYTES);
    assert_eq!(
        request_url("https://cdn.example.com/up", &key),
        Ok(format!("https://cdn.example.com/up?key={}&format=json", key))
    );
}

#[test]
fn endpoint_keeps_what_it_was_made_of() {
    match EndpointConfig::new("https://CDN.example.com/api/1/upload/", "key123") {
        Ok(config) => {
            assert_eq!(config.url(), "https://CDN.example.com/api/1/upload/");
            assert_eq!(config.key(), "key123");
            assert_eq!(
                config.request_url(),
                "https://cdn.example.com/api/1/upload/?key=key123&format=json"
            );
        }
        Err(error) => panic!("{}", error.to_string()),
    }
}
