use helloweb::remote_hello_world::HelloWorldClient;

#[test]
fn new_keeps_the_base_url() {
    let client = HelloWorldClient::new("http://localhost:8080".to_string());
    assert_eq!(client.base_url, "http://localhost:8080");
}

#[test]
fn hello_url_appends_a_trailing_slash() {
    let client = HelloWorldClient::new("http://localhost:8080".to_string());
    assert_eq!(client.hello_url(), "http://localhost:8080/");
}

#[test]
fn greeting_is_the_body_on_success() {
    let client = HelloWorldClient::new("http://localhost:1234".to_string());
    let greeting = client.greeting_from_response(200, "Hello World".to_string());
    assert_eq!(greeting, "Hello World");
}

#[test]
fn greeting_is_the_body_even_on_server_error() {
    let client = HelloWorldClient::new("http://localhost:1234".to_string());
    let greeting = client.greeting_from_response(500, "Internal Server Error".to_string());
    assert_eq!(greeting, "Internal Server Error");
}
