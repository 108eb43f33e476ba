use vstd::prelude::*;
use vstd::string::StringExecFns;

verus! {

/// Client model for the remote greeting service. It holds the base URL it
/// was constructed with; the outbound HTTP call itself is I/O and lives
/// with the caller. The library pins down the two computations around
/// that call: which URL is requested, and what is made of the response.
pub struct HelloWorldClient {
    pub base_url: String,
}

impl HelloWorldClient {
    /// No validation is performed on the base URL at construction.
    pub fn new(base_url: String) -> (client: Self)
        ensures
            client.base_url == base_url,
    {
        HelloWorldClient { base_url }
    }

    /// The URL the fetch requests: the base URL with `/` appended.
    pub fn hello_url(&self) -> (url: String)
        ensures
            url@ == self.base_url@ + "/"@,
    {
        self.base_url.clone().concat("/")
    }

    /// What the client makes of an upstream response: the decoded body,
    /// verbatim, whatever the status code was. The status is deliberately
    /// ignored — an error page's body counts as a greeting too.
    pub fn greeting_from_response(&self, status: u16, body: String) -> (greeting: String)
        ensures
            greeting == body,
    {
        let _ = status;
        body
    }
}

} // verus!
