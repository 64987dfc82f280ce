use vstd::prelude::*;

verus! {

#[verifier::external_type_specification]
#[verifier::external_body]
pub struct ExReqwestClient(reqwest::Client);

/// The HTTP client through which Mercado Pago is reached.
pub struct MercadoPagoClient {
    client: reqwest::Client,
}

impl MercadoPagoClient {
    /// A client that sends its requests through `client`.
    pub fn new(client: reqwest::Client) -> (r: Self)
        ensures
            r.client() == client,
    {
        MercadoPagoClient { client }
    }

    /// The underlying HTTP client.
    pub closed spec fn client(self) -> reqwest::Client {
        self.client
    }
}

} // verus!
