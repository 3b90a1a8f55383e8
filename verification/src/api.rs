//! The settings of a client, and the addresses of its requests.

use crate::text::{lemma_without_trailing_shape, trim_end, without_trailing};
use vstd::prelude::*;
use vstd::string::StringExecFns;

verus! {

/// Where the service itself answers.
pub const API_URL: &'static str = "https://api.zerobounce.net/v2";

/// The address of a request that asks about `email`, and passes the IP
/// address it came from where one is given.
pub open spec fn validate_request(
    url: Seq<char>,
    key: Seq<char>,
    email: Seq<char>,
    ip_address: Option<Seq<char>>,
) -> Seq<char> {
    let asked = url + "/validate?api_key="@ + key + "&email="@ + email;
    match ip_address {
        Some(ip_address) => asked + "&ip_address="@ + ip_address,
        None => asked,
    }
}

/// The address of a request for the credits left.
pub open spec fn credits_request(url: Seq<char>, key: Seq<char>) -> Seq<char> {
    url + "/getcredits?api_key="@ + key
}

/// The settings of a client of the service.
pub struct Api {
    api_url: String,
    api_key: String,
}

impl Api {
    /// The base address is kept without slashes at its end.
    #[verifier::type_invariant]
    spec fn normalized(&self) -> bool {
        self.api_url@.len() > 0 ==> self.api_url@.last() != '/'
    }

    /// The base address that requests go to.
    pub closed spec fn url(&self) -> Seq<char> {
        self.api_url@
    }

    /// The key that requests are made with.
    pub closed spec fn key(&self) -> Seq<char> {
        self.api_key@
    }

    pub fn new(api_key: &str) -> (api: Api)
        ensures
            api.url() == API_URL@,
            api.key() == api_key@,
    {
        proof {
            reveal_strlit("https://api.zerobounce.net/v2");
        }
        Api { api_url: API_URL.to_owned(), api_key: api_key.to_owned() }
    }

    /// Sets the base address, without the slashes at its end.
    pub fn set_api_url(&mut self, api_url: &str) -> (same: &mut Api)
        ensures
            same.url() == without_trailing(api_url@, '/'),
            same.key() == old(self).key(),
            *final(self) == *final(same),
    {
        proof {
            lemma_without_trailing_shape(api_url@, '/');
        }
        self.api_url = trim_end(api_url, '/').to_owned();
        self
    }

    pub fn get_api_url(&self) -> (api_url: String)
        ensures
            api_url@ == self.url(),
            api_url@.len() > 0 ==> api_url@.last() != '/',
    {
        proof {
            use_type_invariant(self);
        }
        self.api_url.clone()
    }

    pub fn set_api_key(&mut self, api_key: &str) -> (same: &mut Api)
        ensures
            same.key() == api_key@,
            same.url() == old(self).url(),
            *final(self) == *final(same),
    {
        proof {
            use_type_invariant(&*self);
        }
        self.api_key = api_key.to_owned();
        self
    }

    pub fn get_api_key(&self) -> (api_key: String)
        ensures
            api_key@ == self.key(),
    {
        self.api_key.clone()
    }

    /// The address to get for a validation of `email`.
    pub fn validate_url(&self, email: &str, ip_address: Option<&str>) -> (address: String)
        ensures
            address@ == validate_request(
                self.url(),
                self.key(),
                email@,
                match ip_address {
                    Some(ip_address) => Some(ip_address@),
                    None => None,
                },
            ),
    {
        let mut address = self.api_url.clone();
        address.append("/validate?api_key=");
        address.append(self.api_key.as_str());
        address.append("&email=");
        address.append(email);
        if let Some(ip_address) = ip_address {
            address.append("&ip_address=");
            address.append(ip_address);
        }
        address
    }

    /// The address to get for the credits left.
    pub fn credits_url(&self) -> (address: String)
        ensures
            address@ == credits_request(self.url(), self.key()),
    {
        let mut address = self.api_url.clone();
        address.append("/getcredits?api_key=");
        address.append(self.api_key.as_str());
        address
    }
}

} // verus!
