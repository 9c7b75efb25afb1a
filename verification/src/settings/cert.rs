use vstd::prelude::*;

verus! {

/// The certificates of the server's services.
#[derive(Debug)]
pub struct Certificates {
    pub websocket: Certificate,
}

/// Where a certificate lies.
#[derive(Debug)]
pub struct Certificate {
    pub path: String,
}

impl Default for Certificate {
    fn default() -> (certificate: Self)
        ensures
            certificate.path@ == Seq::<char>::empty(),
    {
        Self { path: String::new() }
    }
}

impl Default for Certificates {
    fn default() -> (certificates: Self)
        ensures
            certificates.websocket.path@ == Seq::<char>::empty(),
    {
        Self { websocket: Certificate::default() }
    }
}

} // verus!
